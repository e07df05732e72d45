use wyag::Config;
use wyag::Error;
use wyag::IniConfig;
use wyag::Repo;
use wyag::UnvalidatedRepo;

#[test]
fn resolve_derives_gitdir() {
    let repo = UnvalidatedRepo::new("a");
    assert_eq!(repo.worktree, "a");
    assert_eq!(repo.gitdir, "a/.git");
}

#[test]
fn join_appends_component() {
    assert_eq!(wyag::join("x/y", "z"), "x/y/z");
}

#[test]
fn nonzero_version() {
    let repo: Result<Repo<IniConfig>, _> =
        Repo::new("t", true, Some("[core]\nrepositoryformatversion = 1\n"));
    assert!(matches!(repo, Err(Error::UnsupportedVersion(Some(1)))));
}

#[test]
fn version_gate_ignores_other_contents() {
    let text = "[core]\nrepositoryformatversion = 7\nbare = true\n[extra]\nanswer = 42\n";
    let repo: Result<Repo<IniConfig>, _> = Repo::new("t", true, Some(text));
    assert!(matches!(repo, Err(Error::UnsupportedVersion(Some(7)))));
}

#[test]
fn missing_worktree_is_not_a_repository() {
    let repo: Result<Repo<IniConfig>, _> =
        Repo::new("nowhere", false, Some("[core]\nrepositoryformatversion = 0\n"));
    assert_eq!(repo.unwrap_err(), Error::NotGitRepository("nowhere".to_string()));
}

#[test]
fn missing_config_file() {
    let repo: Result<Repo<IniConfig>, _> = Repo::new("t", true, None);
    assert_eq!(repo.unwrap_err(), Error::ConfigFileMissing);
}

#[test]
fn version_zero_validates() {
    let repo: Result<Repo<IniConfig>, _> =
        Repo::new("t", true, Some(wyag::default_config_text()));
    let repo = repo.unwrap();
    assert_eq!(repo.worktree(), "t");
    assert_eq!(repo.gitdir(), "t/.git");
    let version = repo.config().getuint("core", "repositoryformatversion");
    assert_eq!(version, Ok(Some(0)));
}

#[test]
fn absent_version_field() {
    let repo: Result<Repo<IniConfig>, _> = Repo::new("t", true, Some("[core]\nbare = false\n"));
    assert_eq!(repo.unwrap_err(), Error::UnsupportedVersion(None));
}

#[test]
fn non_numeric_version_is_invalid_config() {
    let repo: Result<Repo<IniConfig>, _> =
        Repo::new("t", true, Some("[core]\nrepositoryformatversion = soon\n"));
    assert!(matches!(repo, Err(Error::InvalidConfig(_))));
}

#[test]
fn malformed_document_is_invalid_config() {
    let repo: Result<Repo<IniConfig>, _> =
        Repo::new("t", true, Some("[core\nrepositoryformatversion = 0\n"));
    assert!(matches!(repo, Err(Error::InvalidConfig(_))));
}

#[test]
fn default_config_declares_version_zero() {
    let config = IniConfig::parse(wyag::default_config_text()).unwrap();
    assert_eq!(config.getuint("core", "repositoryformatversion"), Ok(Some(0)));
    assert_eq!(config.getuint("core", "missing"), Ok(None));
}
