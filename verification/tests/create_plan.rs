use std::collections::HashMap;

use wyag::Action;
use wyag::Config;
use wyag::Error;
use wyag::GitdirScan;
use wyag::IniConfig;
use wyag::PathState;
use wyag::Repo;
use wyag::UnvalidatedRepo;

#[derive(Debug, PartialEq, Clone)]
enum Entry {
    Dir,
    File(String),
}

fn apply(fs: &mut HashMap<String, Entry>, plan: &[Action]) {
    for action in plan {
        match action {
            Action::EnsureDir(p) => {
                fs.insert(p.clone(), Entry::Dir);
            }
            Action::WriteFile(p, c) => {
                fs.insert(p.clone(), Entry::File(c.clone()));
            }
        }
    }
}

#[test]
fn create() {
    let repo = UnvalidatedRepo::new("test");
    let plan = wyag::create_plan(&repo, PathState::Missing, GitdirScan::Missing).unwrap();
    let mut fs: HashMap<String, Entry> = HashMap::new();
    apply(&mut fs, &plan);
    assert!(matches!(fs.get("test/.git/config"), Some(Entry::File(c)) if !c.is_empty()));
}

#[test]
fn full_layout_on_absent_path() {
    let repo = UnvalidatedRepo::new("/tmp/x/test");
    let plan = wyag::create_plan(&repo, PathState::Missing, GitdirScan::Missing).unwrap();
    let mut fs: HashMap<String, Entry> = HashMap::new();
    apply(&mut fs, &plan);
    assert_eq!(fs.get("/tmp/x/test"), Some(&Entry::Dir));
    assert_eq!(fs.get("/tmp/x/test/.git/branches"), Some(&Entry::Dir));
    assert_eq!(fs.get("/tmp/x/test/.git/objects"), Some(&Entry::Dir));
    assert_eq!(fs.get("/tmp/x/test/.git/refs/tags"), Some(&Entry::Dir));
    assert_eq!(fs.get("/tmp/x/test/.git/refs/heads"), Some(&Entry::Dir));
    assert_eq!(
        fs.get("/tmp/x/test/.git/description"),
        Some(&Entry::File(
            "Unnamed repository; edit this file 'description' to name the repository.\n"
                .to_string()
        ))
    );
    assert_eq!(
        fs.get("/tmp/x/test/.git/HEAD"),
        Some(&Entry::File("ref: refs/heads/master\n".to_string()))
    );
    let config_text = match fs.get("/tmp/x/test/.git/config") {
        Some(Entry::File(c)) => c.clone(),
        other => panic!("config entry missing or not a file: {:?}", other),
    };
    assert_eq!(
        config_text,
        "[core]\nrepositoryformatversion = 0\nfilemode = false\nbare = false\n"
    );
    let validated: Repo<IniConfig> =
        Repo::validate(UnvalidatedRepo::new("/tmp/x/test"), true, Some(&config_text)).unwrap();
    assert_eq!(
        validated.config().getuint("core", "repositoryformatversion"),
        Ok(Some(0))
    );
}

#[test]
fn scaffold_idempotent() {
    let repo = UnvalidatedRepo::new("again");
    let plan = wyag::create_plan(&repo, PathState::Missing, GitdirScan::Missing).unwrap();
    let mut fs: HashMap<String, Entry> = HashMap::new();
    apply(&mut fs, &plan);
    let after_first = fs.clone();
    apply(&mut fs, &plan);
    assert_eq!(fs, after_first);
}

#[test]
fn empty_gitdir_allows_creation() {
    let repo = UnvalidatedRepo::new("present");
    let plan = wyag::create_plan(&repo, PathState::Dir, GitdirScan::Entries(0)).unwrap();
    assert!(!plan.contains(&Action::EnsureDir("present".to_string())));
    let mut fs: HashMap<String, Entry> = HashMap::new();
    apply(&mut fs, &plan);
    assert_eq!(fs.get("present/.git/branches"), Some(&Entry::Dir));
}

#[test]
fn non_empty_guard() {
    let repo = UnvalidatedRepo::new("x");
    let r = wyag::create_plan(&repo, PathState::Dir, GitdirScan::Entries(1));
    assert_eq!(r.unwrap_err(), Error::NotEmpty("x/.git".to_string()));
}

#[test]
fn non_directory_guard() {
    let repo = UnvalidatedRepo::new("x");
    let r = wyag::create_plan(&repo, PathState::Other, GitdirScan::Missing);
    assert_eq!(r.unwrap_err(), Error::NotADirectory("x".to_string()));
}

#[test]
fn unreadable_gitdir_surfaces_io_error() {
    let repo = UnvalidatedRepo::new("x");
    let r = wyag::create_plan(
        &repo,
        PathState::Dir,
        GitdirScan::Unreadable("permission denied".to_string()),
    );
    assert_eq!(r.unwrap_err(), Error::Io("permission denied".to_string()));
}
