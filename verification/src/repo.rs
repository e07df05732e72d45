use vstd::prelude::*;

use crate::config::Config;
use crate::config::IniDoc;
use crate::errors::Error;
use crate::errors::ErrorV;
use crate::paths::UnvalidatedRepo;

verus! {

/// The view of the optional configuration-file text handed to validation.
pub open spec fn text_view(t: Option<&str>) -> Option<Seq<char>> {
    match t {
        Option::Some(s) => Option::Some(s@),
        Option::None => Option::None,
    }
}

/// What validating a location yields, checked in order and short-circuiting:
/// the worktree must be an existing directory, a configuration document must
/// be present and parse, and the document must declare
/// `core.repositoryformatversion` as exactly `0`. On success the parsed
/// document is the repository's configuration.
pub open spec fn validate_spec<C: Config>(
    worktree: Seq<char>,
    worktree_is_dir: bool,
    config_text: Option<Seq<char>>,
) -> Result<IniDoc, ErrorV> {
    if !worktree_is_dir {
        Result::Err(ErrorV::NotGitRepository(worktree))
    } else {
        match config_text {
            Option::None => Result::Err(ErrorV::ConfigFileMissing),
            Option::Some(text) => match C::parse_spec(text) {
                Result::Err(m) => Result::Err(ErrorV::InvalidConfig(m)),
                Result::Ok(doc) => match C::uint_spec(
                    doc,
                    "core"@,
                    "repositoryformatversion"@,
                ) {
                    Result::Err(m) => Result::Err(ErrorV::InvalidConfig(m)),
                    Result::Ok(Option::None) => Result::Err(
                        ErrorV::UnsupportedVersion(Option::None),
                    ),
                    Result::Ok(Option::Some(v)) => if v != 0 {
                        Result::Err(ErrorV::UnsupportedVersion(Option::Some(v)))
                    } else {
                        Result::Ok(doc)
                    },
                },
            },
        }
    }
}

/// A repository location that passed validation, together with the
/// configuration document loaded while validating it.
///
/// A value of this type can only be built by `validate` (or `new`), so
/// holding one means the worktree existed as a directory and the
/// configuration declared the supported structural version at the moment of
/// validation.
#[derive(Debug)]
pub struct Repo<C> {
    inner: UnvalidatedRepo,
    config: C,
}

impl<C: Config> Repo<C> {
    /// The validated worktree path.
    pub closed spec fn spec_worktree(&self) -> Seq<char> {
        self.inner.worktree@
    }

    /// The validated metadata-directory path.
    pub closed spec fn spec_gitdir(&self) -> Seq<char> {
        self.inner.gitdir@
    }

    /// The abstract document of the configuration loaded at validation.
    pub closed spec fn spec_doc(&self) -> IniDoc {
        self.config.doc()
    }

    /// Validate a resolved location. `worktree_is_dir` reports whether the
    /// worktree exists as a directory on disk; `config_text` holds the
    /// contents of the metadata directory's `config` file, or `None` if that
    /// file does not exist.
    pub fn validate(inner: UnvalidatedRepo, worktree_is_dir: bool, config_text: Option<&str>) -> (r:
        Result<Self, Error>)
        ensures
            (r is Ok) == (validate_spec::<C>(
                inner.worktree@,
                worktree_is_dir,
                text_view(config_text),
            ) is Ok),
            r matches Ok(repo) ==> {
                &&& repo.spec_worktree() == inner.worktree@
                &&& repo.spec_gitdir() == inner.gitdir@
                &&& repo.spec_doc() == validate_spec::<C>(
                    inner.worktree@,
                    worktree_is_dir,
                    text_view(config_text),
                )->Ok_0
            },
            r matches Err(e) ==> e@ == validate_spec::<C>(
                inner.worktree@,
                worktree_is_dir,
                text_view(config_text),
            )->Err_0,
    {
        if !worktree_is_dir {
            return Err(Error::NotGitRepository(inner.worktree));
        }
        let text = match config_text {
            Option::Some(t) => t,
            Option::None => {
                return Err(Error::ConfigFileMissing);
            },
        };
        let config = match C::parse(text) {
            Ok(c) => c,
            Err(m) => {
                return Err(Error::InvalidConfig(m));
            },
        };
        let version = match config.getuint("core", "repositoryformatversion") {
            Ok(v) => v,
            Err(m) => {
                return Err(Error::InvalidConfig(m));
            },
        };
        match version {
            Option::None => Err(Error::UnsupportedVersion(None)),
            Option::Some(v) => {
                if v != 0 {
                    Err(Error::UnsupportedVersion(Some(v)))
                } else {
                    Ok(Repo { inner, config })
                }
            },
        }
    }

    /// The validated worktree path.
    pub fn worktree(&self) -> (r: &str)
        ensures
            r@ == self.spec_worktree(),
    {
        self.inner.worktree.as_str()
    }

    /// The validated metadata-directory path.
    pub fn gitdir(&self) -> (r: &str)
        ensures
            r@ == self.spec_gitdir(),
    {
        self.inner.gitdir.as_str()
    }

    /// The configuration loaded while validating.
    pub fn config(&self) -> (r: &C)
        ensures
            r.doc() == self.spec_doc(),
    {
        &self.config
    }

    /// Resolve a root path and validate the location it implies, in one step.
    pub fn new(path: &str, worktree_is_dir: bool, config_text: Option<&str>) -> (r: Result<
        Self,
        Error,
    >)
        ensures
            (r is Ok) == (validate_spec::<C>(path@, worktree_is_dir, text_view(config_text)) is Ok),
            r matches Ok(repo) ==> {
                &&& repo.spec_worktree() == path@
                &&& repo.spec_gitdir() == crate::paths::join_spec(path@, ".git"@)
                &&& repo.spec_doc() == validate_spec::<C>(
                    path@,
                    worktree_is_dir,
                    text_view(config_text),
                )->Ok_0
            },
            r matches Err(e) ==> e@ == validate_spec::<C>(
                path@,
                worktree_is_dir,
                text_view(config_text),
            )->Err_0,
    {
        let unvalidated = UnvalidatedRepo::new(path);
        Self::validate(unvalidated, worktree_is_dir, config_text)
    }
}

/// Version gate: whenever the worktree exists and the configuration parses
/// but reports `core.repositoryformatversion = v` with `v != 0`, validation
/// fails with `UnsupportedVersion(Some(v))`, whatever else the document
/// holds.
pub proof fn lemma_version_gate<C: Config>(worktree: Seq<char>, text: Seq<char>, v: u64)
    requires
        C::parse_spec(text) is Ok,
        C::uint_spec(C::parse_spec(text)->Ok_0, "core"@, "repositoryformatversion"@)
            == Result::<Option<u64>, Seq<char>>::Ok(Option::Some(v)),
        v != 0,
    ensures
        validate_spec::<C>(worktree, true, Option::Some(text)) == Result::<
            IniDoc,
            ErrorV,
        >::Err(ErrorV::UnsupportedVersion(Option::Some(v))),
{
}

/// Missing worktree: validating a location whose worktree is not an existing
/// directory always fails with `NotGitRepository`, whatever configuration
/// text is or is not present.
pub proof fn lemma_missing_worktree<C: Config>(worktree: Seq<char>, config_text: Option<Seq<char>>)
    ensures
        validate_spec::<C>(worktree, false, config_text) == Result::<IniDoc, ErrorV>::Err(
            ErrorV::NotGitRepository(worktree),
        ),
{
}

} // verus!
