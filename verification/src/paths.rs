use vstd::prelude::*;
use vstd::string::StringExecFns;

verus! {

/// The spec-level path join: `base`, a separator, then `name`.
pub open spec fn join_spec(base: Seq<char>, name: Seq<char>) -> Seq<char> {
    base + "/"@ + name
}

/// Join a path component onto a base path with a `/` separator.
pub fn join(base: &str, name: &str) -> (r: String)
    ensures
        r@ == join_spec(base@, name@),
{
    base.to_owned().concat("/").concat(name)
}

/// A repository location whose directories may or may not exist on disk.
///
/// Deriving it from a root path is pure path arithmetic and never fails;
/// nothing is claimed about the filesystem until validation runs.
#[derive(Debug, PartialEq, Eq)]
pub struct UnvalidatedRepo {
    pub worktree: String,
    pub gitdir: String,
}

impl UnvalidatedRepo {
    /// Resolve a root path: the worktree is the root as given and the
    /// metadata directory is `<root>/.git`.
    pub fn new(path: &str) -> (r: Self)
        ensures
            r.worktree@ == path@,
            r.gitdir@ == join_spec(path@, ".git"@),
    {
        UnvalidatedRepo { worktree: path.to_owned(), gitdir: join(path, ".git") }
    }
}

} // verus!
