use vstd::prelude::*;

use crate::errors::Error;
use crate::errors::ErrorV;
use crate::paths::join;
use crate::paths::join_spec;
use crate::paths::UnvalidatedRepo;

verus! {

/// How the creation target currently exists on disk.
#[derive(Clone, Copy, PartialEq, Eq, Structural, Debug)]
pub enum PathState {
    /// Nothing exists at the path.
    Missing,
    /// The path is an existing directory.
    Dir,
    /// The path exists but is not a directory.
    Other,
}

/// Spec-level image of `GitdirScan`.
pub ghost enum GitdirScanV {
    Missing,
    Entries(u64),
    Unreadable(Seq<char>),
}

/// What a look at the metadata directory found: absent, present with a
/// number of entries, or present but unreadable (with the system's message).
#[derive(Debug, PartialEq, Eq)]
pub enum GitdirScan {
    Missing,
    Entries(u64),
    Unreadable(String),
}

impl View for GitdirScan {
    type V = GitdirScanV;

    open spec fn view(&self) -> GitdirScanV {
        match self {
            GitdirScan::Missing => GitdirScanV::Missing,
            GitdirScan::Entries(n) => GitdirScanV::Entries(*n),
            GitdirScan::Unreadable(m) => GitdirScanV::Unreadable(m@),
        }
    }
}

/// Spec-level image of `Action`.
pub ghost enum ActionV {
    EnsureDir(Seq<char>),
    WriteFile(Seq<char>, Seq<char>),
}

/// One filesystem step of a creation plan.
#[derive(Debug, PartialEq, Eq)]
pub enum Action {
    /// Create the directory and any missing ancestors; succeed silently if it
    /// already exists.
    EnsureDir(String),
    /// Write the file with exactly this content, overwriting any prior one.
    WriteFile(String, String),
}

impl View for Action {
    type V = ActionV;

    open spec fn view(&self) -> ActionV {
        match self {
            Action::EnsureDir(p) => ActionV::EnsureDir(p@),
            Action::WriteFile(p, c) => ActionV::WriteFile(p@, c@),
        }
    }
}

impl DeepView for Action {
    type V = ActionV;

    open spec fn deep_view(&self) -> ActionV {
        self.view()
    }
}

/// The fixed placeholder text of the `description` file.
pub open spec fn description_spec() -> Seq<char> {
    "Unnamed repository; edit this file 'description' to name the repository.\n"@
}

/// The fixed placeholder text of the `description` file.
pub fn description_text() -> (r: &'static str)
    ensures
        r@ == description_spec(),
{
    "Unnamed repository; edit this file 'description' to name the repository.\n"
}

/// The fixed content of the `HEAD` file.
pub open spec fn head_spec() -> Seq<char> {
    "ref: refs/heads/master\n"@
}

/// The fixed content of the `HEAD` file.
pub fn head_text() -> (r: &'static str)
    ensures
        r@ == head_spec(),
{
    "ref: refs/heads/master\n"
}

/// The default configuration document a fresh repository is given: it
/// declares structural version `0`.
pub open spec fn default_config_spec() -> Seq<char> {
    "[core]\nrepositoryformatversion = 0\nfilemode = false\nbare = false\n"@
}

/// The default configuration document a fresh repository is given.
pub fn default_config_text() -> (r: &'static str)
    ensures
        r@ == default_config_spec(),
{
    "[core]\nrepositoryformatversion = 0\nfilemode = false\nbare = false\n"
}

/// The steps that lay out a fresh repository: optionally create the worktree
/// itself, then the four scaffold directories, then the three default files,
/// in this order.
pub open spec fn scaffold_spec(worktree: Seq<char>, gitdir: Seq<char>, create_worktree: bool) -> Seq<
    ActionV,
> {
    let tail = seq![
        ActionV::EnsureDir(join_spec(gitdir, "branches"@)),
        ActionV::EnsureDir(join_spec(gitdir, "objects"@)),
        ActionV::EnsureDir(join_spec(gitdir, "refs/tags"@)),
        ActionV::EnsureDir(join_spec(gitdir, "refs/heads"@)),
        ActionV::WriteFile(join_spec(gitdir, "description"@), description_spec()),
        ActionV::WriteFile(join_spec(gitdir, "HEAD"@), head_spec()),
        ActionV::WriteFile(join_spec(gitdir, "config"@), default_config_spec()),
    ];
    if create_worktree {
        seq![ActionV::EnsureDir(worktree)] + tail
    } else {
        tail
    }
}

/// What planning a creation yields: the pre-flight checks in the order the
/// creator runs them, then the scaffold steps. A worktree that exists as a
/// non-directory is refused; an existing worktree whose metadata directory
/// already has entries is refused; an unreadable metadata directory surfaces
/// the underlying message; a missing worktree is created first.
pub open spec fn create_plan_spec(
    worktree: Seq<char>,
    gitdir: Seq<char>,
    worktree_state: PathState,
    gitdir_scan: GitdirScanV,
) -> Result<Seq<ActionV>, ErrorV> {
    match worktree_state {
        PathState::Other => Result::Err(ErrorV::NotADirectory(worktree)),
        PathState::Dir => match gitdir_scan {
            GitdirScanV::Unreadable(m) => Result::Err(ErrorV::Io(m)),
            GitdirScanV::Entries(n) => if n > 0 {
                Result::Err(ErrorV::NotEmpty(gitdir))
            } else {
                Result::Ok(scaffold_spec(worktree, gitdir, false))
            },
            GitdirScanV::Missing => Result::Ok(scaffold_spec(worktree, gitdir, false)),
        },
        PathState::Missing => Result::Ok(scaffold_spec(worktree, gitdir, true)),
    }
}

/// Build the scaffold step list for a location.
fn scaffold_plan(repo: &UnvalidatedRepo, create_worktree: bool) -> (r: Vec<Action>)
    ensures
        r.deep_view() == scaffold_spec(repo.worktree@, repo.gitdir@, create_worktree),
{
    let mut plan: Vec<Action> = Vec::new();
    if create_worktree {
        plan.push(Action::EnsureDir(repo.worktree.clone()));
    }
    plan.push(Action::EnsureDir(join(&repo.gitdir, "branches")));
    plan.push(Action::EnsureDir(join(&repo.gitdir, "objects")));
    plan.push(Action::EnsureDir(join(&repo.gitdir, "refs/tags")));
    plan.push(Action::EnsureDir(join(&repo.gitdir, "refs/heads")));
    plan.push(Action::WriteFile(join(&repo.gitdir, "description"), description_text().to_owned()));
    plan.push(Action::WriteFile(join(&repo.gitdir, "HEAD"), head_text().to_owned()));
    plan.push(Action::WriteFile(join(&repo.gitdir, "config"), default_config_text().to_owned()));
    proof {
        assert(plan.deep_view() =~= scaffold_spec(repo.worktree@, repo.gitdir@, create_worktree));
    }
    plan
}

/// Plan the creation of a fresh repository at a resolved location, given what
/// a look at the disk found. On success the returned actions, performed in
/// order, lay out the full repository; on failure nothing is to be written.
pub fn create_plan(repo: &UnvalidatedRepo, worktree_state: PathState, gitdir_scan: GitdirScan) -> (r:
    Result<Vec<Action>, Error>)
    ensures
        (r is Ok) == (create_plan_spec(
            repo.worktree@,
            repo.gitdir@,
            worktree_state,
            gitdir_scan@,
        ) is Ok),
        r matches Ok(plan) ==> plan.deep_view() == create_plan_spec(
            repo.worktree@,
            repo.gitdir@,
            worktree_state,
            gitdir_scan@,
        )->Ok_0,
        r matches Err(e) ==> e@ == create_plan_spec(
            repo.worktree@,
            repo.gitdir@,
            worktree_state,
            gitdir_scan@,
        )->Err_0,
{
    match worktree_state {
        PathState::Other => Err(Error::NotADirectory(repo.worktree.clone())),
        PathState::Dir => match gitdir_scan {
            GitdirScan::Unreadable(m) => Err(Error::Io(m)),
            GitdirScan::Entries(n) => {
                if n > 0 {
                    Err(Error::NotEmpty(repo.gitdir.clone()))
                } else {
                    Ok(scaffold_plan(repo, false))
                }
            },
            GitdirScan::Missing => Ok(scaffold_plan(repo, false)),
        },
        PathState::Missing => Ok(scaffold_plan(repo, true)),
    }
}

/// Non-directory guard: planning against a worktree that exists as anything
/// but a directory fails with `NotADirectory`, whatever the metadata
/// directory holds.
pub proof fn lemma_non_directory_guard(worktree: Seq<char>, gitdir: Seq<char>, gd: GitdirScanV)
    ensures
        create_plan_spec(worktree, gitdir, PathState::Other, gd) == Result::<
            Seq<ActionV>,
            ErrorV,
        >::Err(ErrorV::NotADirectory(worktree)),
{
}

/// Non-empty guard: planning against an existing worktree whose metadata
/// directory already contains at least one entry fails with `NotEmpty`, so
/// no action is performed.
pub proof fn lemma_non_empty_guard(worktree: Seq<char>, gitdir: Seq<char>, n: u64)
    requires
        n > 0,
    ensures
        create_plan_spec(worktree, gitdir, PathState::Dir, GitdirScanV::Entries(n)) == Result::<
            Seq<ActionV>,
            ErrorV,
        >::Err(ErrorV::NotEmpty(gitdir)),
{
}

/// A model of a filesystem as far as the creator touches it: each path maps
/// to a directory or to a file with its content.
pub ghost enum EntryV {
    Dir,
    File(Seq<char>),
}

/// The state a single successful action leaves a filesystem in: the named
/// path becomes a directory, or the named file holds exactly the written
/// content.
pub open spec fn apply_action(fs: Map<Seq<char>, EntryV>, a: ActionV) -> Map<Seq<char>, EntryV> {
    match a {
        ActionV::EnsureDir(p) => fs.insert(p, EntryV::Dir),
        ActionV::WriteFile(p, c) => fs.insert(p, EntryV::File(c)),
    }
}

/// The state a plan, run to completion, leaves a filesystem in.
pub open spec fn apply_plan(fs: Map<Seq<char>, EntryV>, plan: Seq<ActionV>) -> Map<
    Seq<char>,
    EntryV,
>
    decreases plan.len(),
{
    if plan.len() == 0 {
        fs
    } else {
        apply_plan(apply_action(fs, plan[0]), plan.skip(1))
    }
}

/// The paths a plan writes, each mapped to the last entry written there.
pub open spec fn plan_writes(plan: Seq<ActionV>) -> Map<Seq<char>, EntryV>
    decreases plan.len(),
{
    if plan.len() == 0 {
        Map::empty()
    } else {
        apply_action(Map::empty(), plan[0]).union_prefer_right(plan_writes(plan.skip(1)))
    }
}

/// Running a plan lays its writes over the starting state: every path the
/// plan touches ends at the last entry the plan writes there, and every
/// other path keeps its old entry.
pub proof fn lemma_apply_plan_as_writes(fs: Map<Seq<char>, EntryV>, plan: Seq<ActionV>)
    ensures
        apply_plan(fs, plan) == fs.union_prefer_right(plan_writes(plan)),
    decreases plan.len(),
{
    if plan.len() == 0 {
        assert(apply_plan(fs, plan) =~= fs.union_prefer_right(plan_writes(plan)));
    } else {
        lemma_apply_plan_as_writes(apply_action(fs, plan[0]), plan.skip(1));
        assert(apply_plan(fs, plan) =~= fs.union_prefer_right(plan_writes(plan)));
    }
}

/// Idempotent scaffold: running the same plan a second time, from the state
/// the first run produced, changes nothing — every directory and every
/// default file is laid down the same way both times.
pub proof fn lemma_plan_idempotent(fs: Map<Seq<char>, EntryV>, plan: Seq<ActionV>)
    ensures
        apply_plan(apply_plan(fs, plan), plan) == apply_plan(fs, plan),
{
    lemma_apply_plan_as_writes(fs, plan);
    lemma_apply_plan_as_writes(apply_plan(fs, plan), plan);
    assert(fs.union_prefer_right(plan_writes(plan)).union_prefer_right(plan_writes(plan))
        =~= fs.union_prefer_right(plan_writes(plan)));
}

/// After a completed creation plan the metadata directory holds the four
/// scaffold directories and the three default files with their fixed,
/// byte-identical contents — whatever state the plan started from, and
/// whether or not the worktree itself had to be created first.
pub proof fn lemma_scaffold_end_state(
    fs: Map<Seq<char>, EntryV>,
    worktree: Seq<char>,
    gitdir: Seq<char>,
    create_worktree: bool,
)
    ensures
        ({
            let end = apply_plan(fs, scaffold_spec(worktree, gitdir, create_worktree));
            &&& end.contains_key(join_spec(gitdir, "branches"@))
            &&& end[join_spec(gitdir, "branches"@)] == EntryV::Dir
            &&& end.contains_key(join_spec(gitdir, "objects"@))
            &&& end[join_spec(gitdir, "objects"@)] == EntryV::Dir
            &&& end.contains_key(join_spec(gitdir, "refs/tags"@))
            &&& end[join_spec(gitdir, "refs/tags"@)] == EntryV::Dir
            &&& end.contains_key(join_spec(gitdir, "refs/heads"@))
            &&& end[join_spec(gitdir, "refs/heads"@)] == EntryV::Dir
            &&& end.contains_key(join_spec(gitdir, "description"@))
            &&& end[join_spec(gitdir, "description"@)] == EntryV::File(description_spec())
            &&& end.contains_key(join_spec(gitdir, "HEAD"@))
            &&& end[join_spec(gitdir, "HEAD"@)] == EntryV::File(head_spec())
            &&& end.contains_key(join_spec(gitdir, "config"@))
            &&& end[join_spec(gitdir, "config"@)] == EntryV::File(default_config_spec())
        }),
{
    reveal_strlit("/");
    reveal_strlit("branches");
    reveal_strlit("objects");
    reveal_strlit("refs/tags");
    reveal_strlit("refs/heads");
    reveal_strlit("description");
    reveal_strlit("HEAD");
    reveal_strlit("config");
    reveal_with_fuel(plan_writes, 10);
    let a0 = ActionV::EnsureDir(join_spec(gitdir, "branches"@));
    let a1 = ActionV::EnsureDir(join_spec(gitdir, "objects"@));
    let a2 = ActionV::EnsureDir(join_spec(gitdir, "refs/tags"@));
    let a3 = ActionV::EnsureDir(join_spec(gitdir, "refs/heads"@));
    let a4 = ActionV::WriteFile(join_spec(gitdir, "description"@), description_spec());
    let a5 = ActionV::WriteFile(join_spec(gitdir, "HEAD"@), head_spec());
    let a6 = ActionV::WriteFile(join_spec(gitdir, "config"@), default_config_spec());
    let tail = seq![a0, a1, a2, a3, a4, a5, a6];
    let p = scaffold_spec(worktree, gitdir, create_worktree);
    lemma_apply_plan_as_writes(fs, p);
    assert(tail.skip(1) =~= seq![a1, a2, a3, a4, a5, a6]);
    assert(seq![a1, a2, a3, a4, a5, a6].skip(1) =~= seq![a2, a3, a4, a5, a6]);
    assert(seq![a2, a3, a4, a5, a6].skip(1) =~= seq![a3, a4, a5, a6]);
    assert(seq![a3, a4, a5, a6].skip(1) =~= seq![a4, a5, a6]);
    assert(seq![a4, a5, a6].skip(1) =~= seq![a5, a6]);
    assert(seq![a5, a6].skip(1) =~= seq![a6]);
    assert(seq![a6].skip(1) =~= Seq::<ActionV>::empty());
    let w = plan_writes(tail);
    assert(join_spec(gitdir, "branches"@).len() == gitdir.len() + 9);
    assert(join_spec(gitdir, "objects"@).len() == gitdir.len() + 8);
    assert(join_spec(gitdir, "refs/tags"@).len() == gitdir.len() + 10);
    assert(join_spec(gitdir, "refs/heads"@).len() == gitdir.len() + 11);
    assert(join_spec(gitdir, "description"@).len() == gitdir.len() + 12);
    assert(join_spec(gitdir, "HEAD"@).len() == gitdir.len() + 5);
    assert(join_spec(gitdir, "config"@).len() == gitdir.len() + 7);
    assert(w.contains_key(join_spec(gitdir, "branches"@)) && w[join_spec(gitdir, "branches"@)]
        == EntryV::Dir);
    assert(w.contains_key(join_spec(gitdir, "objects"@)) && w[join_spec(gitdir, "objects"@)]
        == EntryV::Dir);
    assert(w.contains_key(join_spec(gitdir, "refs/tags"@)) && w[join_spec(gitdir, "refs/tags"@)]
        == EntryV::Dir);
    assert(w.contains_key(join_spec(gitdir, "refs/heads"@)) && w[join_spec(gitdir, "refs/heads"@)]
        == EntryV::Dir);
    assert(w.contains_key(join_spec(gitdir, "description"@)) && w[join_spec(
        gitdir,
        "description"@,
    )] == EntryV::File(description_spec()));
    assert(w.contains_key(join_spec(gitdir, "HEAD"@)) && w[join_spec(gitdir, "HEAD"@)]
        == EntryV::File(head_spec()));
    assert(w.contains_key(join_spec(gitdir, "config"@)) && w[join_spec(gitdir, "config"@)]
        == EntryV::File(default_config_spec()));
    if create_worktree {
        assert(p == seq![ActionV::EnsureDir(worktree)] + tail);
        assert(p.skip(1) =~= tail);
        assert(plan_writes(p) == apply_action(Map::empty(), ActionV::EnsureDir(
            worktree,
        )).union_prefer_right(w));
    } else {
        assert(p == tail);
    }
}

} // verus!
