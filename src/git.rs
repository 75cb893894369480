//! Decisions of the remote synchronisation engine: how to clone, what to push,
//! and how to bring fetched history into the current branch.
use vstd::prelude::*;
use crate::error::YadmError;
use crate::paths::{has_prefix, join, join_path, starts_with};

verus! {

#[verifier::external_type_specification]
#[verifier::external_body]
pub struct ExMergeAnalysis(git2::MergeAnalysis);

/// Whether a merge analysis holds the fast-forward flag.
pub uninterp spec fn fast_forward_of(a: git2::MergeAnalysis) -> bool;

/// Relies on git2::MergeAnalysis::is_fast_forward: whether the analysis holds the
/// fast-forward flag, a test on the value alone.
pub assume_specification[ git2::MergeAnalysis::is_fast_forward ](
    a: &git2::MergeAnalysis,
) -> (r: bool)
    ensures
        r == fast_forward_of(*a),
;

/// How a clone authenticates, chosen by the shape of its URL.
#[derive(Debug, Clone, Copy, PartialEq, Eq, Structural)]
pub enum CloneMode {
    /// Anonymous or HTTPS transport.
    Plain,
    /// SSH with the user's private key.
    Ssh,
}

/// What a clone does to its destination before cloning into it.
#[derive(Debug, Clone, Copy, PartialEq, Eq, Structural)]
pub enum ClonePlan {
    /// The destination does not exist: clone straight into it.
    Fresh,
    /// The destination exists and `force` was given: remove it, then clone.
    ReplaceExisting,
}

/// How fetched history is brought into the current branch.
#[derive(Debug, Clone, PartialEq, Eq)]
pub enum PullAction {
    /// Move the reference `refname` to the fetched commit and force the working
    /// tree to match it.
    FastForward { refname: String },
    /// Merge the fetched commit into the working tree.
    Merge,
}

pub open spec fn ssh_url_prefix() -> Seq<char> {
    seq!['g', 'i', 't', '@']
}

pub open spec fn clone_mode_of(url: Seq<char>) -> CloneMode {
    if starts_with(url, ssh_url_prefix()) {
        CloneMode::Ssh
    } else {
        CloneMode::Plain
    }
}

pub open spec fn clone_plan_of(exists: bool, force: bool) -> Result<ClonePlan, YadmError> {
    if !exists {
        Ok(ClonePlan::Fresh)
    } else if force {
        Ok(ClonePlan::ReplaceExisting)
    } else {
        Err(YadmError::DestinationExists)
    }
}

pub open spec fn default_ssh_user() -> Seq<char> {
    seq!['g', 'i', 't']
}

pub open spec fn key_file() -> Seq<char> {
    seq!['.', 's', 's', 'h', '/', 'i', 'd', '_', 'r', 's', 'a']
}

pub open spec fn heads_prefix() -> Seq<char> {
    seq!['r', 'e', 'f', 's', '/', 'h', 'e', 'a', 'd', 's', '/']
}

pub open spec fn branch_ref(branch: Seq<char>) -> Seq<char> {
    heads_prefix() + branch
}

/// `refs/heads/<branch>:refs/heads/<branch>`.
pub open spec fn refspec_of(branch: Seq<char>) -> Seq<char> {
    branch_ref(branch) + seq![':'] + branch_ref(branch)
}

/// The branch that HEAD names, if HEAD names one.
pub open spec fn branch_of(detached: bool, shorthand: Option<Seq<char>>) -> Result<
    Seq<char>,
    YadmError,
> {
    if detached {
        Err(YadmError::DetachedHead)
    } else {
        match shorthand {
            Some(b) => Ok(b),
            None => Err(YadmError::DetachedHead),
        }
    }
}

pub open spec fn opt_view(o: Option<&str>) -> Option<Seq<char>> {
    match o {
        Some(s) => Some(s@),
        None => None,
    }
}

/// SSH URLs (`git@host:...`) clone with key authentication, all others plainly.
pub fn clone_mode(url: &str) -> (r: CloneMode)
    ensures
        r == clone_mode_of(url@),
{
    let p = "git@";
    proof {
        reveal_strlit("git@");
    }
    assert(p@ =~= ssh_url_prefix());
    if has_prefix(url, p) {
        CloneMode::Ssh
    } else {
        CloneMode::Plain
    }
}

/// An existing destination is replaced only when `force` is set; otherwise the
/// clone is refused before anything is touched.
pub fn clone_plan(exists: bool, force: bool) -> (r: Result<ClonePlan, YadmError>)
    ensures
        r == clone_plan_of(exists, force),
{
    if exists {
        if force {
            Ok(ClonePlan::ReplaceExisting)
        } else {
            Err(YadmError::DestinationExists)
        }
    } else {
        Ok(ClonePlan::Fresh)
    }
}

/// The user name for SSH authentication: the one in the URL, else `git`.
pub fn ssh_username(from_url: Option<&str>) -> (r: String)
    ensures
        r@ == match from_url {
            Some(u) => u@,
            None => default_ssh_user(),
        },
{
    match from_url {
        Some(u) => String::from_str(u),
        None => {
            let g = "git";
            proof {
                reveal_strlit("git");
            }
            assert(g@ =~= default_ssh_user());
            String::from_str(g)
        },
    }
}

/// The private key used for SSH authentication: `.ssh/id_rsa` under `home`.
pub fn ssh_key_path(home: &str) -> (r: String)
    ensures
        r@ == join_path(home@, key_file()),
{
    let k = ".ssh/id_rsa";
    proof {
        reveal_strlit(".ssh/id_rsa");
    }
    assert(k@ =~= key_file());
    join(home, k)
}

/// The full reference name of a local branch.
pub fn branch_refname(branch: &str) -> (r: String)
    ensures
        r@ == branch_ref(branch@),
{
    let p = "refs/heads/";
    proof {
        reveal_strlit("refs/heads/");
    }
    assert(p@ =~= heads_prefix());
    let mut r = String::from_str(p);
    r.append(branch);
    r
}

/// The refspec that pushes `branch` to the branch of the same name.
pub fn push_refspec(branch: &str) -> (r: String)
    ensures
        r@ == refspec_of(branch@),
{
    let mut r = branch_refname(branch);
    let colon = ":";
    proof {
        reveal_strlit(":");
    }
    assert(colon@ =~= seq![':']);
    r.append(colon);
    let target = branch_refname(branch);
    r.append(target.as_str());
    r
}

/// The branch that HEAD names; a detached HEAD, or one without a branch name,
/// is an error.
pub fn current_branch(detached: bool, shorthand: Option<&str>) -> (r: Result<String, YadmError>)
    ensures
        match r {
            Ok(b) => branch_of(detached, opt_view(shorthand)) == Ok::<Seq<char>, YadmError>(b@),
            Err(e) => branch_of(detached, opt_view(shorthand)) == Err::<Seq<char>, YadmError>(e),
        },
{
    if detached {
        return Err(YadmError::DetachedHead);
    }
    match shorthand {
        Some(b) => Ok(String::from_str(b)),
        None => Err(YadmError::DetachedHead),
    }
}

/// The refspec to push for the current HEAD. A HEAD without a branch yields
/// `DetachedHead`, and then there is nothing to send to the remote.
pub fn push_plan(detached: bool, shorthand: Option<&str>) -> (r: Result<String, YadmError>)
    ensures
        match branch_of(detached, opt_view(shorthand)) {
            Ok(b) => r matches Ok(refspec) && refspec@ == refspec_of(b),
            Err(e) => r == Err::<String, YadmError>(e),
        },
{
    match current_branch(detached, shorthand) {
        Ok(b) => Ok(push_refspec(b.as_str())),
        Err(e) => Err(e),
    }
}

/// A fetch that the branch can fast-forward to moves the branch reference and
/// forces the working tree to match; any other is merged.
pub fn pull_action(branch: &str, fast_forward: bool) -> (r: PullAction)
    ensures
        fast_forward ==> (r matches PullAction::FastForward { refname } && refname@ == branch_ref(
            branch@,
        )),
        !fast_forward ==> r == PullAction::Merge,
{
    if fast_forward {
        PullAction::FastForward { refname: branch_refname(branch) }
    } else {
        PullAction::Merge
    }
}

/// The action for a fetch whose merge analysis against HEAD is `analysis`.
pub fn pull_plan(branch: &str, analysis: &git2::MergeAnalysis) -> (r: PullAction)
    ensures
        fast_forward_of(*analysis) ==> (r matches PullAction::FastForward { refname } && refname@
            == branch_ref(branch@)),
        !fast_forward_of(*analysis) ==> r == PullAction::Merge,
{
    pull_action(branch, analysis.is_fast_forward())
}

pub open spec fn non_fast_forward_status() -> Seq<char> {
    seq!['n', 'o', 'n', '-', 'f', 'a', 's', 't', '-', 'f', 'o', 'r', 'w', 'a', 'r', 'd']
}

pub open spec fn push_status_of(status: Option<Seq<char>>) -> Result<(), YadmError> {
    match status {
        None => Ok(()),
        Some(m) => if starts_with(m, non_fast_forward_status()) {
            Err(YadmError::NonFastForward)
        } else {
            Err(YadmError::Rejected)
        },
    }
}

/// The result of a pushed reference from the status that the remote sent for
/// it: none means accepted; a status that begins with `non-fast-forward` is
/// `NonFastForward`, and any other is `Rejected`.
pub fn push_status(status: Option<&str>) -> (r: Result<(), YadmError>)
    ensures
        r == push_status_of(opt_view(status)),
{
    match status {
        None => Ok(()),
        Some(m) => {
            let nff = "non-fast-forward";
            proof {
                reveal_strlit("non-fast-forward");
            }
            assert(nff@ =~= non_fast_forward_status());
            if has_prefix(m, nff) {
                Err(YadmError::NonFastForward)
            } else {
                Err(YadmError::Rejected)
            }
        },
    }
}

/// A merge that leaves conflicts in the index is not resolved here: it is
/// reported as `MergeFailure`, with the conflicts left for the user.
pub fn merge_outcome(has_conflicts: bool) -> (r: Result<(), YadmError>)
    ensures
        r == (if has_conflicts {
            Err::<(), YadmError>(YadmError::MergeFailure)
        } else {
            Ok(())
        }),
{
    if has_conflicts {
        Err(YadmError::MergeFailure)
    } else {
        Ok(())
    }
}

/// A clone into a path that does not exist goes straight ahead, whatever
/// `force` says, and removes nothing first.
pub proof fn lemma_clone_into_new_path(force: bool)
    ensures
        clone_plan_of(false, force) == Ok::<ClonePlan, YadmError>(ClonePlan::Fresh),
{
}

/// A clone into an existing path without `force` is refused with
/// `DestinationExists`, so the existing directory is left as it was.
pub proof fn lemma_existing_path_without_force()
    ensures
        clone_plan_of(true, false) == Err::<ClonePlan, YadmError>(YadmError::DestinationExists),
{
}

/// A clone into an existing path with `force` removes the path first and then
/// clones afresh.
pub proof fn lemma_existing_path_with_force()
    ensures
        clone_plan_of(true, true) == Ok::<ClonePlan, YadmError>(ClonePlan::ReplaceExisting),
{
}

/// A HEAD without a branch gives `DetachedHead` and no refspec to push.
pub proof fn lemma_detached_head_pushes_nothing(shorthand: Option<Seq<char>>)
    ensures
        branch_of(true, shorthand) == Err::<Seq<char>, YadmError>(YadmError::DetachedHead),
        branch_of(false, None) == Err::<Seq<char>, YadmError>(YadmError::DetachedHead),
{
}

} // verus!
