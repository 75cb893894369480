use git2::ErrorCode;
use rusted_yadm::error::{classify, from_git_error, Stage, YadmError};
use rusted_yadm::git::{
    branch_refname, clone_mode, clone_plan, current_branch, merge_outcome, pull_action, pull_plan, push_plan, push_status,
    push_refspec, ssh_key_path, ssh_username, CloneMode, ClonePlan, PullAction,
};

#[test]
fn clone_mode_follows_url_shape() {
    assert_eq!(clone_mode("git@github.com:me/dots.git"), CloneMode::Ssh);
    assert_eq!(clone_mode("https://github.com/me/dots.git"), CloneMode::Plain);
    assert_eq!(clone_mode("ssh://git@host/x"), CloneMode::Plain);
}

#[test]
fn clone_into_missing_path_is_fresh() {
    assert_eq!(clone_plan(false, false), Ok(ClonePlan::Fresh));
    assert_eq!(clone_plan(false, true), Ok(ClonePlan::Fresh));
}

#[test]
fn clone_into_existing_path_without_force_is_refused() {
    assert_eq!(clone_plan(true, false), Err(YadmError::DestinationExists));
}

#[test]
fn clone_into_existing_path_with_force_replaces() {
    assert_eq!(clone_plan(true, true), Ok(ClonePlan::ReplaceExisting));
}

#[test]
fn ssh_credentials() {
    assert_eq!(ssh_username(Some("alice")), "alice");
    assert_eq!(ssh_username(None), "git");
    assert_eq!(ssh_key_path("/home/u"), "/home/u/.ssh/id_rsa");
}

#[test]
fn refs_and_refspecs() {
    assert_eq!(branch_refname("main"), "refs/heads/main");
    assert_eq!(push_refspec("main"), "refs/heads/main:refs/heads/main");
}

#[test]
fn push_plan_of_branch() {
    assert_eq!(push_plan(false, Some("dev")), Ok("refs/heads/dev:refs/heads/dev".to_string()));
}

#[test]
fn push_with_detached_head_fails() {
    assert_eq!(push_plan(true, Some("HEAD")), Err(YadmError::DetachedHead));
    assert_eq!(push_plan(false, None), Err(YadmError::DetachedHead));
    assert_eq!(current_branch(true, Some("main")), Err(YadmError::DetachedHead));
    assert_eq!(current_branch(false, Some("main")), Ok("main".to_string()));
}

#[test]
fn pull_fast_forward_moves_branch_ref() {
    assert_eq!(
        pull_action("main", true),
        PullAction::FastForward { refname: "refs/heads/main".to_string() }
    );
    assert_eq!(pull_action("main", false), PullAction::Merge);
}

#[test]
fn pull_plan_reads_merge_analysis() {
    assert_eq!(
        pull_plan("main", &git2::MergeAnalysis::ANALYSIS_FASTFORWARD),
        PullAction::FastForward { refname: "refs/heads/main".to_string() }
    );
    assert_eq!(
        pull_plan("main", &(git2::MergeAnalysis::ANALYSIS_FASTFORWARD | git2::MergeAnalysis::ANALYSIS_NORMAL)),
        PullAction::FastForward { refname: "refs/heads/main".to_string() }
    );
    assert_eq!(pull_plan("main", &git2::MergeAnalysis::ANALYSIS_NORMAL), PullAction::Merge);
    assert_eq!(pull_plan("main", &git2::MergeAnalysis::ANALYSIS_UP_TO_DATE), PullAction::Merge);
}

#[test]
fn error_classification() {
    assert_eq!(classify(Stage::Open, ErrorCode::NotFound), YadmError::RepositoryNotFound);
    assert_eq!(classify(Stage::Open, ErrorCode::Locked), YadmError::Other);
    assert_eq!(classify(Stage::Clone, ErrorCode::Auth), YadmError::Transport);
    assert_eq!(classify(Stage::FindRemote, ErrorCode::NotFound), YadmError::RemoteNotFound);
    assert_eq!(classify(Stage::FindRemote, ErrorCode::InvalidSpec), YadmError::RemoteNotFound);
    assert_eq!(classify(Stage::FindRemote, ErrorCode::Locked), YadmError::Other);
    assert_eq!(classify(Stage::Push, ErrorCode::Auth), YadmError::AuthFailure);
    assert_eq!(classify(Stage::Push, ErrorCode::NotFastForward), YadmError::NonFastForward);
    assert_eq!(classify(Stage::Push, ErrorCode::GenericError), YadmError::Rejected);
    assert_eq!(classify(Stage::Fetch, ErrorCode::Auth), YadmError::AuthFailure);
    assert_eq!(classify(Stage::Fetch, ErrorCode::Eof), YadmError::Transport);
    assert_eq!(classify(Stage::Merge, ErrorCode::MergeConflict), YadmError::MergeFailure);
    assert_eq!(classify(Stage::WriteTree, ErrorCode::GenericError), YadmError::TreeWriteFailure);
    assert_eq!(classify(Stage::Local, ErrorCode::NotFound), YadmError::Other);
}

#[test]
fn error_code_is_read_from_git_error() {
    let mut e = git2::Error::from_str("no such remote");
    e.set_code(git2::ErrorCode::NotFound);
    assert_eq!(from_git_error(Stage::FindRemote, &e), YadmError::RemoteNotFound);
    let mut a = git2::Error::from_str("denied");
    a.set_code(git2::ErrorCode::Auth);
    assert_eq!(from_git_error(Stage::Push, &a), YadmError::AuthFailure);
}

#[test]
fn conflicting_merge_is_a_failure() {
    assert_eq!(merge_outcome(true), Err(YadmError::MergeFailure));
    assert_eq!(merge_outcome(false), Ok(()));
}

#[test]
fn push_status_from_remote() {
    assert_eq!(push_status(None), Ok(()));
    assert_eq!(push_status(Some("non-fast-forward")), Err(YadmError::NonFastForward));
    assert_eq!(push_status(Some("fetch first")), Err(YadmError::Rejected));
}
