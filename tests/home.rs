use rusted_yadm::utils::{
    build_report, copy_outcome, folder_path, next_frame, plan_copy, plan_materialization,
    spinner_frame, CopyEvent, CopyJob, FileCopyOutcome, LoadingAnimation, Report, WalkEntry,
};

fn entry(path: &str, is_file: bool) -> WalkEntry {
    WalkEntry { path: path.to_string(), is_file }
}

fn walk() -> Vec<WalkEntry> {
    vec![
        entry("/repo", false),
        entry("/repo/a.txt", true),
        entry("/repo/sub", false),
        entry("/repo/sub/b.txt", true),
        entry("/repo/.git", false),
        entry("/repo/.git/config", true),
    ]
}

#[test]
fn repository_location() {
    assert_eq!(folder_path("/home/u/.local/share"), "/home/u/.local/share/rusted-yadm/repository");
}

#[test]
fn plan_skips_directories_and_git_metadata() {
    let jobs = plan_materialization("/repo", "/home/u", &walk());
    assert_eq!(
        jobs,
        vec![
            CopyJob {
                relative: "a.txt".to_string(),
                source: "/repo/a.txt".to_string(),
                destination: "/home/u/a.txt".to_string(),
                destination_dir: "/home/u".to_string(),
            },
            CopyJob {
                relative: "sub/b.txt".to_string(),
                source: "/repo/sub/b.txt".to_string(),
                destination: "/home/u/sub/b.txt".to_string(),
                destination_dir: "/home/u/sub".to_string(),
            },
        ]
    );
    assert_eq!(plan_copy("/repo", "/home/u", &entry("/repo/.git/config", true)), None);
    assert_eq!(plan_copy("/repo", "/home/u", &entry("/elsewhere/x", true)), None);
}

#[test]
fn materialization_reports_two_copies() {
    let jobs = plan_materialization("/repo", "/home/u", &walk());
    let report = build_report(&jobs, &vec![CopyEvent::Copied, CopyEvent::Copied]);
    assert_eq!(report.copied(), vec!["a.txt".to_string(), "sub/b.txt".to_string()]);
    assert!(report.failed().is_empty());
    assert!(report.skipped().is_empty());
}

#[test]
fn failed_parent_marks_only_that_file() {
    let jobs = plan_materialization("/repo", "/home/u", &walk());
    let report = build_report(&jobs, &vec![CopyEvent::Copied, CopyEvent::ParentNotCreated]);
    assert_eq!(report.copied(), vec!["a.txt".to_string()]);
    assert_eq!(report.failed(), vec!["sub/b.txt".to_string()]);
    assert!(report.skipped().is_empty());
}

#[test]
fn permission_denied_is_skipped() {
    let jobs = plan_materialization("/repo", "/home/u", &walk());
    let report = build_report(&jobs, &vec![CopyEvent::PermissionDenied, CopyEvent::OtherFailure]);
    assert_eq!(report.skipped(), vec!["a.txt".to_string()]);
    assert_eq!(report.failed(), vec!["sub/b.txt".to_string()]);
    assert!(report.copied().is_empty());
}

#[test]
fn outcomes_of_events() {
    assert_eq!(copy_outcome(CopyEvent::Copied), FileCopyOutcome::Copied);
    assert_eq!(copy_outcome(CopyEvent::PermissionDenied), FileCopyOutcome::SkippedPermissionDenied);
    assert_eq!(copy_outcome(CopyEvent::ParentNotCreated), FileCopyOutcome::FailedOther);
    assert_eq!(copy_outcome(CopyEvent::OtherFailure), FileCopyOutcome::FailedOther);
}

#[test]
fn report_records_in_order() {
    let mut r = Report::new();
    assert!(r.files.is_empty());
    r.record("x".to_string(), FileCopyOutcome::FailedOther);
    r.record("y".to_string(), FileCopyOutcome::Copied);
    assert_eq!(r.files.len(), 2);
    assert_eq!(r.failed(), vec!["x".to_string()]);
    assert_eq!(r.copied(), vec!["y".to_string()]);
}

#[test]
fn spinner_cycles() {
    assert_eq!(spinner_frame(0), '\u{280b}');
    assert_eq!(spinner_frame(9), '\u{280f}');
    assert_eq!(spinner_frame(10), '\u{280b}');
    assert_eq!(next_frame(3), 4);
    assert_eq!(next_frame(9), 0);
    assert_eq!(next_frame(usize::MAX), 6);
}

#[test]
fn loading_animation_stops_on_request() {
    let a = LoadingAnimation::new();
    assert!(!a.stop_requested());
    let shared = a.stop_signal();
    a.request_stop();
    assert!(a.stop_requested());
    assert!(shared.load(std::sync::atomic::Ordering::Relaxed));
}
