//! The managed repository's location, the copy of tracked files back into the
//! home directory, and the progress spinner's state.
use vstd::prelude::*;
use crate::paths::{
    is_internal, is_internal_path, join, join_path, lemma_relative_of_join, parent_dir, parent_of,
    relative_path, relative_to,
};
use std::sync::atomic::{AtomicBool, Ordering};
use std::sync::Arc;

verus! {

/// A path met while walking the repository's working directory.
#[derive(Debug, Clone, PartialEq, Eq)]
pub struct WalkEntry {
    pub path: String,
    pub is_file: bool,
}

/// One file to copy from the repository into the home directory.
#[derive(Debug, Clone, PartialEq, Eq)]
pub struct CopyJob {
    /// The file's path relative to the repository's root.
    pub relative: String,
    /// The file in the repository.
    pub source: String,
    /// Where it goes under the home directory.
    pub destination: String,
    /// The directory that must exist before the copy.
    pub destination_dir: String,
}

/// What happened when a copy job was carried out.
#[derive(Debug, Clone, Copy, PartialEq, Eq, Structural)]
pub enum CopyEvent {
    /// The file was copied.
    Copied,
    /// The destination's directory could not be created.
    ParentNotCreated,
    /// The copy was refused for lack of permission.
    PermissionDenied,
    /// The copy failed for another reason.
    OtherFailure,
}

/// The outcome of one file in the report.
#[derive(Debug, Clone, Copy, PartialEq, Eq, Structural)]
pub enum FileCopyOutcome {
    Copied,
    SkippedPermissionDenied,
    FailedOther,
}

/// One file of the report.
#[derive(Debug, Clone, PartialEq, Eq)]
pub struct FileReport {
    pub path: String,
    pub outcome: FileCopyOutcome,
}

/// The result of copying tracked files home: every planned file with its
/// outcome, in the order in which they were copied.
#[derive(Debug, Clone, PartialEq, Eq)]
pub struct Report {
    pub files: Vec<FileReport>,
}

impl View for WalkEntry {
    type V = (Seq<char>, bool);

    open spec fn view(&self) -> (Seq<char>, bool) {
        (self.path@, self.is_file)
    }
}

impl View for CopyJob {
    type V = (Seq<char>, Seq<char>, Seq<char>, Seq<char>);

    open spec fn view(&self) -> (Seq<char>, Seq<char>, Seq<char>, Seq<char>) {
        (self.relative@, self.source@, self.destination@, self.destination_dir@)
    }
}

impl View for FileReport {
    type V = (Seq<char>, FileCopyOutcome);

    open spec fn view(&self) -> (Seq<char>, FileCopyOutcome) {
        (self.path@, self.outcome)
    }
}

impl View for Report {
    type V = Seq<(Seq<char>, FileCopyOutcome)>;

    open spec fn view(&self) -> Seq<(Seq<char>, FileCopyOutcome)> {
        self.files@.map_values(|f: FileReport| f@)
    }
}

pub open spec fn app_dir_name() -> Seq<char> {
    seq!['r', 'u', 's', 't', 'e', 'd', '-', 'y', 'a', 'd', 'm']
}

pub open spec fn repository_dir_name() -> Seq<char> {
    seq!['r', 'e', 'p', 'o', 's', 'i', 't', 'o', 'r', 'y']
}

/// The managed repository's location under the user's local data directory.
pub open spec fn repository_path_of(data_dir: Seq<char>) -> Seq<char> {
    join_path(join_path(data_dir, app_dir_name()), repository_dir_name())
}

/// The copy job for a walked path: files below the repository's root, outside
/// its `.git` directory, go to the same relative path under `home`.
pub open spec fn copy_job_of(root: Seq<char>, home: Seq<char>, entry: (Seq<char>, bool)) -> Option<
    (Seq<char>, Seq<char>, Seq<char>, Seq<char>),
> {
    if !entry.1 {
        None
    } else {
        match relative_to(root, entry.0) {
            None => None,
            Some(rel) => if is_internal(rel) {
                None
            } else {
                let dest = join_path(home, rel);
                Some((rel, entry.0, dest, parent_dir(dest)))
            },
        }
    }
}

/// The copy jobs for walked paths, in walk order.
pub open spec fn planned(root: Seq<char>, home: Seq<char>, entries: Seq<(Seq<char>, bool)>) -> Seq<
    (Seq<char>, Seq<char>, Seq<char>, Seq<char>),
>
    decreases entries.len(),
{
    if entries.len() == 0 {
        seq![]
    } else {
        let prev = planned(root, home, entries.drop_last());
        match copy_job_of(root, home, entries.last()) {
            Some(j) => prev.push(j),
            None => prev,
        }
    }
}

pub open spec fn outcome_of(e: CopyEvent) -> FileCopyOutcome {
    match e {
        CopyEvent::Copied => FileCopyOutcome::Copied,
        CopyEvent::PermissionDenied => FileCopyOutcome::SkippedPermissionDenied,
        CopyEvent::ParentNotCreated => FileCopyOutcome::FailedOther,
        CopyEvent::OtherFailure => FileCopyOutcome::FailedOther,
    }
}

/// The report for jobs whose copies ended with `events`, one for one.
pub open spec fn report_of(
    jobs: Seq<(Seq<char>, Seq<char>, Seq<char>, Seq<char>)>,
    events: Seq<CopyEvent>,
) -> Seq<(Seq<char>, FileCopyOutcome)> {
    Seq::new(jobs.len(), |i: int| (jobs[i].0, outcome_of(events[i])))
}

/// The managed repository's location for the local data directory `data_dir`.
pub fn folder_path(data_dir: &str) -> (r: String)
    ensures
        r@ == repository_path_of(data_dir@),
{
    let app = "rusted-yadm";
    let repo = "repository";
    proof {
        reveal_strlit("rusted-yadm");
        reveal_strlit("repository");
    }
    assert(app@ =~= app_dir_name());
    assert(repo@ =~= repository_dir_name());
    let d = join(data_dir, app);
    join(d.as_str(), repo)
}

/// The copy job for one walked path, if it is a file to copy.
pub fn plan_copy(root: &str, home: &str, entry: &WalkEntry) -> (r: Option<CopyJob>)
    ensures
        match r {
            Some(j) => copy_job_of(root@, home@, entry@) == Some(j@),
            None => copy_job_of(root@, home@, entry@) is None,
        },
{
    if !entry.is_file {
        return None;
    }
    match relative_path(root, entry.path.as_str()) {
        None => None,
        Some(rel) => {
            if is_internal_path(rel.as_str()) {
                None
            } else {
                let dest = join(home, rel.as_str());
                let dir = parent_of(dest.as_str());
                Some(
                    CopyJob {
                        relative: rel,
                        source: entry.path.clone(),
                        destination: dest,
                        destination_dir: dir,
                    },
                )
            }
        },
    }
}

/// The copy jobs for the paths of a walk of the repository at `root`.
pub fn plan_materialization(root: &str, home: &str, entries: &Vec<WalkEntry>) -> (r: Vec<CopyJob>)
    ensures
        r@.map_values(|j: CopyJob| j@) == planned(
            root@,
            home@,
            entries@.map_values(|e: WalkEntry| e@),
        ),
{
    let mut jobs: Vec<CopyJob> = Vec::new();
    let n = entries.len();
    let mut i: usize = 0;
    while i < n
        invariant
            i <= n,
            n == entries@.len(),
            jobs@.map_values(|j: CopyJob| j@) == planned(
                root@,
                home@,
                entries@.take(i as int).map_values(|e: WalkEntry| e@),
            ),
        decreases n - i,
    {
        let ghost before = jobs@;
        let ghost seen = entries@.take(i as int).map_values(|e: WalkEntry| e@);
        let ghost next = entries@.take(i + 1).map_values(|e: WalkEntry| e@);
        assert(next.drop_last() =~= seen);
        assert(next.last() == entries@[i as int]@);
        match plan_copy(root, home, &entries[i]) {
            Some(j) => {
                jobs.push(j);
                assert(jobs@.map_values(|j: CopyJob| j@) =~= before.map_values(|j: CopyJob| j@).push(
                    j@,
                ));
            },
            None => {},
        }
        i = i + 1;
    }
    assert(entries@.take(n as int) =~= entries@);
    jobs
}

/// Permission problems are skipped and reported as such; every other failure,
/// including a destination directory that could not be created, is a failure of
/// that file alone.
pub fn copy_outcome(e: CopyEvent) -> (r: FileCopyOutcome)
    ensures
        r == outcome_of(e),
{
    match e {
        CopyEvent::Copied => FileCopyOutcome::Copied,
        CopyEvent::PermissionDenied => FileCopyOutcome::SkippedPermissionDenied,
        CopyEvent::ParentNotCreated => FileCopyOutcome::FailedOther,
        CopyEvent::OtherFailure => FileCopyOutcome::FailedOther,
    }
}

impl Report {
    /// A report with no file in it.
    pub fn new() -> (r: Report)
        ensures
            r@ == Seq::<(Seq<char>, FileCopyOutcome)>::empty(),
    {
        Report { files: Vec::new() }
    }

    /// Adds the outcome of one file at the end.
    pub fn record(&mut self, path: String, outcome: FileCopyOutcome)
        ensures
            final(self)@ == old(self)@.push((path@, outcome)),
    {
        let ghost before = self.files@;
        self.files.push(FileReport { path, outcome });
        assert(self.files@.map_values(|f: FileReport| f@) =~= before.map_values(
            |f: FileReport| f@,
        ).push((path@, outcome)));
    }

    /// The files that were copied.
    pub fn copied(&self) -> (r: Vec<String>)
        ensures
            r@.map_values(|s: String| s@) == self@.filter(
                |f: (Seq<char>, FileCopyOutcome)| f.1 == FileCopyOutcome::Copied,
            ).map_values(|f: (Seq<char>, FileCopyOutcome)| f.0),
    {
        self.with_outcome(FileCopyOutcome::Copied)
    }

    /// The files that were skipped for lack of permission.
    pub fn skipped(&self) -> (r: Vec<String>)
        ensures
            r@.map_values(|s: String| s@) == self@.filter(
                |f: (Seq<char>, FileCopyOutcome)| f.1 == FileCopyOutcome::SkippedPermissionDenied,
            ).map_values(|f: (Seq<char>, FileCopyOutcome)| f.0),
    {
        self.with_outcome(FileCopyOutcome::SkippedPermissionDenied)
    }

    /// The files whose copy failed.
    pub fn failed(&self) -> (r: Vec<String>)
        ensures
            r@.map_values(|s: String| s@) == self@.filter(
                |f: (Seq<char>, FileCopyOutcome)| f.1 == FileCopyOutcome::FailedOther,
            ).map_values(|f: (Seq<char>, FileCopyOutcome)| f.0),
    {
        self.with_outcome(FileCopyOutcome::FailedOther)
    }

    fn with_outcome(&self, o: FileCopyOutcome) -> (r: Vec<String>)
        ensures
            r@.map_values(|s: String| s@) == self@.filter(
                |f: (Seq<char>, FileCopyOutcome)| f.1 == o,
            ).map_values(|f: (Seq<char>, FileCopyOutcome)| f.0),
    {
        let mut r: Vec<String> = Vec::new();
        let n = self.files.len();
        let mut i: usize = 0;
        while i < n
            invariant
                i <= n,
                n == self.files@.len(),
                r@.map_values(|s: String| s@) == self@.take(i as int).filter(
                    |f: (Seq<char>, FileCopyOutcome)| f.1 == o,
                ).map_values(|f: (Seq<char>, FileCopyOutcome)| f.0),
            decreases n - i,
        {
            let ghost before = r@;
            let ghost pred = |f: (Seq<char>, FileCopyOutcome)| f.1 == o;
            assert(self@.take(i + 1).drop_last() =~= self@.take(i as int));
            assert(self@.take(i + 1).last() == self@[i as int]);
            reveal(Seq::filter);
            if self.files[i].outcome == o {
                r.push(self.files[i].path.clone());
                assert(r@.map_values(|s: String| s@) =~= before.map_values(|s: String| s@).push(
                    self.files@[i as int].path@,
                ));
            }
            i = i + 1;
        }
        assert(self@.take(n as int) =~= self@);
        r
    }
}

/// The report for copy jobs whose copies ended with `events`, one for one.
pub fn build_report(jobs: &Vec<CopyJob>, events: &Vec<CopyEvent>) -> (r: Report)
    requires
        jobs.len() == events.len(),
    ensures
        r@ == report_of(jobs@.map_values(|j: CopyJob| j@), events@),
{
    let mut report = Report::new();
    let n = jobs.len();
    let mut i: usize = 0;
    while i < n
        invariant
            i <= n,
            n == jobs@.len(),
            n == events@.len(),
            report@ == report_of(jobs@.map_values(|j: CopyJob| j@), events@).take(i as int),
        decreases n - i,
    {
        let o = copy_outcome(events[i]);
        report.record(jobs[i].relative.clone(), o);
        assert(report_of(jobs@.map_values(|j: CopyJob| j@), events@).take(i + 1) =~= report_of(
            jobs@.map_values(|j: CopyJob| j@),
            events@,
        ).take(i as int).push((jobs@[i as int].relative@, o)));
        i = i + 1;
    }
    assert(report_of(jobs@.map_values(|j: CopyJob| j@), events@).take(n as int) =~= report_of(
        jobs@.map_values(|j: CopyJob| j@),
        events@,
    ));
    report
}

/// The number of frames of the spinner.
pub const SPINNER_LEN: usize = 10;

pub open spec fn spinner_frames() -> Seq<char> {
    seq![
        '\u{280b}',
        '\u{2819}',
        '\u{2839}',
        '\u{2838}',
        '\u{283c}',
        '\u{2834}',
        '\u{2826}',
        '\u{2827}',
        '\u{2807}',
        '\u{280f}',
    ]
}

/// The spinner's frame at step `i`, the frames repeating in a cycle.
pub fn spinner_frame(i: usize) -> (r: char)
    ensures
        r == spinner_frames()[(i % SPINNER_LEN) as int],
{
    let k = i % SPINNER_LEN;
    if k == 0 {
        '\u{280b}'
    } else if k == 1 {
        '\u{2819}'
    } else if k == 2 {
        '\u{2839}'
    } else if k == 3 {
        '\u{2838}'
    } else if k == 4 {
        '\u{283c}'
    } else if k == 5 {
        '\u{2834}'
    } else if k == 6 {
        '\u{2826}'
    } else if k == 7 {
        '\u{2827}'
    } else if k == 8 {
        '\u{2807}'
    } else {
        '\u{280f}'
    }
}

/// The step after `i`, wrapping round at the end of the cycle.
pub fn next_frame(i: usize) -> (r: usize)
    ensures
        r == (i + 1) % (SPINNER_LEN as int),
{
    let k = i % SPINNER_LEN;
    if k + 1 == SPINNER_LEN {
        0
    } else {
        k + 1
    }
}

/// A progress indicator that runs beside an operation until told to stop.
pub struct LoadingAnimation {
    stop_signal: Arc<AtomicBool>,
}

impl LoadingAnimation {
    /// An indicator that has not been told to stop.
    pub fn new() -> Self {
        LoadingAnimation { stop_signal: Arc::new(AtomicBool::new(false)) }
    }

    /// The flag that the indicator watches, to share with the task that draws it.
    pub fn stop_signal(&self) -> Arc<AtomicBool> {
        self.stop_signal.clone()
    }

    /// Tells the indicator to stop.
    pub fn request_stop(&self) {
        self.stop_signal.store(true, Ordering::Relaxed);
    }

    /// Whether the indicator has been told to stop.
    pub fn stop_requested(&self) -> bool {
        self.stop_signal.load(Ordering::Relaxed)
    }
}

/// Paths in the repository's `.git` directory are never copied home.
pub proof fn lemma_internal_never_planned(
    root: Seq<char>,
    home: Seq<char>,
    entries: Seq<(Seq<char>, bool)>,
)
    ensures
        forall|k: int|
            0 <= k < planned(root, home, entries).len() ==> !is_internal(
                #[trigger] planned(root, home, entries)[k].0,
            ),
    decreases entries.len(),
{
    if entries.len() > 0 {
        lemma_internal_never_planned(root, home, entries.drop_last());
        let prev = planned(root, home, entries.drop_last());
        match copy_job_of(root, home, entries.last()) {
            Some(j) => {
                assert(!is_internal(j.0));
                assert forall|k: int| 0 <= k < prev.push(j).len() implies !is_internal(
                    #[trigger] prev.push(j)[k].0,
                ) by {
                    if k < prev.len() {
                        assert(prev.push(j)[k] == prev[k]);
                    }
                }
            },
            None => {},
        }
    }
}

/// The walk entries of the files at the relative paths `rels` under `root`.
pub open spec fn file_entries(root: Seq<char>, rels: Seq<Seq<char>>) -> Seq<(Seq<char>, bool)> {
    rels.map_values(|r: Seq<char>| (join_path(root, r), true))
}

/// The relative paths of copy jobs.
pub open spec fn job_paths(jobs: Seq<(Seq<char>, Seq<char>, Seq<char>, Seq<char>)>) -> Seq<
    Seq<char>,
> {
    jobs.map_values(|j: (Seq<char>, Seq<char>, Seq<char>, Seq<char>)| j.0)
}

/// The relative paths outside the `.git` directory.
pub open spec fn kept_paths(rels: Seq<Seq<char>>) -> Seq<Seq<char>> {
    rels.filter(|r: Seq<char>| !is_internal(r))
}

/// A walk that meets files under a repository's root plans a copy of exactly
/// those outside `.git`, in walk order, each to its own relative path under
/// the home directory.
pub proof fn lemma_walk_plans_tracked_files(
    root: Seq<char>,
    home: Seq<char>,
    rels: Seq<Seq<char>>,
)
    requires
        root.len() > 0,
        forall|i: int| 0 <= i < rels.len() ==> !(rels[i].len() > 0 && #[trigger] rels[i][0] == '/'),
    ensures
        job_paths(planned(root, home, file_entries(root, rels))) == kept_paths(rels),
        forall|k: int|
            0 <= k < planned(root, home, file_entries(root, rels)).len() ==> (#[trigger] planned(
                root,
                home,
                file_entries(root, rels),
            )[k]).2 == join_path(home, planned(root, home, file_entries(root, rels))[k].0),
    decreases rels.len(),
{
    reveal(Seq::filter);
    if rels.len() > 0 {
        let prev = rels.drop_last();
        assert forall|i: int| 0 <= i < prev.len() implies !(prev[i].len() > 0 && #[trigger] prev[i][0]
            == '/') by {
            assert(prev[i] == rels[i]);
        }
        lemma_walk_plans_tracked_files(root, home, prev);
        assert(file_entries(root, rels).drop_last() =~= file_entries(root, prev));
        let r = rels.last();
        assert(rels[rels.len() - 1][0] == r[0]);
        lemma_relative_of_join(root, r);
        assert(file_entries(root, rels).last() == (join_path(root, r), true));
        let before = planned(root, home, file_entries(root, prev));
        let now = planned(root, home, file_entries(root, rels));
        if !is_internal(r) {
            let j = (r, join_path(root, r), join_path(home, r), parent_dir(join_path(home, r)));
            assert(now == before.push(j));
            assert(job_paths(now) =~= job_paths(before).push(r));
            assert forall|k: int| 0 <= k < now.len() implies (#[trigger] now[k]).2 == join_path(
                home,
                now[k].0,
            ) by {
                if k < before.len() {
                    assert(now[k] == before[k]);
                }
            }
        } else {
            assert(now == before);
        }
    }
}

/// Each file's outcome in the report is that of its own copy: a failure of one
/// file changes the report of no other.
pub proof fn lemma_failure_is_per_file(
    jobs: Seq<(Seq<char>, Seq<char>, Seq<char>, Seq<char>)>,
    events: Seq<CopyEvent>,
    other: Seq<CopyEvent>,
    k: int,
)
    requires
        jobs.len() == events.len(),
        jobs.len() == other.len(),
        0 <= k < jobs.len(),
        events[k] == other[k],
    ensures
        report_of(jobs, events)[k] == report_of(jobs, other)[k],
        report_of(jobs, events)[k] == (jobs[k].0, outcome_of(events[k])),
{
}

} // verus!
