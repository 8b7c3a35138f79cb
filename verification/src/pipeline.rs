use vstd::prelude::*;
use std::path::PathBuf;
use crate::error::{CloneError, ErrorView, ExitStatus};
use crate::layout::{
    derive_link_path, derive_target_directory, derive_user_directory, link_path_of, root_of,
    home_directory, root_under, target_directory_of, user_directory_of, AbsolutePath, PathView, Root,
};
use crate::uri::{location_of, LocationView, RepositoryLocation};

verus! {

/// What one run works on: the URI as it was given, the location that it
/// names, and the home directory under which the layout lives. None of it
/// changes during the run.
#[derive(Debug, Clone, PartialEq, Eq)]
pub struct Job {
    pub uri: String,
    pub location: RepositoryLocation,
    pub home: PathBuf,
}

/// The mathematical value of a [`Job`].
pub struct JobView {
    pub uri: Seq<char>,
    pub location: LocationView,
    pub home: PathBuf,
}

impl View for Job {
    type V = JobView;

    open spec fn view(&self) -> JobView {
        JobView { uri: self.uri@, location: self.location@, home: self.home }
    }
}

impl JobView {
    /// The directory below which clones are kept.
    pub open spec fn repository_root(self) -> PathView {
        root_of(self.home, Root::Repositories.subdirectory())
    }

    /// The directory that holds the links to the clones.
    pub open spec fn projects_root(self) -> PathView {
        root_of(self.home, Root::Projects.subdirectory())
    }

    /// The directory in which the clone subprocess runs.
    pub open spec fn user_directory(self) -> PathView {
        user_directory_of(self.repository_root(), self.location)
    }

    /// The directory that the clone subprocess creates.
    pub open spec fn target_directory(self) -> PathView {
        target_directory_of(self.repository_root(), self.location)
    }

    /// The link that is made to the clone.
    pub open spec fn link_path(self) -> PathView {
        link_path_of(self.projects_root(), self.location)
    }

    /// What the clone tool is called with: the word `clone`, the URI as it was
    /// given, and the name of the directory to clone into.
    pub open spec fn clone_arguments(self) -> Seq<Seq<char>> {
        seq!["clone"@, self.uri, self.location.repo]
    }
}

/// The steps of a run, in the order in which a run that succeeds passes them.
/// Each step waits for the answer to one request.
#[derive(Debug, Clone, Copy, PartialEq, Eq, Structural)]
pub enum Stage {
    /// The repository root is being made available.
    PreparingRoot,
    /// The directory of the host and user is being made available.
    PreparingUserDirectory,
    /// It is being found out whether the target directory exists.
    ProbingTarget,
    /// The target directory exists, and its path is being written out.
    ReportingExisting,
    /// The clone subprocess is running.
    Cloning,
    /// The path of the finished clone is being written out.
    AnnouncingTarget,
    /// The projects root is being made available.
    PreparingProjects,
    /// The path of the link is being written out.
    AnnouncingLink,
    /// The link subprocess is running.
    Linking,
}

impl Stage {
    /// The place of the step in the order of a run. No run goes back to a
    /// step with a smaller number.
    pub open spec fn position(self) -> nat {
        match self {
            Stage::PreparingRoot => 0,
            Stage::PreparingUserDirectory => 1,
            Stage::ProbingTarget => 2,
            Stage::ReportingExisting => 3,
            Stage::Cloning => 4,
            Stage::AnnouncingTarget => 5,
            Stage::PreparingProjects => 6,
            Stage::AnnouncingLink => 7,
            Stage::Linking => 8,
        }
    }
}

/// What the caller reports back after it has carried out a request.
#[derive(Debug, Clone, Copy, PartialEq, Eq, Structural)]
pub enum Event {
    /// The directory exists now, whether it was there before or was created.
    DirectoryReady,
    /// The directory is absent and could not be created.
    DirectoryFailed,
    /// Nothing exists at the probed path.
    TargetAbsent,
    /// Something exists at the probed path.
    TargetPresent,
    /// The path was written to standard output.
    Written,
    /// The path has no text form, and nothing was written.
    NotText,
    /// The subprocess could not be launched, or could not be waited for.
    LaunchFailed,
    /// The subprocess has ended, and all of its output has been passed on.
    Exited(ExitStatus),
}

/// What a run asks its caller to do next.
#[derive(Debug, Clone, PartialEq, Eq)]
pub enum Action {
    /// Create the directory and those above it, unless it exists. Answered by
    /// `DirectoryReady` or `DirectoryFailed`.
    EnsureDirectory(AbsolutePath),
    /// Find out whether anything exists at the path. Answered by
    /// `TargetAbsent` or `TargetPresent`.
    ProbeTarget(AbsolutePath),
    /// Write the path of the directory that is in the way to standard output,
    /// replacing what has no text form. Answered by `Written`.
    PrintExisting(AbsolutePath),
    /// Run the clone tool with these arguments in this working directory,
    /// passing its output on line by line. Answered by `LaunchFailed` or
    /// `Exited`.
    RunClone { working_directory: AbsolutePath, arguments: Vec<String> },
    /// Write the path to standard output. Answered by `Written`, or by
    /// `NotText` where the path has no text form.
    PrintPath(AbsolutePath),
    /// Make `link` a symbolic link to `target`. Answered by `LaunchFailed` or
    /// `Exited`.
    RunLink { target: AbsolutePath, link: AbsolutePath },
}

/// The mathematical value of an [`Action`].
pub enum ActionView {
    EnsureDirectory(PathView),
    ProbeTarget(PathView),
    PrintExisting(PathView),
    RunClone { working_directory: PathView, arguments: Seq<Seq<char>> },
    PrintPath(PathView),
    RunLink { target: PathView, link: PathView },
}

impl ActionView {
    /// The request starts a subprocess.
    pub open spec fn runs_subprocess(self) -> bool {
        self is RunClone || self is RunLink
    }
}

impl View for Action {
    type V = ActionView;

    open spec fn view(&self) -> ActionView {
        match self {
            Action::EnsureDirectory(path) => ActionView::EnsureDirectory(path@),
            Action::ProbeTarget(path) => ActionView::ProbeTarget(path@),
            Action::PrintExisting(path) => ActionView::PrintExisting(path@),
            Action::RunClone { working_directory, arguments } => ActionView::RunClone {
                working_directory: working_directory@,
                arguments: arguments.deep_view(),
            },
            Action::PrintPath(path) => ActionView::PrintPath(path@),
            Action::RunLink { target, link } => ActionView::RunLink {
                target: target@,
                link: link@,
            },
        }
    }
}

/// A run of the clone command: under way at one of its steps, or ended.
#[derive(Debug, Clone, PartialEq, Eq)]
pub enum Pipeline {
    Running { stage: Stage, job: Job },
    Succeeded,
    Failed(CloneError),
}

/// The mathematical value of a [`Pipeline`].
pub enum PipelineView {
    Running { stage: Stage, job: JobView },
    Succeeded,
    Failed(ErrorView),
}

impl View for Pipeline {
    type V = PipelineView;

    open spec fn view(&self) -> PipelineView {
        match self {
            Pipeline::Running { stage, job } => PipelineView::Running { stage: *stage, job: job@ },
            Pipeline::Succeeded => PipelineView::Succeeded,
            Pipeline::Failed(e) => PipelineView::Failed(e@),
        }
    }
}

/// The request that a job makes at a step.
pub open spec fn request_at(stage: Stage, job: JobView) -> ActionView {
    match stage {
        Stage::PreparingRoot => ActionView::EnsureDirectory(job.repository_root()),
        Stage::PreparingUserDirectory => ActionView::EnsureDirectory(job.user_directory()),
        Stage::ProbingTarget => ActionView::ProbeTarget(job.target_directory()),
        Stage::ReportingExisting => ActionView::PrintExisting(job.target_directory()),
        Stage::Cloning => ActionView::RunClone {
            working_directory: job.user_directory(),
            arguments: job.clone_arguments(),
        },
        Stage::AnnouncingTarget => ActionView::PrintPath(job.target_directory()),
        Stage::PreparingProjects => ActionView::EnsureDirectory(job.projects_root()),
        Stage::AnnouncingLink => ActionView::PrintPath(job.link_path()),
        Stage::Linking => ActionView::RunLink {
            target: job.target_directory(),
            link: job.link_path(),
        },
    }
}

/// Where an answer leads from a step: on to another step, to the end of the
/// run, or nowhere.
pub enum Outcome {
    /// The answer is none that the step waits for: the request stays open.
    Stay,
    /// The run goes on at the step.
    Enter(Stage),
    /// The run has done all of its work.
    Succeed,
    /// The run ends with the error.
    Fail(ErrorView),
}

/// Where the answer `event` leads from the step `stage`.
pub open spec fn outcome_of(stage: Stage, event: Event) -> Outcome {
    match (stage, event) {
        (Stage::PreparingRoot, Event::DirectoryReady) => Outcome::Enter(
            Stage::PreparingUserDirectory,
        ),
        (Stage::PreparingRoot, Event::DirectoryFailed) => Outcome::Fail(
            ErrorView::DirectoryCreationFailed,
        ),
        (Stage::PreparingUserDirectory, Event::DirectoryReady) => Outcome::Enter(
            Stage::ProbingTarget,
        ),
        (Stage::PreparingUserDirectory, Event::DirectoryFailed) => Outcome::Fail(
            ErrorView::DirectoryCreationFailed,
        ),
        (Stage::ProbingTarget, Event::TargetAbsent) => Outcome::Enter(Stage::Cloning),
        (Stage::ProbingTarget, Event::TargetPresent) => Outcome::Enter(Stage::ReportingExisting),
        (Stage::ReportingExisting, Event::Written) => Outcome::Fail(ErrorView::AlreadyExists),
        (Stage::Cloning, Event::LaunchFailed) => Outcome::Fail(ErrorView::SpawnError),
        (Stage::Cloning, Event::Exited(status)) => if status.succeeded() {
            Outcome::Enter(Stage::AnnouncingTarget)
        } else {
            Outcome::Fail(ErrorView::SubprocessFailed { status })
        },
        (Stage::AnnouncingTarget, Event::Written) => Outcome::Enter(Stage::PreparingProjects),
        (Stage::AnnouncingTarget, Event::NotText) => Outcome::Fail(ErrorView::NonUtf8Path),
        (Stage::PreparingProjects, Event::DirectoryReady) => Outcome::Enter(Stage::AnnouncingLink),
        (Stage::PreparingProjects, Event::DirectoryFailed) => Outcome::Fail(
            ErrorView::DirectoryCreationFailed,
        ),
        (Stage::AnnouncingLink, Event::Written) => Outcome::Enter(Stage::Linking),
        (Stage::AnnouncingLink, Event::NotText) => Outcome::Fail(ErrorView::NonUtf8Path),
        (Stage::Linking, Event::LaunchFailed) => Outcome::Fail(ErrorView::SpawnError),
        (Stage::Linking, Event::Exited(status)) => if status.succeeded() {
            Outcome::Succeed
        } else {
            Outcome::Fail(ErrorView::LinkCreationFailed { status })
        },
        _ => Outcome::Stay,
    }
}

/// The run that the clone command begins with: it has failed at once where
/// the URI names no location or no home directory is known, and is at its
/// first step otherwise.
pub open spec fn beginning(uri: Seq<char>, home: Option<PathBuf>) -> PipelineView {
    match location_of(uri) {
        None => PipelineView::Failed(ErrorView::UriParse { input: uri }),
        Some(location) => match home {
            None => PipelineView::Failed(ErrorView::HomeDirectoryUnavailable),
            Some(home) => PipelineView::Running {
                stage: Stage::PreparingRoot,
                job: JobView { uri, location, home },
            },
        },
    }
}

impl PipelineView {
    /// The run has ended.
    pub open spec fn finished(self) -> bool {
        !(self is Running)
    }

    /// What the run asks for next: nothing once it has ended.
    pub open spec fn pending(self) -> Option<ActionView> {
        match self {
            PipelineView::Running { stage, job } => Some(request_at(stage, job)),
            _ => None,
        }
    }

    /// The run after the answer `event` to its pending request. A run that has
    /// ended stays as it is.
    pub open spec fn advance(self, event: Event) -> PipelineView {
        match self {
            PipelineView::Running { stage, job } => match outcome_of(stage, event) {
                Outcome::Stay => self,
                Outcome::Enter(next) => PipelineView::Running { stage: next, job },
                Outcome::Succeed => PipelineView::Succeeded,
                Outcome::Fail(e) => PipelineView::Failed(e),
            },
            _ => self,
        }
    }

    /// The run after the answers `events`, taken in order.
    pub open spec fn after(self, events: Seq<Event>) -> PipelineView
        decreases events.len(),
    {
        if events.len() == 0 {
            self
        } else {
            self.after(events.drop_last()).advance(events.last())
        }
    }

    /// How far the run has come: the place of its step, or a number beyond
    /// every step once it has ended.
    pub open spec fn position(self) -> nat {
        match self {
            PipelineView::Running { stage, job } => stage.position(),
            _ => 9,
        }
    }
}

/// One more answer moves the run once more: the run after `m + 1` answers
/// is the run after `m` answers, moved on by the answer that follows them.
pub proof fn lemma_after_next(run: PipelineView, events: Seq<Event>, m: int)
    requires
        0 <= m < events.len(),
    ensures
        run.after(events.take(m + 1)) == run.after(events.take(m)).advance(events[m]),
{
    assert(events.take(m + 1).drop_last() =~= events.take(m));
}

/// What holds of a run at some point, and is kept by every answer, holds of
/// the run at every later point.
pub proof fn lemma_kept_along_run(
    run: PipelineView,
    events: Seq<Event>,
    from: int,
    to: int,
    kept: spec_fn(PipelineView) -> bool,
)
    requires
        0 <= from <= to <= events.len(),
        kept(run.after(events.take(from))),
        forall|r: PipelineView, e: Event| kept(r) ==> kept(#[trigger] r.advance(e)),
    ensures
        kept(run.after(events.take(to))),
    decreases to - from,
{
    if from < to {
        lemma_kept_along_run(run, events, from, to - 1, kept);
        lemma_after_next(run, events, to - 1);
    }
}

/// A run never goes back: at a later point it is at least as far as at an
/// earlier one, and a run that has ended has ended for good.
pub proof fn lemma_run_goes_forward(run: PipelineView, events: Seq<Event>, from: int, to: int)
    requires
        0 <= from <= to <= events.len(),
    ensures
        run.after(events.take(from)).position() <= run.after(events.take(to)).position(),
        run.after(events.take(from)).finished() ==> run.after(events.take(to)) == run.after(
            events.take(from),
        ),
{
    let start = run.after(events.take(from));
    lemma_kept_along_run(
        run,
        events,
        from,
        to,
        |r: PipelineView| start.position() <= r.position(),
    );
    lemma_kept_along_run(
        run,
        events,
        from,
        to,
        |r: PipelineView| start.finished() ==> r == start,
    );
}

/// Cloning into a directory that exists starts no subprocess and can only
/// end with `AlreadyExists`. Take any run, and any answers to its requests, of
/// which answer `k` tells the probe of the target directory that it is
/// present. Then at no point `m`, before or after, does the run ask for a
/// subprocess; after that answer all it asks for is to report the directory;
/// and where it has ended, it has failed with `AlreadyExists`.
pub proof fn lemma_existing_target_runs_nothing(
    run: PipelineView,
    events: Seq<Event>,
    k: int,
    m: int,
)
    requires
        0 <= k < events.len(),
        0 <= m <= events.len(),
        run.after(events.take(k)).pending() matches Some(ActionView::ProbeTarget(_)),
        events[k] == Event::TargetPresent,
    ensures
        run.after(events.take(m)).pending() matches Some(action) ==> !action.runs_subprocess(),
        m > k ==> (run.after(events.take(m)).pending() matches Some(action)
            ==> action is PrintExisting),
        run.after(events.take(m)).finished() ==> run.after(events.take(m)) == PipelineView::Failed(
            ErrorView::AlreadyExists,
        ),
{
    let probing = run.after(events.take(k));
    if m <= k {
        lemma_run_goes_forward(run, events, m, k);
    } else {
        lemma_after_next(run, events, k);
        lemma_kept_along_run(
            run,
            events,
            k + 1,
            m,
            |r: PipelineView|
                r == PipelineView::Failed(ErrorView::AlreadyExists) || (r matches PipelineView::Running {
                    stage,
                    ..
                } && stage == Stage::ReportingExisting),
        );
    }
}

/// A clone subprocess that ends otherwise than with the code zero fails the
/// run with that very status, and no path of the success output is written.
/// Take any run, and any answers to its requests, of which answer `k` tells
/// the request for the clone subprocess that it ended with `status`, which is
/// no success. Then from that answer on the run has failed with
/// `SubprocessFailed` and `status`, and at no point `m`, before or after, does
/// it ask to write the target or link path or to make the link.
pub proof fn lemma_failed_clone_prints_nothing(
    run: PipelineView,
    events: Seq<Event>,
    k: int,
    m: int,
    status: ExitStatus,
)
    requires
        0 <= k < events.len(),
        0 <= m <= events.len(),
        run.after(events.take(k)).pending() matches Some(ActionView::RunClone { .. }),
        events[k] == Event::Exited(status),
        !status.succeeded(),
    ensures
        m > k ==> run.after(events.take(m)) == PipelineView::Failed(
            ErrorView::SubprocessFailed { status },
        ),
        run.after(events.take(m)).pending() matches Some(action) ==> !(action is PrintPath)
            && !(action is RunLink),
{
    if m <= k {
        lemma_run_goes_forward(run, events, m, k);
    } else {
        lemma_after_next(run, events, k);
        lemma_run_goes_forward(run, events, k + 1, m);
    }
}

impl Job {
    fn repository_root(&self) -> (root: AbsolutePath)
        ensures
            root@ == self@.repository_root(),
    {
        root_under(self.home.clone(), Root::Repositories.name())
    }

    fn projects_root(&self) -> (root: AbsolutePath)
        ensures
            root@ == self@.projects_root(),
    {
        root_under(self.home.clone(), Root::Projects.name())
    }

    fn clone_arguments(&self) -> (arguments: Vec<String>)
        ensures
            arguments.deep_view() == self@.clone_arguments(),
    {
        let mut arguments: Vec<String> = Vec::new();
        arguments.push("clone".to_owned());
        arguments.push(self.uri.clone());
        arguments.push(self.location.repo.clone());
        assert(arguments.deep_view() =~= self@.clone_arguments());
        arguments
    }

    /// The request that the job makes at the step `stage`.
    pub fn request(&self, stage: Stage) -> (action: Action)
        ensures
            action@ == request_at(stage, self@),
    {
        match stage {
            Stage::PreparingRoot => Action::EnsureDirectory(self.repository_root()),
            Stage::PreparingUserDirectory => Action::EnsureDirectory(
                derive_user_directory(&self.repository_root(), &self.location),
            ),
            Stage::ProbingTarget => Action::ProbeTarget(
                derive_target_directory(&self.repository_root(), &self.location),
            ),
            Stage::ReportingExisting => Action::PrintExisting(
                derive_target_directory(&self.repository_root(), &self.location),
            ),
            Stage::Cloning => Action::RunClone {
                working_directory: derive_user_directory(&self.repository_root(), &self.location),
                arguments: self.clone_arguments(),
            },
            Stage::AnnouncingTarget => Action::PrintPath(
                derive_target_directory(&self.repository_root(), &self.location),
            ),
            Stage::PreparingProjects => Action::EnsureDirectory(self.projects_root()),
            Stage::AnnouncingLink => Action::PrintPath(
                derive_link_path(&self.projects_root(), &self.location),
            ),
            Stage::Linking => Action::RunLink {
                target: derive_target_directory(&self.repository_root(), &self.location),
                link: derive_link_path(&self.projects_root(), &self.location),
            },
        }
    }
}

impl Pipeline {
    /// Begins the clone of `uri` under a home directory that was looked up
    /// before: `None` where the lookup found none.
    pub fn begin(uri: &str, home: Option<PathBuf>) -> (run: Pipeline)
        ensures
            run@ == beginning(uri@, home),
    {
        match RepositoryLocation::parse(uri) {
            Err(e) => Pipeline::Failed(CloneError::UriParse(e)),
            Ok(location) => match home {
                None => Pipeline::Failed(CloneError::HomeDirectoryUnavailable),
                Some(home) => Pipeline::Running {
                    stage: Stage::PreparingRoot,
                    job: Job { uri: uri.to_owned(), location, home },
                },
            },
        }
    }

    /// Begins the clone of `uri` under the home directory of the current user.
    /// A URI that names no location fails the run at once, whoever runs it.
    /// For any other URI the lookup of the home directory decides between two
    /// runs: the one that has failed for want of a home directory, and the
    /// one that stands at its first step under the home directory found.
    pub fn start(uri: &str) -> (run: Pipeline)
        ensures
            run@ == beginning(uri@, None) || exists|home: PathBuf|
                run@ == beginning(uri@, Some(home)),
            location_of(uri@) is None ==> run@ == PipelineView::Failed(
                ErrorView::UriParse { input: uri@ },
            ),
    {
        Pipeline::begin(uri, home_directory())
    }

    /// Whether the run has ended.
    pub fn is_finished(&self) -> (b: bool)
        ensures
            b == self@.finished(),
    {
        match self {
            Pipeline::Running { .. } => false,
            _ => true,
        }
    }

    /// What the run asks its caller to do next, or `None` once it has ended.
    pub fn pending(&self) -> (action: Option<Action>)
        ensures
            match action {
                Some(action) => self@.pending() == Some(action@),
                None => self@.pending() is None,
            },
    {
        match self {
            Pipeline::Running { stage, job } => Some(job.request(*stage)),
            _ => None,
        }
    }

    /// Takes the answer to the pending request and moves the run on.
    pub fn advance(self, event: Event) -> (next: Pipeline)
        ensures
            next@ == self@.advance(event),
    {
        match self {
            Pipeline::Running { stage, job } => match (stage, event) {
                (Stage::PreparingRoot, Event::DirectoryReady) => Pipeline::Running {
                    stage: Stage::PreparingUserDirectory,
                    job,
                },
                (Stage::PreparingRoot, Event::DirectoryFailed) => Pipeline::Failed(
                    CloneError::DirectoryCreationFailed,
                ),
                (Stage::PreparingUserDirectory, Event::DirectoryReady) => Pipeline::Running {
                    stage: Stage::ProbingTarget,
                    job,
                },
                (Stage::PreparingUserDirectory, Event::DirectoryFailed) => Pipeline::Failed(
                    CloneError::DirectoryCreationFailed,
                ),
                (Stage::ProbingTarget, Event::TargetAbsent) => Pipeline::Running {
                    stage: Stage::Cloning,
                    job,
                },
                (Stage::ProbingTarget, Event::TargetPresent) => Pipeline::Running {
                    stage: Stage::ReportingExisting,
                    job,
                },
                (Stage::ReportingExisting, Event::Written) => Pipeline::Failed(
                    CloneError::AlreadyExists,
                ),
                (Stage::Cloning, Event::LaunchFailed) => Pipeline::Failed(CloneError::SpawnError),
                (Stage::Cloning, Event::Exited(status)) => if status.success() {
                    Pipeline::Running { stage: Stage::AnnouncingTarget, job }
                } else {
                    Pipeline::Failed(CloneError::SubprocessFailed { status })
                },
                (Stage::AnnouncingTarget, Event::Written) => Pipeline::Running {
                    stage: Stage::PreparingProjects,
                    job,
                },
                (Stage::AnnouncingTarget, Event::NotText) => Pipeline::Failed(
                    CloneError::NonUtf8Path,
                ),
                (Stage::PreparingProjects, Event::DirectoryReady) => Pipeline::Running {
                    stage: Stage::AnnouncingLink,
                    job,
                },
                (Stage::PreparingProjects, Event::DirectoryFailed) => Pipeline::Failed(
                    CloneError::DirectoryCreationFailed,
                ),
                (Stage::AnnouncingLink, Event::Written) => Pipeline::Running {
                    stage: Stage::Linking,
                    job,
                },
                (Stage::AnnouncingLink, Event::NotText) => Pipeline::Failed(
                    CloneError::NonUtf8Path,
                ),
                (Stage::Linking, Event::LaunchFailed) => Pipeline::Failed(CloneError::SpawnError),
                (Stage::Linking, Event::Exited(status)) => if status.success() {
                    Pipeline::Succeeded
                } else {
                    Pipeline::Failed(CloneError::LinkCreationFailed { status })
                },
                (stage, _) => Pipeline::Running { stage, job },
            },
            Pipeline::Succeeded => Pipeline::Succeeded,
            Pipeline::Failed(e) => Pipeline::Failed(e),
        }
    }
}

} // verus!
