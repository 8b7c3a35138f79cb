use repo::{
    AbsolutePath, Action, CloneError, Event, ExitStatus, Job, Pipeline, RepositoryLocation, Stage,
    UriParseError,
};
use std::path::PathBuf;

const URI: &str = "https://github.com/rust-lang/rust";

fn home() -> PathBuf {
    PathBuf::from("/home/alice")
}

fn path(segments: &[&str]) -> AbsolutePath {
    AbsolutePath {
        base: home(),
        segments: segments.iter().map(|s| s.to_string()).collect(),
    }
}

fn job() -> Job {
    Job {
        uri: URI.to_string(),
        location: RepositoryLocation {
            host: "github.com".to_string(),
            user: "rust-lang".to_string(),
            repo: "rust".to_string(),
        },
        home: home(),
    }
}

fn at(stage: Stage) -> Pipeline {
    Pipeline::Running { stage, job: job() }
}

fn exited(code: i32) -> Event {
    Event::Exited(ExitStatus { code: Some(code) })
}

fn killed() -> Event {
    Event::Exited(ExitStatus { code: None })
}

/// Feeds the answers to the run and returns every request it made, with the run at the end.
fn drive(start: Pipeline, answers: &[Event]) -> (Vec<Action>, Pipeline) {
    let mut run = start;
    let mut asked = Vec::new();
    for answer in answers {
        match run.pending() {
            Some(action) => asked.push(action),
            None => break,
        }
        run = run.advance(*answer);
    }
    (asked, run)
}

fn target() -> AbsolutePath {
    path(&["repos", "github.com", "rust-lang", "rust"])
}

fn user_directory() -> AbsolutePath {
    path(&["repos", "github.com", "rust-lang"])
}

fn link() -> AbsolutePath {
    path(&["projects", "rust"])
}

fn run_clone() -> Action {
    Action::RunClone {
        working_directory: user_directory(),
        arguments: vec!["clone".to_string(), URI.to_string(), "rust".to_string()],
    }
}

#[test]
fn exit_status_success_is_code_zero() {
    assert!(ExitStatus { code: Some(0) }.success());
    assert!(!ExitStatus { code: Some(1) }.success());
    assert!(!ExitStatus { code: Some(-1) }.success());
    assert!(!ExitStatus { code: None }.success());
}

#[test]
fn begin_parses_and_stands_at_first_step() {
    assert_eq!(Pipeline::begin(URI, Some(home())), at(Stage::PreparingRoot));
}

#[test]
fn begin_rejects_bad_uri_before_anything_else() {
    let bad = Pipeline::Failed(CloneError::UriParse(UriParseError {
        input: "rust-lang/rust".to_string(),
    }));
    assert_eq!(Pipeline::begin("rust-lang/rust", Some(home())), bad);
    assert_eq!(Pipeline::begin("rust-lang/rust", None), bad);
    assert_eq!(Pipeline::start("rust-lang/rust"), bad);
}

#[test]
fn begin_without_home_is_unavailable() {
    assert_eq!(
        Pipeline::begin(URI, None),
        Pipeline::Failed(CloneError::HomeDirectoryUnavailable)
    );
}

#[test]
fn start_is_one_of_the_two_beginnings() {
    match Pipeline::start(URI) {
        Pipeline::Running { stage, job: found } => {
            assert_eq!(stage, Stage::PreparingRoot);
            assert_eq!(found.uri, URI);
            assert_eq!(found.location, job().location);
        }
        other => assert_eq!(other, Pipeline::Failed(CloneError::HomeDirectoryUnavailable)),
    }
}

#[test]
fn clone_into_fresh_root_runs_every_step_in_order() {
    let answers = [
        Event::DirectoryReady,
        Event::DirectoryReady,
        Event::TargetAbsent,
        exited(0),
        Event::Written,
        Event::DirectoryReady,
        Event::Written,
        exited(0),
    ];
    let (asked, run) = drive(Pipeline::begin(URI, Some(home())), &answers);
    assert_eq!(
        asked,
        vec![
            Action::EnsureDirectory(path(&["repos"])),
            Action::EnsureDirectory(user_directory()),
            Action::ProbeTarget(target()),
            run_clone(),
            Action::PrintPath(target()),
            Action::EnsureDirectory(path(&["projects"])),
            Action::PrintPath(link()),
            Action::RunLink {
                target: target(),
                link: link(),
            },
        ]
    );
    assert_eq!(run, Pipeline::Succeeded);
    assert!(run.is_finished());
    assert_eq!(run.pending(), None);
}

#[test]
fn clone_over_existing_target_reports_it_and_fails() {
    let answers = [
        Event::DirectoryReady,
        Event::DirectoryReady,
        Event::TargetPresent,
        Event::Written,
    ];
    let (asked, run) = drive(Pipeline::begin(URI, Some(home())), &answers);
    assert_eq!(
        asked,
        vec![
            Action::EnsureDirectory(path(&["repos"])),
            Action::EnsureDirectory(user_directory()),
            Action::ProbeTarget(target()),
            Action::PrintExisting(target()),
        ]
    );
    assert_eq!(run, Pipeline::Failed(CloneError::AlreadyExists));
    assert_eq!(run.pending(), None);
}

#[test]
fn existing_target_starts_no_subprocess_whatever_follows() {
    let answers = [
        Event::DirectoryReady,
        Event::DirectoryReady,
        Event::TargetPresent,
        Event::TargetAbsent,
        exited(0),
        Event::DirectoryReady,
        Event::Written,
        exited(0),
        Event::Written,
    ];
    let (asked, run) = drive(Pipeline::begin(URI, Some(home())), &answers);
    for action in &asked {
        assert!(!matches!(action, Action::RunClone { .. } | Action::RunLink { .. }));
    }
    assert_eq!(run, Pipeline::Failed(CloneError::AlreadyExists));
}

#[test]
fn failed_clone_carries_its_status_and_prints_no_path() {
    let answers = [
        Event::DirectoryReady,
        Event::DirectoryReady,
        Event::TargetAbsent,
        exited(128),
        Event::Written,
        Event::DirectoryReady,
    ];
    let (asked, run) = drive(Pipeline::begin(URI, Some(home())), &answers);
    assert_eq!(asked.len(), 4);
    assert_eq!(asked[3], run_clone());
    for action in &asked {
        assert!(!matches!(action, Action::PrintPath(_) | Action::RunLink { .. }));
    }
    assert_eq!(
        run,
        Pipeline::Failed(CloneError::SubprocessFailed {
            status: ExitStatus { code: Some(128) },
        })
    );
}

#[test]
fn clone_ended_by_signal_fails_without_code() {
    assert_eq!(
        at(Stage::Cloning).advance(killed()),
        Pipeline::Failed(CloneError::SubprocessFailed {
            status: ExitStatus { code: None },
        })
    );
}

#[test]
fn clone_that_cannot_be_launched_is_a_spawn_error() {
    assert_eq!(
        at(Stage::Cloning).advance(Event::LaunchFailed),
        Pipeline::Failed(CloneError::SpawnError)
    );
    assert_eq!(
        at(Stage::Linking).advance(Event::LaunchFailed),
        Pipeline::Failed(CloneError::SpawnError)
    );
}

#[test]
fn directory_that_cannot_be_created_fails_the_run() {
    for stage in [
        Stage::PreparingRoot,
        Stage::PreparingUserDirectory,
        Stage::PreparingProjects,
    ] {
        assert_eq!(
            at(stage).advance(Event::DirectoryFailed),
            Pipeline::Failed(CloneError::DirectoryCreationFailed)
        );
    }
}

#[test]
fn path_without_text_form_fails_the_run() {
    for stage in [Stage::AnnouncingTarget, Stage::AnnouncingLink] {
        assert_eq!(
            at(stage).advance(Event::NotText),
            Pipeline::Failed(CloneError::NonUtf8Path)
        );
    }
}

#[test]
fn failed_link_carries_its_status() {
    assert_eq!(
        at(Stage::Linking).advance(exited(1)),
        Pipeline::Failed(CloneError::LinkCreationFailed {
            status: ExitStatus { code: Some(1) },
        })
    );
    assert_eq!(
        at(Stage::Linking).advance(killed()),
        Pipeline::Failed(CloneError::LinkCreationFailed {
            status: ExitStatus { code: None },
        })
    );
    assert_eq!(at(Stage::Linking).advance(exited(0)), Pipeline::Succeeded);
}

#[test]
fn each_step_asks_for_its_request() {
    let j = job();
    assert_eq!(j.request(Stage::PreparingRoot), Action::EnsureDirectory(path(&["repos"])));
    assert_eq!(j.request(Stage::PreparingUserDirectory), Action::EnsureDirectory(user_directory()));
    assert_eq!(j.request(Stage::ProbingTarget), Action::ProbeTarget(target()));
    assert_eq!(j.request(Stage::ReportingExisting), Action::PrintExisting(target()));
    assert_eq!(j.request(Stage::Cloning), run_clone());
    assert_eq!(j.request(Stage::AnnouncingTarget), Action::PrintPath(target()));
    assert_eq!(j.request(Stage::PreparingProjects), Action::EnsureDirectory(path(&["projects"])));
    assert_eq!(j.request(Stage::AnnouncingLink), Action::PrintPath(link()));
    assert_eq!(
        j.request(Stage::Linking),
        Action::RunLink {
            target: target(),
            link: link(),
        }
    );
}

#[test]
fn clone_is_called_with_the_uri_as_given() {
    let uri = "git@github.com:rust-lang/rust.git";
    let run = Pipeline::begin(uri, Some(home()))
        .advance(Event::DirectoryReady)
        .advance(Event::DirectoryReady)
        .advance(Event::TargetAbsent);
    assert_eq!(
        run.pending(),
        Some(Action::RunClone {
            working_directory: user_directory(),
            arguments: vec!["clone".to_string(), uri.to_string(), "rust".to_string()],
        })
    );
}

#[test]
fn answers_that_a_step_does_not_wait_for_change_nothing() {
    let all = [
        Event::DirectoryReady,
        Event::DirectoryFailed,
        Event::TargetAbsent,
        Event::TargetPresent,
        Event::Written,
        Event::NotText,
        Event::LaunchFailed,
        exited(0),
        exited(3),
    ];
    let expected: [(Stage, &[usize]); 9] = [
        (Stage::PreparingRoot, &[0, 1]),
        (Stage::PreparingUserDirectory, &[0, 1]),
        (Stage::ProbingTarget, &[2, 3]),
        (Stage::ReportingExisting, &[4]),
        (Stage::Cloning, &[6, 7, 8]),
        (Stage::AnnouncingTarget, &[4, 5]),
        (Stage::PreparingProjects, &[0, 1]),
        (Stage::AnnouncingLink, &[4, 5]),
        (Stage::Linking, &[6, 7, 8]),
    ];
    for (stage, awaited) in expected {
        for (i, event) in all.iter().enumerate() {
            let moved = at(stage).advance(*event) != at(stage);
            assert_eq!(moved, awaited.contains(&i));
        }
    }
}

#[test]
fn a_run_that_has_ended_stays_as_it_is() {
    let ends = [
        Pipeline::Succeeded,
        Pipeline::Failed(CloneError::AlreadyExists),
        Pipeline::Failed(CloneError::SubprocessFailed {
            status: ExitStatus { code: Some(2) },
        }),
    ];
    for end in ends {
        assert!(end.is_finished());
        assert_eq!(end.pending(), None);
        for event in [Event::DirectoryReady, Event::Written, exited(0), Event::TargetAbsent] {
            assert_eq!(end.clone().advance(event), end);
        }
    }
    assert!(!at(Stage::Cloning).is_finished());
}
