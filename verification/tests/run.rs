use repocat::acquire::{AcquireEvent, Acquisition, Strategy};
use repocat::aggregate::{Phase, WalkEvent};
use repocat::config::SelectionConfig;
use repocat::error::{ErrorKind, Failure, Operation};
use repocat::run::{Run, RunEvent};

const REMOTE: &str = "https://github.com/owner/project";

fn texts(items: &[&str]) -> Vec<String> {
    items.iter().map(|item| item.to_string()).collect()
}

fn only_python() -> SelectionConfig {
    SelectionConfig::from_patterns(Some(texts(&["*.py"])), Some(vec![]))
}

/// A world to run in: which fetches succeed, and the files under the root.
struct World {
    local_exists: bool,
    subprocess_works: bool,
    library_works: bool,
    files: Vec<(&'static str, &'static [u8])>,
}

/// What happened in the world during a run.
#[derive(Debug, Default, PartialEq)]
struct Trace {
    fetches: Vec<(Strategy, String, String, u32)>,
    output_created: bool,
    output: String,
    walked: Option<String>,
    outcome: Option<Result<String, Failure>>,
}

fn scenario_files() -> Vec<(&'static str, &'static [u8])> {
    vec![("a.py", b"x\n\n  \ny"), ("b.py", b"z"), ("c.md", b"ignored")]
}

/// Carries out the requests of a run in `world`.
fn perform(mut run: Run, world: &World) -> Trace {
    let mut trace = Trace::default();
    let mut next = 0;
    let mut steps = 0;
    loop {
        steps += 1;
        assert!(steps < 1000);
        if let Some(outcome) = run.outcome() {
            trace.outcome = Some(outcome);
            return trace;
        }
        let event = match &run {
            Run::Rejected { .. } => unreachable!(),
            Run::Acquiring { acquisition, .. } => RunEvent::Acquire(match acquisition {
                Acquisition::Probe { .. } => {
                    if world.local_exists {
                        AcquireEvent::Found
                    } else {
                        AcquireEvent::Missing
                    }
                }
                Acquisition::MakeTempDir { .. } => AcquireEvent::TempDir { path: String::from("/tmp/clone") },
                Acquisition::Fetch { strategy, url, dest, depth } => {
                    trace.fetches.push((*strategy, url.clone(), dest.clone(), *depth));
                    let works = match strategy {
                        Strategy::Subprocess => world.subprocess_works,
                        Strategy::Embedded => world.library_works,
                    };
                    if works {
                        AcquireEvent::Fetched
                    } else {
                        AcquireEvent::NotFetched
                    }
                }
                Acquisition::Ready { .. } | Acquisition::Failed { .. } => unreachable!(),
            }),
            Run::Aggregating { machine } => RunEvent::Walk(match machine.phase() {
                Phase::OpenOutput => {
                    trace.output_created = true;
                    trace.walked = Some(machine.root().to_string());
                    WalkEvent::Opened
                }
                Phase::NextEntry => {
                    if next < world.files.len() {
                        next += 1;
                        WalkEvent::Entry { path: world.files[next - 1].0.to_string(), is_file: true }
                    } else {
                        WalkEvent::WalkEnded
                    }
                }
                Phase::ReadFile { path } => {
                    let found = world.files.iter().find(|entry| entry.0 == path).unwrap();
                    WalkEvent::Contents { bytes: found.1.to_vec() }
                }
                Phase::WriteBlock { text, .. } => {
                    trace.output.push_str(text);
                    WalkEvent::Written
                }
                Phase::Finished | Phase::Failed { .. } => unreachable!(),
            }),
        };
        run = run.advance(event);
    }
}

#[test]
fn local_run_writes_the_selected_files() {
    let world = World {
        local_exists: true,
        subprocess_works: false,
        library_works: false,
        files: scenario_files(),
    };
    let trace = perform(Run::start("/home/me/project", "out.txt", only_python()), &world);
    assert_eq!(trace.output, "*** a.py\nx\ny\n*** b.py\nz\n");
    assert_eq!(trace.walked, Some(String::from("/home/me/project")));
    assert!(trace.fetches.is_empty());
    assert_eq!(
        trace.outcome,
        Some(Ok(String::from("All matching files have been concatenated into 'out.txt'")))
    );
}

#[test]
fn primary_fetch_failing_falls_back_with_the_same_depth() {
    let world = World {
        local_exists: false,
        subprocess_works: false,
        library_works: true,
        files: scenario_files(),
    };
    let trace = perform(Run::start(REMOTE, "out.txt", only_python()), &world);
    assert_eq!(
        trace.fetches,
        vec![
            (Strategy::Subprocess, REMOTE.to_string(), String::from("/tmp/clone"), 1),
            (Strategy::Embedded, REMOTE.to_string(), String::from("/tmp/clone"), 1),
        ]
    );
    assert_eq!(trace.walked, Some(String::from("/tmp/clone")));

    let local_world = World {
        local_exists: true,
        subprocess_works: false,
        library_works: false,
        files: scenario_files(),
    };
    let local = perform(Run::start("/tmp/clone", "out.txt", only_python()), &local_world);
    assert_eq!(trace.output, local.output);
    assert_eq!(trace.output_created, local.output_created);
    assert_eq!(trace.walked, local.walked);
    assert_eq!(trace.outcome, local.outcome);
    assert_eq!(trace.output, "*** a.py\nx\ny\n*** b.py\nz\n");
}

#[test]
fn primary_fetch_succeeding_needs_no_fallback() {
    let world = World {
        local_exists: false,
        subprocess_works: true,
        library_works: true,
        files: scenario_files(),
    };
    let trace = perform(Run::start(REMOTE, "out.txt", only_python()), &world);
    assert_eq!(
        trace.fetches,
        vec![(Strategy::Subprocess, REMOTE.to_string(), String::from("/tmp/clone"), 1)]
    );
    assert_eq!(trace.output, "*** a.py\nx\ny\n*** b.py\nz\n");
}

#[test]
fn both_fetches_failing_ends_the_run_before_the_output_file() {
    let world = World {
        local_exists: false,
        subprocess_works: false,
        library_works: false,
        files: scenario_files(),
    };
    let trace = perform(Run::start(REMOTE, "out.txt", only_python()), &world);
    let failure = Failure { operation: Operation::Fetch, subject: REMOTE.to_string() };
    assert_eq!(failure.kind(), ErrorKind::Acquisition);
    assert_eq!(trace.outcome, Some(Err(failure)));
    assert_eq!(trace.fetches.len(), 2);
    assert!(!trace.output_created);
    assert_eq!(trace.output, "");
    assert_eq!(trace.walked, None);
}

#[test]
fn missing_local_folder_ends_the_run_before_the_output_file() {
    let world = World {
        local_exists: false,
        subprocess_works: true,
        library_works: true,
        files: scenario_files(),
    };
    let trace = perform(Run::start("/nowhere", "out.txt", only_python()), &world);
    let failure = Failure { operation: Operation::LocateInput, subject: String::from("/nowhere") };
    assert_eq!(trace.outcome, Some(Err(failure)));
    assert!(!trace.output_created);
    assert!(trace.fetches.is_empty());
}

#[test]
fn malformed_pattern_ends_the_run_before_anything_is_asked() {
    let config = SelectionConfig::from_patterns(Some(texts(&["*.py", "[unclosed"])), None);
    let run = Run::start("/home/me/project", "out.txt", config);
    let failure =
        Failure { operation: Operation::CompileIncludePattern, subject: String::from("[unclosed") };
    assert_eq!(failure.kind(), ErrorKind::Config);
    assert_eq!(run, Run::Rejected { failure: failure.clone() });
    assert_eq!(run.outcome(), Some(Err(failure)));
    let later = run.clone().advance(RunEvent::Acquire(AcquireEvent::Found));
    assert_eq!(later, run);
    let later = run.clone().advance(RunEvent::Walk(WalkEvent::Opened));
    assert_eq!(later, run);
}

#[test]
fn run_has_no_outcome_while_it_asks() {
    let run = Run::start("/home/me/project", "out.txt", only_python());
    assert_eq!(run.outcome(), None);
    let run = run.advance(RunEvent::Acquire(AcquireEvent::Found));
    assert_eq!(run.outcome(), None);
    match &run {
        Run::Aggregating { machine } => {
            assert_eq!(*machine.phase(), Phase::OpenOutput);
            assert_eq!(machine.root(), "/home/me/project");
            assert_eq!(machine.output(), "out.txt");
        }
        other => panic!("unexpected stage {:?}", other),
    }
}

#[test]
fn events_for_the_other_part_change_nothing() {
    let acquiring = Run::start("/home/me/project", "out.txt", only_python());
    for event in [WalkEvent::Opened, WalkEvent::WalkEnded, WalkEvent::Written] {
        assert_eq!(acquiring.clone().advance(RunEvent::Walk(event)), acquiring);
    }
    let aggregating = acquiring.advance(RunEvent::Acquire(AcquireEvent::Found));
    for event in [AcquireEvent::Found, AcquireEvent::Missing, AcquireEvent::Fetched] {
        assert_eq!(aggregating.clone().advance(RunEvent::Acquire(event)), aggregating);
    }
}

#[test]
fn failure_during_aggregation_is_the_outcome() {
    let run = Run::start("/home/me/project", "out.txt", only_python())
        .advance(RunEvent::Acquire(AcquireEvent::Found))
        .advance(RunEvent::Walk(WalkEvent::NotOpened));
    assert_eq!(
        run.outcome(),
        Some(Err(Failure { operation: Operation::CreateOutput, subject: String::from("out.txt") }))
    );
}
