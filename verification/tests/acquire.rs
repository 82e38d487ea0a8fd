use repocat::acquire::{names_remote, AcquireEvent, Acquisition, Strategy, SHALLOW_DEPTH};
use repocat::error::{ErrorKind, Failure, Operation};

const URL: &str = "https://github.com/owner/project";

fn temp_dir(path: &str) -> AcquireEvent {
    AcquireEvent::TempDir { path: path.to_string() }
}

fn fetch(strategy: Strategy, dest: &str) -> Acquisition {
    Acquisition::Fetch { strategy, url: URL.to_string(), dest: dest.to_string(), depth: 1 }
}

#[test]
fn remote_inputs_start_with_the_host_prefix() {
    assert!(names_remote("https://github.com/owner/project"));
    assert!(names_remote("https://github.com"));
    assert!(names_remote("https://github.com.example.org/x"));
    assert!(!names_remote("https://github.co"));
    assert!(!names_remote("http://github.com/owner/project"));
    assert!(!names_remote("HTTPS://GITHUB.COM/owner/project"));
    assert!(!names_remote(" https://github.com/owner/project"));
    assert!(!names_remote("/home/me/project"));
    assert!(!names_remote("."));
    assert!(!names_remote(""));
}

#[test]
fn shallow_depth_is_one() {
    assert_eq!(SHALLOW_DEPTH, 1);
}

#[test]
fn local_path_is_probed_and_becomes_the_root() {
    let start = Acquisition::start("/home/me/project");
    assert_eq!(start, Acquisition::Probe { path: String::from("/home/me/project") });
    assert!(!start.is_final());
    let end = start.advance(AcquireEvent::Found);
    assert_eq!(end, Acquisition::Ready { root: String::from("/home/me/project") });
    assert!(end.is_final());
}

#[test]
fn missing_local_path_is_an_acquisition_error() {
    let end = Acquisition::start("/nowhere").advance(AcquireEvent::Missing);
    let failure = Failure { operation: Operation::LocateInput, subject: String::from("/nowhere") };
    assert_eq!(failure.kind(), ErrorKind::Acquisition);
    assert_eq!(end, Acquisition::Failed { failure });
    assert!(end.is_final());
}

#[test]
fn remote_input_is_fetched_by_the_subprocess_first() {
    let start = Acquisition::start(URL);
    assert_eq!(start, Acquisition::MakeTempDir { url: URL.to_string() });
    let fetching = start.advance(temp_dir("/tmp/r1"));
    assert_eq!(fetching, fetch(Strategy::Subprocess, "/tmp/r1"));
    let end = fetching.advance(AcquireEvent::Fetched);
    assert_eq!(end, Acquisition::Ready { root: String::from("/tmp/r1") });
}

#[test]
fn fallback_is_invoked_with_the_same_shallow_depth() {
    let first = Acquisition::start(URL).advance(temp_dir("/tmp/r2"));
    let (first_url, first_dest, first_depth) = match &first {
        Acquisition::Fetch { strategy: Strategy::Subprocess, url, dest, depth } => {
            (url.clone(), dest.clone(), *depth)
        }
        other => panic!("unexpected phase {:?}", other),
    };
    assert_eq!(first_depth, 1);
    let second = first.advance(AcquireEvent::NotFetched);
    match &second {
        Acquisition::Fetch { strategy, url, dest, depth } => {
            assert_eq!(*strategy, Strategy::Embedded);
            assert_eq!(*url, first_url);
            assert_eq!(*dest, first_dest);
            assert_eq!(*depth, first_depth);
        }
        other => panic!("unexpected phase {:?}", other),
    }
    assert_eq!(second, fetch(Strategy::Embedded, "/tmp/r2"));
}

#[test]
fn fallback_success_proceeds_like_a_local_run() {
    let remote = Acquisition::start(URL)
        .advance(temp_dir("/tmp/r3"))
        .advance(AcquireEvent::NotFetched)
        .advance(AcquireEvent::Fetched);
    let local = Acquisition::start("/tmp/r3").advance(AcquireEvent::Found);
    assert_eq!(remote, Acquisition::Ready { root: String::from("/tmp/r3") });
    assert_eq!(remote, local);
}

#[test]
fn both_strategies_failing_is_an_acquisition_error() {
    let end = Acquisition::start(URL)
        .advance(temp_dir("/tmp/r4"))
        .advance(AcquireEvent::NotFetched)
        .advance(AcquireEvent::NotFetched);
    let failure = Failure { operation: Operation::Fetch, subject: URL.to_string() };
    assert_eq!(failure.kind(), ErrorKind::Acquisition);
    assert_eq!(end, Acquisition::Failed { failure });
    assert!(end.is_final());
}

#[test]
fn no_third_attempt_after_both_strategies_failed() {
    let failed = Acquisition::start(URL)
        .advance(temp_dir("/tmp/r5"))
        .advance(AcquireEvent::NotFetched)
        .advance(AcquireEvent::NotFetched);
    for event in [AcquireEvent::Fetched, AcquireEvent::NotFetched, AcquireEvent::Found,
        AcquireEvent::Missing, AcquireEvent::NoTempDir, temp_dir("/tmp/other")]
    {
        assert_eq!(failed.clone().advance(event), failed);
    }
}

#[test]
fn missing_temporary_directory_is_an_acquisition_error() {
    let end = Acquisition::start(URL).advance(AcquireEvent::NoTempDir);
    let failure = Failure { operation: Operation::CreateTempDir, subject: URL.to_string() };
    assert_eq!(failure.kind(), ErrorKind::Acquisition);
    assert_eq!(end, Acquisition::Failed { failure });
}

#[test]
fn events_out_of_turn_change_nothing() {
    let probing = Acquisition::start("/home/me/project");
    for event in [AcquireEvent::Fetched, AcquireEvent::NotFetched, AcquireEvent::NoTempDir,
        temp_dir("/tmp/x")]
    {
        assert_eq!(probing.clone().advance(event), probing);
    }
    let waiting = Acquisition::start(URL);
    for event in [AcquireEvent::Fetched, AcquireEvent::NotFetched, AcquireEvent::Found,
        AcquireEvent::Missing]
    {
        assert_eq!(waiting.clone().advance(event), waiting);
    }
    let fetching = fetch(Strategy::Subprocess, "/tmp/r6");
    for event in [AcquireEvent::Found, AcquireEvent::Missing, AcquireEvent::NoTempDir,
        temp_dir("/tmp/x")]
    {
        assert_eq!(fetching.clone().advance(event), fetching);
    }
    let ready = Acquisition::Ready { root: String::from("/tmp/r6") };
    for event in [AcquireEvent::Found, AcquireEvent::Missing, AcquireEvent::NoTempDir,
        AcquireEvent::Fetched, AcquireEvent::NotFetched, temp_dir("/tmp/x")]
    {
        assert_eq!(ready.clone().advance(event), ready);
    }
}
