use catr::config::Config;
use catr::run::{run, SourceRead};
use catr::session::{Action, Event, Session};

fn settings(files: &[&str], number_lines: bool, number_nonblank_lines: bool) -> Config {
    Config::new(files.iter().map(|f| f.to_string()).collect(), number_lines, number_nonblank_lines)
}

fn expect_open(session: &Session, identifier: &str) {
    match session.next_action() {
        Action::Open { identifier: asked } => assert_eq!(asked, identifier),
        other => panic!("expected to open {}, got {:?}", identifier, other),
    }
}

fn expect_read(session: &Session) {
    assert!(matches!(session.next_action(), Action::Read));
}

#[test]
fn session_walks_through_its_sources() {
    let config = settings(&["one", "two"], false, true);
    let mut session = Session::new(&config);
    expect_open(&session, "one");
    let opened = session.step(Event::Opened);
    assert_eq!((opened.stdout.as_str(), opened.stderr.as_str()), ("", ""));
    expect_read(&session);
    assert_eq!(session.step(Event::Line { text: "a" }).stdout, "     1\ta\n");
    assert_eq!(session.step(Event::Line { text: "" }).stdout, "\n");
    assert_eq!(session.step(Event::Line { text: "b" }).stdout, "     2\tb\n");
    expect_read(&session);
    let closed = session.step(Event::EndOfSource);
    assert_eq!((closed.stdout.as_str(), closed.stderr.as_str()), ("", ""));
    expect_open(&session, "two");
    session.step(Event::Opened);
    assert_eq!(session.step(Event::Line { text: "c" }).stdout, "     1\tc\n");
    session.step(Event::EndOfSource);
    assert!(matches!(session.next_action(), Action::Finish { result: Ok(()) }));
}

#[test]
fn session_reports_open_failure_and_goes_on() {
    let config = settings(&["missing", "-"], true, false);
    let mut session = Session::new(&config);
    expect_open(&session, "missing");
    let written = session.step(Event::OpenFailed { detail: "No such file or directory (os error 2)" });
    assert_eq!(written.stderr, "Failed to open missing: No such file or directory (os error 2)\n");
    assert_eq!(written.stdout, "");
    expect_open(&session, "-");
    session.step(Event::Opened);
    let line = session.step(Event::Line { text: "x" });
    assert_eq!(line.stdout, "     1\tx\n");
    assert_eq!(line.stderr, "");
    session.step(Event::EndOfSource);
    assert!(matches!(session.next_action(), Action::Finish { result: Ok(()) }));
}

#[test]
fn session_stops_at_a_read_failure() {
    let config = settings(&["one", "two"], false, false);
    let mut session = Session::new(&config);
    session.step(Event::Opened);
    assert_eq!(session.step(Event::Line { text: "a" }).stdout, "a\n");
    let failed = session.step(Event::ReadFailed { detail: "broken pipe" });
    assert_eq!((failed.stdout.as_str(), failed.stderr.as_str()), ("", ""));
    match session.next_action() {
        Action::Finish { result } => assert_eq!(result, Err("broken pipe".to_string())),
        other => panic!("expected the end, got {:?}", other),
    }
    let late = session.step(Event::Line { text: "b" });
    assert_eq!((late.stdout.as_str(), late.stderr.as_str()), ("", ""));
    assert!(matches!(session.next_action(), Action::Finish { result: Err(_) }));
}

#[test]
fn session_ignores_events_out_of_turn() {
    let config = settings(&["one"], true, false);
    let mut session = Session::new(&config);
    let early = session.step(Event::Line { text: "a" });
    assert_eq!((early.stdout.as_str(), early.stderr.as_str()), ("", ""));
    session.step(Event::EndOfSource);
    session.step(Event::ReadFailed { detail: "x" });
    expect_open(&session, "one");
    session.step(Event::Opened);
    let stray = session.step(Event::OpenFailed { detail: "x" });
    assert_eq!((stray.stdout.as_str(), stray.stderr.as_str()), ("", ""));
    session.step(Event::Opened);
    expect_read(&session);
    assert_eq!(session.step(Event::Line { text: "a" }).stdout, "     1\ta\n");
    session.step(Event::EndOfSource);
    assert!(matches!(session.next_action(), Action::Finish { result: Ok(()) }));
    let after = session.step(Event::Opened);
    assert_eq!((after.stdout.as_str(), after.stderr.as_str()), ("", ""));
    assert!(matches!(session.next_action(), Action::Finish { result: Ok(()) }));
}

#[test]
fn session_without_sources_finishes_at_once() {
    let config = settings(&[], false, false);
    let session = Session::new(&config);
    assert!(session.has_room());
    assert!(matches!(session.next_action(), Action::Finish { result: Ok(()) }));
}

#[test]
fn session_steps_add_up_to_the_run() {
    let config = settings(&["one", "two", "three"], false, true);
    let mut session = Session::new(&config);
    let mut stdout = String::new();
    let mut stderr = String::new();
    let events = [
        Event::Opened,
        Event::Line { text: "a" },
        Event::Line { text: "" },
        Event::Line { text: "b" },
        Event::EndOfSource,
        Event::OpenFailed { detail: "denied" },
        Event::Opened,
        Event::Line { text: "" },
        Event::Line { text: "c" },
        Event::EndOfSource,
    ];
    for event in events {
        assert!(session.has_room());
        let written = session.step(event);
        stdout.push_str(&written.stdout);
        stderr.push_str(&written.stderr);
    }
    let reads = vec![
        SourceRead::Complete { lines: vec!["a".to_string(), String::new(), "b".to_string()] },
        SourceRead::OpenFailed { detail: "denied".to_string() },
        SourceRead::Complete { lines: vec![String::new(), "c".to_string()] },
    ];
    let whole = run(&config, &reads);
    assert_eq!(stdout, whole.stdout);
    assert_eq!(stderr, whole.stderr);
    assert_eq!(stdout, "     1\ta\n\n     2\tb\n\n     1\tc\n");
    assert_eq!(stderr, "Failed to open two: denied\n");
}
