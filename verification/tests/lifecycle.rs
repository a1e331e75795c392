use athena::lifecycle::{step, Action, Event, FatalKind, Phase};
use athena::logsink::render_line;
use athena::server::Server;

fn server_with_id(id: &str) -> Server {
    Server {
        id: id.to_string(),
        name: String::from("main"),
        port: 2302,
        limit_fps: 60,
        extra_flags: vec![],
        world: String::from("altis"),
        modpack: None,
    }
}

/// Drives one operation through a clean run over the given output lines and
/// returns the final phase and every line the machine ordered into the log.
fn drive_clean(lines: &[String]) -> (Phase, Vec<String>) {
    let mut phase = Phase::Requested;
    let mut written: Vec<String> = Vec::new();

    let (p, a) = step(phase, Event::DirsCreated);
    phase = p;
    assert!(matches!(a, Action::OpenSink));
    let (p, a) = step(phase, Event::SinkOpened);
    phase = p;
    assert!(matches!(a, Action::Spawn));
    let (p, a) = step(phase, Event::Spawned);
    phase = p;
    assert!(matches!(a, Action::ReadLine));

    for line in lines {
        let (p, a) = step(phase, Event::LineRead { line: line.clone() });
        phase = p;
        match a {
            Action::WriteLine { line: l } => written.push(l),
            other => panic!("expected a write after a read, got {:?}", other),
        }
        let (p, a) = step(phase, Event::LineWritten);
        phase = p;
        assert!(matches!(a, Action::ReadLine));
    }

    let (p, a) = step(phase, Event::StreamEnded);
    phase = p;
    assert!(matches!(a, Action::Stop));
    (phase, written)
}

#[test]
fn clean_run_logs_no_lines() {
    let (phase, written) = drive_clean(&[]);
    assert_eq!(phase, Phase::Completed);
    assert!(written.is_empty());
}

#[test]
fn clean_run_logs_one_line() {
    let lines = vec![String::from("hello")];
    let (phase, written) = drive_clean(&lines);
    assert_eq!(phase, Phase::Completed);
    assert_eq!(written, lines);
}

#[test]
fn clean_run_logs_thousand_lines_in_order() {
    let lines: Vec<String> = (0..1000).map(|i| format!("line {i}")).collect();
    let (phase, written) = drive_clean(&lines);
    assert_eq!(phase, Phase::Completed);
    assert_eq!(written, lines);
}

#[test]
fn dir_failure_is_fatal_and_never_spawns() {
    let (mut phase, a) = step(Phase::Requested, Event::DirsFailed);
    assert_eq!(phase, Phase::Fatal(FatalKind::DirCreate));
    assert!(matches!(a, Action::Stop));
    let late = [
        Event::DirsCreated,
        Event::SinkOpened,
        Event::Spawned,
        Event::LineRead {
            line: String::from("ghost"),
        },
        Event::StreamEnded,
    ];
    for e in late {
        let (p, a) = step(phase, e);
        phase = p;
        assert_eq!(phase, Phase::Fatal(FatalKind::DirCreate));
        assert!(!matches!(a, Action::Spawn));
        assert!(matches!(a, Action::Stop));
    }
}

#[test]
fn sink_failure_is_fatal() {
    let (phase, _) = step(Phase::Requested, Event::DirsCreated);
    let (phase, a) = step(phase, Event::SinkFailed);
    assert_eq!(phase, Phase::Fatal(FatalKind::SinkOpen));
    assert!(matches!(a, Action::Stop));
}

#[test]
fn spawn_failure_is_fatal_and_log_stays_empty() {
    let (phase, _) = step(Phase::Requested, Event::DirsCreated);
    let (phase, a) = step(phase, Event::SinkOpened);
    assert!(matches!(a, Action::Spawn));
    let (mut phase, a) = step(phase, Event::SpawnFailed);
    assert_eq!(phase, Phase::Fatal(FatalKind::Spawn));
    assert!(matches!(a, Action::Stop));
    for e in [Event::LineWritten, Event::StreamEnded] {
        let (p, a) = step(phase, e);
        phase = p;
        assert_eq!(phase, Phase::Fatal(FatalKind::Spawn));
        assert!(!matches!(a, Action::WriteLine { .. }));
    }
}

#[test]
fn read_and_write_failures_are_fatal() {
    let (phase, _) = step(Phase::Draining, Event::ReadFailed);
    assert_eq!(phase, Phase::Fatal(FatalKind::StreamRead));
    let (phase, _) = step(Phase::Draining, Event::WriteFailed);
    assert_eq!(phase, Phase::Fatal(FatalKind::LogWrite));
    let (phase, _) = step(Phase::ProcessStarted, Event::ReadFailed);
    assert_eq!(phase, Phase::Fatal(FatalKind::StreamRead));
}

#[test]
fn completed_is_terminal() {
    let (phase, a) = step(Phase::Completed, Event::DirsCreated);
    assert_eq!(phase, Phase::Completed);
    assert!(matches!(a, Action::Stop));
}

#[test]
fn interleaved_operations_do_not_cross_logs() {
    let one = server_with_id("s1");
    let two = server_with_id("s2");
    assert_ne!(one.steamcmd_log_path(), two.steamcmd_log_path());
    assert_ne!(one.server_log_path(), two.server_log_path());

    let lines_one: Vec<String> = (0..50).map(|i| format!("one {i}")).collect();
    let lines_two: Vec<String> = (0..50).map(|i| format!("two {i}")).collect();
    let mut phase_one = Phase::Draining;
    let mut phase_two = Phase::Draining;
    let mut written_one: Vec<String> = Vec::new();
    let mut written_two: Vec<String> = Vec::new();

    for i in 0..50 {
        let (p, a) = step(
            phase_one,
            Event::LineRead {
                line: lines_one[i].clone(),
            },
        );
        phase_one = p;
        if let Action::WriteLine { line } = a {
            written_one.push(line);
        }
        let (p, a) = step(
            phase_two,
            Event::LineRead {
                line: lines_two[i].clone(),
            },
        );
        phase_two = p;
        if let Action::WriteLine { line } = a {
            written_two.push(line);
        }
        let (p, _) = step(phase_one, Event::LineWritten);
        phase_one = p;
        let (p, _) = step(phase_two, Event::LineWritten);
        phase_two = p;
    }
    let (p, _) = step(phase_one, Event::StreamEnded);
    assert_eq!(p, Phase::Completed);
    let (p, _) = step(phase_two, Event::StreamEnded);
    assert_eq!(p, Phase::Completed);

    assert_eq!(written_one, lines_one);
    assert_eq!(written_two, lines_two);
    assert!(written_one.iter().all(|l| l.starts_with("one")));
    assert!(written_two.iter().all(|l| l.starts_with("two")));
}

#[test]
fn rendered_line_carries_single_newline() {
    assert_eq!(render_line("hello"), "hello\n");
    assert_eq!(render_line(""), "\n");
    let lines = ["a", "b", "c"];
    let mut file = String::new();
    for l in lines {
        file.push_str(&render_line(l));
    }
    assert_eq!(file, "a\nb\nc\n");
    assert_eq!(file.matches('\n').count(), lines.len());
}
