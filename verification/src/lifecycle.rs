//! The state machine of one lifecycle operation.
//!
//! An operation (install/update or launch) moves through the phases
//! `Requested -> DirectoriesEnsured -> ProcessStarted -> Draining ->
//! Completed | Fatal`.  The surrounding runner performs one action at a
//! time — create the directories, open the log sink, spawn the process,
//! read a line, write a line — and reports the outcome back as an event;
//! `step` decides the next phase and the next action.  Every I/O failure
//! moves straight to `Fatal` and stops the operation: there is no retry
//! and no partial recovery.

use vstd::prelude::*;
use crate::logsink::{count_char, spec_rendered};

verus! {

/// Why an operation ended in `Fatal`.
#[derive(Clone, Copy, Debug, PartialEq, Eq, Structural)]
pub enum FatalKind {
    /// A directory the process depends on could not be created.
    DirCreate,
    /// The log sink could not be opened.
    SinkOpen,
    /// The external executable could not be started.
    Spawn,
    /// Reading the process output failed or a line was malformed.
    StreamRead,
    /// Appending a line to the log failed.
    LogWrite,
}

/// The phase an operation is in.
#[derive(Clone, Copy, Debug, PartialEq, Eq, Structural)]
pub enum Phase {
    Requested,
    DirectoriesEnsured,
    ProcessStarted,
    Draining,
    Completed,
    Fatal(FatalKind),
}

/// The outcome of the action the runner last performed.
#[derive(Clone, Debug, PartialEq)]
pub enum Event {
    DirsCreated,
    DirsFailed,
    SinkOpened,
    SinkFailed,
    Spawned,
    SpawnFailed,
    LineRead { line: String },
    LineWritten,
    WriteFailed,
    StreamEnded,
    ReadFailed,
}

/// What the runner is to do next.  `Stop` ends the operation.
#[derive(Clone, Debug, PartialEq)]
pub enum Action {
    CreateDirs,
    OpenSink,
    Spawn,
    ReadLine,
    WriteLine { line: String },
    Stop,
}

/// The phase after handling `e` in phase `p`.  An event that the protocol
/// cannot produce in `p` leaves the phase unchanged.
pub open spec fn next_phase(p: Phase, e: Event) -> Phase {
    match p {
        Phase::Requested => match e {
            Event::DirsCreated => Phase::DirectoriesEnsured,
            Event::DirsFailed => Phase::Fatal(FatalKind::DirCreate),
            _ => p,
        },
        Phase::DirectoriesEnsured => match e {
            Event::SinkOpened => Phase::DirectoriesEnsured,
            Event::SinkFailed => Phase::Fatal(FatalKind::SinkOpen),
            Event::Spawned => Phase::ProcessStarted,
            Event::SpawnFailed => Phase::Fatal(FatalKind::Spawn),
            _ => p,
        },
        Phase::ProcessStarted => match e {
            Event::LineRead { line } => Phase::Draining,
            Event::StreamEnded => Phase::Completed,
            Event::ReadFailed => Phase::Fatal(FatalKind::StreamRead),
            _ => p,
        },
        Phase::Draining => match e {
            Event::LineRead { line } => Phase::Draining,
            Event::LineWritten => Phase::Draining,
            Event::WriteFailed => Phase::Fatal(FatalKind::LogWrite),
            Event::StreamEnded => Phase::Completed,
            Event::ReadFailed => Phase::Fatal(FatalKind::StreamRead),
            _ => p,
        },
        Phase::Completed => p,
        Phase::Fatal(_) => p,
    }
}

/// The action the runner is to perform after handling `e` in phase `p`.
pub open spec fn next_action(p: Phase, e: Event) -> Action {
    match p {
        Phase::Requested => match e {
            Event::DirsCreated => Action::OpenSink,
            _ => Action::Stop,
        },
        Phase::DirectoriesEnsured => match e {
            Event::SinkOpened => Action::Spawn,
            Event::Spawned => Action::ReadLine,
            _ => Action::Stop,
        },
        Phase::ProcessStarted => match e {
            Event::LineRead { line } => Action::WriteLine { line },
            _ => Action::Stop,
        },
        Phase::Draining => match e {
            Event::LineRead { line } => Action::WriteLine { line },
            Event::LineWritten => Action::ReadLine,
            _ => Action::Stop,
        },
        Phase::Completed => Action::Stop,
        Phase::Fatal(_) => Action::Stop,
    }
}

/// One transition of the machine: the new phase and the next action.
pub fn step(p: Phase, e: Event) -> (r: (Phase, Action))
    ensures
        r.0 == next_phase(p, e),
        r.1 == next_action(p, e),
{
    match p {
        Phase::Requested => match e {
            Event::DirsCreated => (Phase::DirectoriesEnsured, Action::OpenSink),
            Event::DirsFailed => (Phase::Fatal(FatalKind::DirCreate), Action::Stop),
            _ => (p, Action::Stop),
        },
        Phase::DirectoriesEnsured => match e {
            Event::SinkOpened => (Phase::DirectoriesEnsured, Action::Spawn),
            Event::SinkFailed => (Phase::Fatal(FatalKind::SinkOpen), Action::Stop),
            Event::Spawned => (Phase::ProcessStarted, Action::ReadLine),
            Event::SpawnFailed => (Phase::Fatal(FatalKind::Spawn), Action::Stop),
            _ => (p, Action::Stop),
        },
        Phase::ProcessStarted => match e {
            Event::LineRead { line } => (Phase::Draining, Action::WriteLine { line }),
            Event::StreamEnded => (Phase::Completed, Action::Stop),
            Event::ReadFailed => (Phase::Fatal(FatalKind::StreamRead), Action::Stop),
            _ => (p, Action::Stop),
        },
        Phase::Draining => match e {
            Event::LineRead { line } => (Phase::Draining, Action::WriteLine { line }),
            Event::LineWritten => (Phase::Draining, Action::ReadLine),
            Event::WriteFailed => (Phase::Fatal(FatalKind::LogWrite), Action::Stop),
            Event::StreamEnded => (Phase::Completed, Action::Stop),
            Event::ReadFailed => (Phase::Fatal(FatalKind::StreamRead), Action::Stop),
            _ => (p, Action::Stop),
        },
        Phase::Completed => (p, Action::Stop),
        Phase::Fatal(_) => (p, Action::Stop),
    }
}

/// The phase after handling a whole sequence of events.
pub open spec fn run_phases(p: Phase, es: Seq<Event>) -> Phase
    decreases es.len(),
{
    if es.len() == 0 {
        p
    } else {
        run_phases(next_phase(p, es[0]), es.drop_first())
    }
}

/// Every action issued while handling a sequence of events, in order.
pub open spec fn run_actions(p: Phase, es: Seq<Event>) -> Seq<Action>
    decreases es.len(),
{
    if es.len() == 0 {
        Seq::empty()
    } else {
        seq![next_action(p, es[0])] + run_actions(next_phase(p, es[0]), es.drop_first())
    }
}

/// The lines ordered into the log while handling a sequence of events, in
/// order.
pub open spec fn run_written(p: Phase, es: Seq<Event>) -> Seq<String>
    decreases es.len(),
{
    if es.len() == 0 {
        Seq::empty()
    } else {
        let rest = run_written(next_phase(p, es[0]), es.drop_first());
        match next_action(p, es[0]) {
            Action::WriteLine { line } => seq![line] + rest,
            _ => rest,
        }
    }
}

/// The event sequence of a clean drain: each line is read and then written,
/// and the stream ends after the last one.
pub open spec fn drain_events(lines: Seq<String>) -> Seq<Event>
    decreases lines.len(),
{
    if lines.len() == 0 {
        seq![Event::StreamEnded]
    } else {
        seq![Event::LineRead { line: lines[0] }, Event::LineWritten] + drain_events(
            lines.drop_first(),
        )
    }
}

/// A fatal phase is terminal: whatever events still arrive, the phase never
/// changes, no further action is issued, and nothing more is logged.
pub proof fn lemma_fatal_is_terminal(k: FatalKind, es: Seq<Event>)
    ensures
        run_phases(Phase::Fatal(k), es) == Phase::Fatal(k),
        forall|i: int|
            0 <= i < run_actions(Phase::Fatal(k), es).len() ==> run_actions(Phase::Fatal(k), es)[i]
                == Action::Stop,
        run_written(Phase::Fatal(k), es) == Seq::<String>::empty(),
    decreases es.len(),
{
    if es.len() > 0 {
        lemma_fatal_is_terminal(k, es.drop_first());
        assert forall|i: int| 0 <= i < run_actions(Phase::Fatal(k), es).len() implies run_actions(
            Phase::Fatal(k),
            es,
        )[i] == Action::Stop by {
            if i > 0 {
                assert(run_actions(Phase::Fatal(k), es)[i] == run_actions(
                    Phase::Fatal(k),
                    es.drop_first(),
                )[i - 1]);
            }
        }
    }
}

/// A completed phase is terminal in the same way.
pub proof fn lemma_completed_is_terminal(es: Seq<Event>)
    ensures
        run_phases(Phase::Completed, es) == Phase::Completed,
        run_written(Phase::Completed, es) == Seq::<String>::empty(),
    decreases es.len(),
{
    if es.len() > 0 {
        lemma_completed_is_terminal(es.drop_first());
    }
}

/// When the directories cannot be created, the operation ends fatally at
/// once, and the external process is never spawned, whatever happens
/// afterwards.
pub proof fn lemma_dir_failure_never_spawns(es: Seq<Event>)
    ensures
        run_phases(Phase::Requested, seq![Event::DirsFailed] + es) == Phase::Fatal(
            FatalKind::DirCreate,
        ),
        forall|i: int|
            0 <= i < run_actions(Phase::Requested, seq![Event::DirsFailed] + es).len()
                ==> run_actions(Phase::Requested, seq![Event::DirsFailed] + es)[i] != Action::Spawn,
{
    let full = seq![Event::DirsFailed] + es;
    assert(full[0] == Event::DirsFailed);
    assert(full.drop_first() =~= es);
    lemma_fatal_is_terminal(FatalKind::DirCreate, es);
    assert forall|i: int|
        0 <= i < run_actions(Phase::Requested, full).len() implies run_actions(
        Phase::Requested,
        full,
    )[i] != Action::Spawn by {
        if i > 0 {
            assert(run_actions(Phase::Requested, full)[i] == run_actions(
                Phase::Fatal(FatalKind::DirCreate),
                es,
            )[i - 1]);
        }
    }
}

/// When the executable cannot be started, the operation ends fatally with
/// the spawn classification, and no line is ever ordered into the log: the
/// sink stays as it was opened, empty.
pub proof fn lemma_spawn_failure_keeps_log_empty(es: Seq<Event>)
    ensures
        run_phases(Phase::DirectoriesEnsured, seq![Event::SpawnFailed] + es) == Phase::Fatal(
            FatalKind::Spawn,
        ),
        run_written(Phase::DirectoriesEnsured, seq![Event::SpawnFailed] + es) == Seq::<
            String,
        >::empty(),
{
    let full = seq![Event::SpawnFailed] + es;
    assert(full[0] == Event::SpawnFailed);
    assert(full.drop_first() =~= es);
    lemma_fatal_is_terminal(FatalKind::Spawn, es);
}

/// A clean drain of `lines` from a freshly started process completes the
/// operation and orders exactly `lines` into the log, in emission order.
pub proof fn lemma_drain_logs_every_line(p: Phase, lines: Seq<String>)
    requires
        p == Phase::ProcessStarted || p == Phase::Draining,
    ensures
        run_phases(p, drain_events(lines)) == Phase::Completed,
        run_written(p, drain_events(lines)) == lines,
    decreases lines.len(),
{
    let es = drain_events(lines);
    if lines.len() == 0 {
        assert(es[0] == Event::StreamEnded);
        assert(es.drop_first() =~= Seq::<Event>::empty());
        assert(run_phases(p, es) == run_phases(Phase::Completed, es.drop_first()));
        assert(run_written(Phase::Completed, Seq::<Event>::empty()) =~= Seq::<String>::empty());
        assert(run_written(p, es) =~= Seq::<String>::empty());
        assert(lines =~= Seq::<String>::empty());
    } else {
        let rest = drain_events(lines.drop_first());
        let tail = seq![Event::LineWritten] + rest;
        assert(es[0] == Event::LineRead { line: lines[0] });
        assert(es.drop_first() =~= tail);
        assert(next_phase(p, es[0]) == Phase::Draining);
        assert(next_action(p, es[0]) == Action::WriteLine { line: lines[0] });
        assert(tail[0] == Event::LineWritten);
        assert(tail.drop_first() =~= rest);
        assert(next_phase(Phase::Draining, Event::LineWritten) == Phase::Draining);
        assert(next_action(Phase::Draining, Event::LineWritten) == Action::ReadLine);
        lemma_drain_logs_every_line(Phase::Draining, lines.drop_first());
        assert(run_phases(p, es) == run_phases(Phase::Draining, tail));
        assert(run_phases(Phase::Draining, tail) == run_phases(Phase::Draining, rest));
        assert(run_written(p, es) == seq![lines[0]] + run_written(Phase::Draining, tail));
        assert(run_written(Phase::Draining, tail) == run_written(Phase::Draining, rest));
        assert(run_written(p, es) =~= lines);
    }
}

/// A whole clean operation: directories created, sink opened, process
/// spawned, output drained.  It completes, and it orders exactly the
/// emitted lines into the log, in emission order.
pub proof fn lemma_clean_operation(lines: Seq<String>)
    ensures
        run_phases(
            Phase::Requested,
            seq![Event::DirsCreated, Event::SinkOpened, Event::Spawned] + drain_events(lines),
        ) == Phase::Completed,
        run_written(
            Phase::Requested,
            seq![Event::DirsCreated, Event::SinkOpened, Event::Spawned] + drain_events(lines),
        ) == lines,
{
    let full = seq![Event::DirsCreated, Event::SinkOpened, Event::Spawned] + drain_events(lines);
    let t1 = seq![Event::SinkOpened, Event::Spawned] + drain_events(lines);
    let t2 = seq![Event::Spawned] + drain_events(lines);
    assert(full[0] == Event::DirsCreated);
    assert(full.drop_first() =~= t1);
    assert(t1[0] == Event::SinkOpened);
    assert(t1.drop_first() =~= t2);
    assert(t2[0] == Event::Spawned);
    assert(t2.drop_first() =~= drain_events(lines));
    lemma_drain_logs_every_line(Phase::ProcessStarted, lines);
    assert(run_phases(Phase::Requested, full) == run_phases(Phase::DirectoriesEnsured, t1));
    assert(run_phases(Phase::DirectoriesEnsured, t1) == run_phases(Phase::DirectoriesEnsured, t2));
    assert(run_phases(Phase::DirectoriesEnsured, t2) == run_phases(
        Phase::ProcessStarted,
        drain_events(lines),
    ));
    assert(run_written(Phase::Requested, full) == run_written(Phase::DirectoriesEnsured, t1));
    assert(run_written(Phase::DirectoriesEnsured, t1) == run_written(Phase::DirectoriesEnsured, t2));
    assert(run_written(Phase::DirectoriesEnsured, t2) == run_written(
        Phase::ProcessStarted,
        drain_events(lines),
    ));
}

/// End to end: a process that emits `lines` (none of which contains a
/// newline) and exits leaves a completed operation whose transcript holds
/// exactly one newline-terminated entry per emitted line.
pub proof fn lemma_drain_transcript_line_count(p: Phase, lines: Seq<String>)
    requires
        p == Phase::ProcessStarted || p == Phase::Draining,
        forall|i: int| 0 <= i < lines.len() ==> count_char(#[trigger] lines[i]@, '\n') == 0,
    ensures
        run_phases(p, drain_events(lines)) == Phase::Completed,
        count_char(
            spec_rendered(
                run_written(p, drain_events(lines)).map_values(|s: String| s@),
            ),
            '\n',
        ) == lines.len(),
{
    lemma_drain_logs_every_line(p, lines);
    let views = lines.map_values(|s: String| s@);
    assert(run_written(p, drain_events(lines)).map_values(|s: String| s@) =~= views);
    assert(forall|i: int| 0 <= i < views.len() ==> count_char(#[trigger] views[i], '\n') == 0);
    crate::logsink::lemma_rendered_line_count(views);
}

} // verus!
