//! The phases of a scheduler's run, and the events that lead from one to
//! the next.

use vstd::prelude::*;

verus! {

/// How far the run of a scheduler has come.
#[derive(Clone, Copy, Debug, PartialEq, Eq, Structural)]
pub enum Phase {
    /// Not started; the number of workers may still be set.
    Configured,
    /// Workers are being started; so many are in the table.
    Starting(usize),
    /// Every worker is up; the run lasts until the main coroutine ends.
    Running,
    /// The main coroutine has ended; the workers are told to leave.
    ShuttingDown,
    /// Every worker has left.
    Done,
}

/// What the caller of `run` reports.
#[derive(Clone, Copy, Debug, PartialEq, Eq, Structural)]
pub enum RunEvent {
    /// The run is to begin.
    Begin,
    /// The worker handed out last is up.
    WorkerStarted,
    /// The main coroutine's outcome has arrived.
    MainFinished,
    /// Every worker's thread has been joined.
    WorkersJoined,
}

/// The phase that follows `phase` on `event`, if the event is due there.
pub open spec fn next_phase(phase: Phase, workers: usize, event: RunEvent) -> Option<Phase> {
    match (phase, event) {
        (Phase::Configured, RunEvent::Begin) => Some(Phase::Starting(1)),
        (Phase::Starting(started), RunEvent::WorkerStarted) => if started < workers {
            Some(Phase::Starting((started + 1) as usize))
        } else {
            Some(Phase::Running)
        },
        (Phase::Running, RunEvent::MainFinished) => Some(Phase::ShuttingDown),
        (Phase::ShuttingDown, RunEvent::WorkersJoined) => Some(Phase::Done),
        _ => None,
    }
}

/// The phase reached from a configured scheduler by these events, if each
/// was due when it came.
pub open spec fn phase_after(workers: usize, events: Seq<RunEvent>) -> Option<Phase>
    decreases events.len(),
{
    if events.len() == 0 {
        Some(Phase::Configured)
    } else {
        match phase_after(workers, events.drop_last()) {
            Some(phase) => next_phase(phase, workers, events.last()),
            None => None,
        }
    }
}

/// The begin of a run and the reports of `reported` workers.
pub open spec fn start_events(reported: nat) -> Seq<RunEvent> {
    seq![RunEvent::Begin] + Seq::new(reported, |i: int| RunEvent::WorkerStarted)
}

/// The events that lead to `phase`.
pub open spec fn events_to(workers: usize, phase: Phase) -> Seq<RunEvent> {
    match phase {
        Phase::Configured => Seq::empty(),
        Phase::Starting(started) => start_events((started - 1) as nat),
        Phase::Running => start_events(workers as nat),
        Phase::ShuttingDown => start_events(workers as nat).push(RunEvent::MainFinished),
        Phase::Done => start_events(workers as nat).push(RunEvent::MainFinished).push(
            RunEvent::WorkersJoined,
        ),
    }
}

/// A whole run: the begin, one report for each worker, the main coroutine's
/// end, and the workers' leave.
pub open spec fn full_run(workers: usize) -> Seq<RunEvent> {
    events_to(workers, Phase::Done)
}

/// Whether `phase` can be reached with so many workers.
pub open spec fn reachable(workers: usize, phase: Phase) -> bool {
    match phase {
        Phase::Starting(started) => 1 <= started <= workers,
        _ => true,
    }
}

/// How many events lead to `phase`.
pub open spec fn rank(workers: usize, phase: Phase) -> nat {
    match phase {
        Phase::Configured => 0,
        Phase::Starting(started) => started as nat,
        Phase::Running => (workers + 1) as nat,
        Phase::ShuttingDown => (workers + 2) as nat,
        Phase::Done => (workers + 3) as nat,
    }
}

proof fn lemma_start_events_push(reported: nat)
    ensures
        start_events(reported).push(RunEvent::WorkerStarted) == start_events(reported + 1),
        start_events(reported).len() == reported + 1,
        start_events(reported + 1).drop_last() == start_events(reported),
        start_events(reported + 1).last() == RunEvent::WorkerStarted,
        start_events(0) == seq![RunEvent::Begin],
{
    assert(start_events(reported).push(RunEvent::WorkerStarted) =~= start_events(reported + 1));
    assert(start_events(reported + 1).drop_last() =~= start_events(reported));
    assert(start_events(0) =~= seq![RunEvent::Begin]);
}

/// The events that were due one after the other are the events that lead
/// to the phase they reach.
proof fn lemma_events_determined(workers: usize, events: Seq<RunEvent>)
    requires
        workers >= 1,
    ensures
        phase_after(workers, events) matches Some(phase) ==> reachable(workers, phase) && events
            == events_to(workers, phase),
    decreases events.len(),
{
    if events.len() == 0 {
        assert(events =~= Seq::empty());
    } else {
        let earlier = events.drop_last();
        lemma_events_determined(workers, earlier);
        assert(events =~= earlier.push(events.last()));
        match phase_after(workers, earlier) {
            Some(Phase::Configured) => {
                lemma_start_events_push(0);
                assert(earlier.push(RunEvent::Begin) =~= seq![RunEvent::Begin]);
            },
            Some(Phase::Starting(started)) => {
                lemma_start_events_push((started - 1) as nat);
            },
            _ => {},
        }
    }
}

/// The events that lead to a phase do reach it.
proof fn lemma_events_reach(workers: usize, phase: Phase)
    requires
        workers >= 1,
        reachable(workers, phase),
    ensures
        phase_after(workers, events_to(workers, phase)) == Some(phase),
    decreases rank(workers, phase),
{
    match phase {
        Phase::Configured => {},
        Phase::Starting(started) => {
            if started == 1 {
                lemma_start_events_push(0);
                assert(seq![RunEvent::Begin].drop_last() =~= Seq::<RunEvent>::empty());
                assert(phase_after(workers, Seq::<RunEvent>::empty()) == Some(Phase::Configured));
            } else {
                lemma_events_reach(workers, Phase::Starting((started - 1) as usize));
                lemma_start_events_push((started - 2) as nat);
            }
        },
        Phase::Running => {
            lemma_events_reach(workers, Phase::Starting(workers));
            lemma_start_events_push((workers - 1) as nat);
        },
        Phase::ShuttingDown => {
            lemma_events_reach(workers, Phase::Running);
            let events = events_to(workers, Phase::ShuttingDown);
            assert(events.drop_last() =~= events_to(workers, Phase::Running));
        },
        Phase::Done => {
            lemma_events_reach(workers, Phase::ShuttingDown);
            let events = events_to(workers, Phase::Done);
            assert(events.drop_last() =~= events_to(workers, Phase::ShuttingDown));
        },
    }
}

/// With any number of workers, a run is over exactly when its events were
/// the whole run: the begin, one report for each worker, the end of the main
/// coroutine, and the joining of every worker. No other sequence of events
/// ends a run.
pub proof fn lemma_run_ends_with_full_run(workers: usize, events: Seq<RunEvent>)
    requires
        workers >= 1,
    ensures
        phase_after(workers, events) == Some(Phase::Done) <==> events == full_run(workers),
{
    lemma_events_determined(workers, events);
    lemma_events_reach(workers, Phase::Done);
}

/// A run that is over has seen the main coroutine end, after every worker
/// was started, and has joined every worker after that, as its last step.
pub proof fn lemma_run_waits_for_main(workers: usize, events: Seq<RunEvent>)
    requires
        workers >= 1,
        phase_after(workers, events) == Some(Phase::Done),
    ensures
        events.len() == workers + 3,
        events[0] == RunEvent::Begin,
        forall|i: int| 1 <= i <= workers ==> events[i] == RunEvent::WorkerStarted,
        events[workers + 1] == RunEvent::MainFinished,
        events[workers + 2] == RunEvent::WorkersJoined,
{
    lemma_events_determined(workers, events);
}

} // verus!
