//! The scheduler: what the processors share.

use vstd::prelude::*;
use std::collections::HashMap;
use deque::Stealer;
use crate::coroutine::{Coroutine, State};
use crate::join::{JoinHandle, JoinView};
use crate::options::{Options, DEFAULT_STACK_SIZE};
use crate::phase::{next_phase, Phase, RunEvent};
use crate::processor::{ProcMessage, Processor, ProcessorView};
use crate::run_queue::stealer_clone;

verus! {

broadcast use vstd::std_specs::hash::group_hash_axioms;

/// Whom to wake once an operation is done. The caller owes the notification
/// on the condition variable that parked processors wait on.
#[derive(Clone, Copy, Debug, PartialEq, Eq, Structural)]
pub enum Wake {
    /// One parked processor: a coroutine has become available.
    One,
    /// Every parked processor: the scheduler is going down.
    All,
}

/// What `run` asks of its caller.
pub enum RunAction {
    /// Start worker 0 on this processor. The main coroutine is on its queue;
    /// its outcome ends the run.
    StartMain { processor: Processor, main: u64 },
    /// Send `announce[j]` to the inbox of worker `j`, then start the next
    /// worker on this processor.
    StartWorker { processor: Processor, announce: Vec<ProcMessage> },
    /// Wait for the main coroutine's outcome.
    AwaitMain,
    /// Send `messages[j]` to the inbox of worker `j`, wake as `wake` says,
    /// and join the workers' threads.
    Shutdown { messages: Vec<ProcMessage>, wake: Wake },
    /// Return the main coroutine's outcome.
    Finish,
}

/// What `run` may return on a scheduler `pre` and an event that is due,
/// and the scheduler `post` that it leaves.
pub open spec fn run_result(
    pre: SchedulerView,
    event: RunEvent,
    action: RunAction,
    post: SchedulerView,
) -> bool {
    match action {
        RunAction::StartMain { processor, main } => {
            &&& event is Begin
            &&& main == pre.next_id
            &&& processor@ == (ProcessorView {
                id: 0,
                queue: seq![main],
                stealer: processor@.stealer,
                neighbors: Seq::empty(),
                cursor: 0,
                shutdown: false,
                current: None,
                taken: 0,
            })
            &&& post == (SchedulerView {
                awake: 1,
                handles: pre.handles.push(processor@.stealer),
                phase: Phase::Starting(1),
                ..pre.spawned(Options { stack_size: DEFAULT_STACK_SIZE, name: None })
            })
        },
        RunAction::StartWorker { processor, announce } => {
            &&& event is WorkerStarted
            &&& pre.phase matches Phase::Starting(started)
            &&& started < pre.workers
            &&& processor@ == (ProcessorView {
                id: started,
                queue: Seq::empty(),
                stealer: processor@.stealer,
                neighbors: pre.handles,
                cursor: 0,
                shutdown: false,
                current: None,
                taken: 0,
            })
            &&& announce@.len() == started
            &&& forall|j: int|
                0 <= j < announce@.len() ==> #[trigger] announce@[j] == ProcMessage::NewNeighbor(
                    processor@.stealer,
                )
            &&& post == (SchedulerView {
                awake: (pre.awake + 1) as usize,
                handles: pre.handles.push(processor@.stealer),
                phase: Phase::Starting((started + 1) as usize),
                ..pre
            })
        },
        RunAction::AwaitMain => {
            &&& event is WorkerStarted
            &&& pre.phase == Phase::Starting(pre.workers)
            &&& post == (SchedulerView { phase: Phase::Running, ..pre })
        },
        RunAction::Shutdown { messages, wake } => {
            &&& event is MainFinished
            &&& pre.phase is Running
            &&& messages@.len() == pre.workers
            &&& forall|j: int|
                0 <= j < messages@.len() ==> #[trigger] messages@[j] == ProcMessage::Shutdown
            &&& wake == Wake::All
            &&& post == (SchedulerView { phase: Phase::ShuttingDown, ..pre })
        },
        RunAction::Finish => {
            &&& event is WorkersJoined
            &&& pre.phase is ShuttingDown
            &&& post == (SchedulerView { phase: Phase::Done, ..pre })
        },
    }
}

/// Coroutine scheduler.
///
/// The state that the processors share. Whoever holds it holds the lock: the
/// operations take `&mut self`.
pub struct Scheduler {
    work_counts: usize,
    proc_handles: Vec<Stealer<u64>>,
    expected_worker_count: usize,
    awake: usize,
    coroutines: HashMap<u64, Coroutine>,
    next_id: u64,
    phase: Phase,
}

/// A scheduler as a value.
pub struct SchedulerView {
    /// The work counter: how many coroutines are live.
    pub work_count: nat,
    /// The table of processors: for each, the handle on its run queue.
    pub handles: Seq<Stealer<u64>>,
    /// How many workers the scheduler runs with.
    pub workers: usize,
    /// How many processors are awake.
    pub awake: usize,
    /// The live coroutines, by identity.
    pub coroutines: Map<u64, Coroutine>,
    /// The identity that the next coroutine gets.
    pub next_id: u64,
    /// How far the run has come.
    pub phase: Phase,
}

impl SchedulerView {
    /// What holds of a scheduler at all times.
    ///
    /// The table stays within the number of workers, and the count of awake
    /// processors within the table. The work counter counts the live
    /// coroutines. A live coroutine is filed under its own identity, which
    /// is older than the next one to be given out; it has not finished; once
    /// it has run it has a home in the table. The table has as many entries
    /// as the phase says.
    pub open spec fn wf(self) -> bool {
        &&& self.workers >= 1
        &&& self.awake <= self.handles.len()
        &&& self.handles.len() <= self.workers
        &&& self.coroutines.dom().finite()
        &&& self.work_count == self.coroutines.dom().len()
        &&& forall|id: u64| #[trigger]
            self.coroutines.contains_key(id) ==> {
                &&& id < self.next_id
                &&& self.coroutines[id].id == id
                &&& self.coroutines[id].state != State::Finished
                &&& self.coroutines[id].state != State::Runnable ==> self.coroutines[id].home
                    is Some
                &&& self.coroutines[id].home matches Some(h) ==> h < self.handles.len()
            }
        &&& match self.phase {
            Phase::Configured => self.handles.len() == 0,
            Phase::Starting(started) => 1 <= started <= self.workers && self.handles.len()
                == started,
            _ => self.handles.len() == self.workers,
        }
    }

    /// The state of a coroutine: that of its record while it lives,
    /// `Finished` once it is gone, nothing if it was never spawned.
    pub open spec fn state(self, coro: u64) -> Option<State> {
        if self.coroutines.contains_key(coro) {
            Some(self.coroutines[coro].state)
        } else if coro < self.next_id {
            Some(State::Finished)
        } else {
            None
        }
    }

    /// Whether a processor may take `coro` up: it lives and is ready.
    pub open spec fn resumable(self, coro: u64) -> bool {
        self.state(coro) == Some(State::Runnable)
    }

    /// The scheduler after a spawn with these options. The new coroutine
    /// gets the next identity.
    pub open spec fn spawned(self, opts: Options) -> SchedulerView {
        SchedulerView {
            work_count: self.work_count + 1,
            coroutines: self.coroutines.insert(
                self.next_id,
                Coroutine {
                    id: self.next_id,
                    state: State::Runnable,
                    home: None,
                    stack_size: opts.stack_size,
                    name: opts.name,
                },
            ),
            next_id: (self.next_id + 1) as u64,
            ..self
        }
    }

    /// The scheduler after `processor` has taken up `coro`.
    pub open spec fn resumed(self, coro: u64, processor: usize) -> SchedulerView {
        SchedulerView {
            coroutines: self.coroutines.insert(coro, self.coroutines[coro].resumed(processor)),
            ..self
        }
    }

    /// The scheduler after `coro` has changed its state to `state`.
    pub open spec fn moved(self, coro: u64, state: State) -> SchedulerView {
        SchedulerView {
            coroutines: self.coroutines.insert(coro, self.coroutines[coro].with_state(state)),
            ..self
        }
    }

    /// The scheduler after `coro` has finished: its record is gone and the
    /// work counter is one less.
    pub open spec fn finished(self, coro: u64) -> SchedulerView {
        SchedulerView {
            work_count: (self.work_count - 1) as nat,
            coroutines: self.coroutines.remove(coro),
            ..self
        }
    }

    /// The scheduler after one processor has parked.
    pub open spec fn parked(self) -> SchedulerView {
        SchedulerView { awake: (self.awake - 1) as usize, ..self }
    }

    /// The scheduler after one parked processor was woken.
    pub open spec fn woken(self) -> SchedulerView {
        SchedulerView { awake: (self.awake + 1) as usize, ..self }
    }
}

impl View for Scheduler {
    type V = SchedulerView;

    closed spec fn view(&self) -> SchedulerView {
        SchedulerView {
            work_count: self.work_counts as nat,
            handles: self.proc_handles@,
            workers: self.expected_worker_count,
            awake: self.awake,
            coroutines: self.coroutines@,
            next_id: self.next_id,
            phase: self.phase,
        }
    }
}

impl Scheduler {
    /// Whether the scheduler is well formed.
    pub open spec fn wf(&self) -> bool {
        self@.wf()
    }

    /// Create a scheduler with default configurations: one worker, no
    /// coroutine, nothing started.
    pub fn new() -> (s: Scheduler)
        ensures
            s.wf(),
            s@ == (SchedulerView {
                work_count: 0,
                handles: Seq::<Stealer<u64>>::empty(),
                workers: 1,
                awake: 0,
                coroutines: Map::<u64, Coroutine>::empty(),
                next_id: 0,
                phase: Phase::Configured,
            }),
    {
        Scheduler {
            work_counts: 0,
            proc_handles: Vec::new(),
            expected_worker_count: 1,
            awake: 0,
            coroutines: HashMap::new(),
            next_id: 0,
            phase: Phase::Configured,
        }
    }

    /// Set the number of workers. There must be at least one, and the run
    /// must not have begun.
    pub fn with_workers(self, workers: usize) -> (s: Scheduler)
        requires
            self.wf(),
            self@.phase is Configured,
            workers >= 1,
        ensures
            s.wf(),
            s@ == (SchedulerView { workers, ..self@ }),
    {
        let mut s = self;
        s.expected_worker_count = workers;
        s
    }

    /// Total works: the number of live coroutines.
    pub fn work_count(&self) -> (n: usize)
        ensures
            n == self@.work_count,
    {
        self.work_counts
    }

    /// The number of workers.
    pub fn workers(&self) -> (n: usize)
        ensures
            n == self@.workers,
    {
        self.expected_worker_count
    }

    /// The number of processors that are awake.
    pub fn awake(&self) -> (n: usize)
        ensures
            n == self@.awake,
    {
        self.awake
    }

    /// The number of processors in the table.
    pub fn processors(&self) -> (n: usize)
        ensures
            n == self@.handles.len(),
    {
        self.proc_handles.len()
    }

    /// How far the run has come.
    pub fn phase(&self) -> (p: Phase)
        ensures
            p == self@.phase,
    {
        self.phase
    }

    /// The identity that the next coroutine gets.
    pub fn next_id(&self) -> (id: u64)
        ensures
            id == self@.next_id,
    {
        self.next_id
    }

    /// The state of a coroutine.
    pub fn state(&self, coro: u64) -> (s: Option<State>)
        ensures
            s == self@.state(coro),
    {
        match self.coroutines.get(&coro) {
            Some(c) => Some(c.state),
            None => if coro < self.next_id {
                Some(State::Finished)
            } else {
                None
            },
        }
    }

    /// The home of a live coroutine that has run.
    pub fn home(&self, coro: u64) -> (h: Option<usize>)
        ensures
            h == if self@.coroutines.contains_key(coro) {
                self@.coroutines[coro].home
            } else {
                None
            },
    {
        match self.coroutines.get(&coro) {
            Some(c) => c.home,
            None => None,
        }
    }

    /// Takes the record of a live coroutine out of the table.
    fn take(&mut self, coro: u64) -> (c: Coroutine)
        requires
            old(self)@.coroutines.contains_key(coro),
        ensures
            c == old(self)@.coroutines[coro],
            final(self)@ == (SchedulerView {
                coroutines: old(self)@.coroutines.remove(coro),
                ..old(self)@
            }),
    {
        let found = self.coroutines.remove(&coro);
        found.unwrap()
    }

    /// Files a record under its identity.
    fn put(&mut self, c: Coroutine)
        ensures
            final(self)@ == (SchedulerView {
                coroutines: old(self)@.coroutines.insert(c.id, c),
                ..old(self)@
            }),
    {
        self.coroutines.insert(c.id, c);
    }

    /// Makes a new coroutine: gives it the next identity, files its record,
    /// counts it as work and puts it onto the queue of `proc`.
    fn enroll(&mut self, proc: &mut Processor, opts: Options) -> (id: u64)
        requires
            old(self).wf(),
            old(self)@.next_id < u64::MAX,
        ensures
            final(self).wf(),
            id == old(self)@.next_id,
            final(self)@ == old(self)@.spawned(opts),
            final(proc)@ == (ProcessorView { queue: old(proc)@.queue.push(id), ..old(proc)@ }),
    {
        let id = self.next_id;
        self.put(Coroutine::bootstrap(id, opts));
        proof {
            assert(!old(self)@.coroutines.contains_key(id));
            assert(self.coroutines.len() == self.coroutines@.len());
        }
        self.work_counts = self.work_counts + 1;
        self.next_id = id + 1;
        proc.push(id);
        id
    }

    /// Spawn a new coroutine with options.
    ///
    /// The coroutine gets the next identity, counts as work, and goes onto
    /// the queue of `proc`, the processor that the spawner runs on. The
    /// handle for its outcome comes back, and with it the duty to wake one
    /// parked processor, now that the coroutine can be found in a queue.
    pub fn spawn_opts<T, P>(&mut self, proc: &mut Processor, opts: Options) -> (r: (
        JoinHandle<T, P>,
        Wake,
    ))
        requires
            old(self).wf(),
            old(self)@.next_id < u64::MAX,
        ensures
            final(self).wf(),
            final(self)@ == old(self)@.spawned(opts),
            final(proc)@ == (ProcessorView {
                queue: old(proc)@.queue.push(old(self)@.next_id),
                ..old(proc)@
            }),
            r.0@ == JoinView::<T, P>::fresh(old(self)@.next_id),
            r.1 == Wake::One,
    {
        let id = self.enroll(proc, opts);
        (JoinHandle::new(id), Wake::One)
    }

    /// Spawn a new coroutine with default options.
    pub fn spawn<T, P>(&mut self, proc: &mut Processor) -> (r: (JoinHandle<T, P>, Wake))
        requires
            old(self).wf(),
            old(self)@.next_id < u64::MAX,
        ensures
            final(self).wf(),
            final(self)@ == old(self)@.spawned(
                Options { stack_size: DEFAULT_STACK_SIZE, name: None },
            ),
            final(proc)@ == (ProcessorView {
                queue: old(proc)@.queue.push(old(self)@.next_id),
                ..old(proc)@
            }),
            r.0@ == JoinView::<T, P>::fresh(old(self)@.next_id),
            r.1 == Wake::One,
    {
        self.spawn_opts(proc, Options::new())
    }

    /// The processor `proc` takes up the coroutine that its `schedule` gave
    /// it. The coroutine must be ready and the processor free; a coroutine
    /// that runs is not ready, so no second processor can take it up.
    pub fn resume(&mut self, proc: &mut Processor, coro: u64)
        requires
            old(self).wf(),
            old(proc)@.id < old(self)@.handles.len(),
            old(proc)@.current is None,
            old(self)@.resumable(coro),
        ensures
            final(self).wf(),
            final(self)@ == old(self)@.resumed(coro, old(proc)@.id),
            final(proc)@ == (ProcessorView { current: Some(coro), ..old(proc)@ }),
    {
        let mut c = self.take(coro);
        c.resume(proc.id());
        self.put(c);
        proc.set_current(coro);
        proof {
            lemma_put_back(
                old(self)@.coroutines,
                coro,
                old(self)@.coroutines[coro].resumed(old(proc)@.id),
            );
        }
    }

    /// Suspend the current coroutine: the coroutine that runs on `proc`
    /// gives way. It stays ready and goes back onto the queue of `proc`, at
    /// the end that is popped first.
    pub fn sched(&mut self, proc: &mut Processor) -> (coro: u64)
        requires
            old(self).wf(),
            old(proc)@.current is Some,
            old(self)@.state(old(proc)@.current->0) == Some(State::Running),
        ensures
            final(self).wf(),
            Some(coro) == old(proc)@.current,
            final(self)@ == old(self)@.moved(coro, State::Runnable),
            final(proc)@ == (ProcessorView {
                queue: old(proc)@.queue.push(coro),
                current: None,
                ..old(proc)@
            }),
    {
        let coro = proc.take_current().unwrap();
        let mut c = self.take(coro);
        c.suspend_yield();
        self.put(c);
        proc.push(coro);
        proof {
            lemma_put_back(
                old(self)@.coroutines,
                coro,
                old(self)@.coroutines[coro].with_state(State::Runnable),
            );
        }
        coro
    }

    /// Block the current coroutine: the coroutine that runs on `proc` parks.
    /// It goes onto no queue; whoever is to ready it later gets its identity.
    pub fn block(&mut self, proc: &mut Processor) -> (coro: u64)
        requires
            old(self).wf(),
            old(proc)@.current is Some,
            old(self)@.state(old(proc)@.current->0) == Some(State::Running),
        ensures
            final(self).wf(),
            Some(coro) == old(proc)@.current,
            final(self)@ == old(self)@.moved(coro, State::Parked),
            final(proc)@ == (ProcessorView { current: None, ..old(proc)@ }),
    {
        let coro = proc.take_current().unwrap();
        let mut c = self.take(coro);
        c.suspend_block();
        self.put(c);
        proof {
            lemma_put_back(
                old(self)@.coroutines,
                coro,
                old(self)@.coroutines[coro].with_state(State::Parked),
            );
        }
        coro
    }

    /// A coroutine is ready for schedule: a parked coroutine is readied from
    /// the thread of `proc` and goes onto its queue, at the end that is
    /// popped first. Nobody is woken for it: `proc` is awake and has it.
    pub fn ready(&mut self, proc: &mut Processor, coro: u64)
        requires
            old(self).wf(),
            old(self)@.state(coro) == Some(State::Parked),
        ensures
            final(self).wf(),
            final(self)@ == old(self)@.moved(coro, State::Runnable),
            final(proc)@ == (ProcessorView {
                queue: old(proc)@.queue.push(coro),
                ..old(proc)@
            }),
    {
        let mut c = self.take(coro);
        c.ready();
        self.put(c);
        proc.push(coro);
        proof {
            lemma_put_back(
                old(self)@.coroutines,
                coro,
                old(self)@.coroutines[coro].with_state(State::Runnable),
            );
        }
    }

    /// A parked coroutine is readied from a thread that is no processor's.
    /// It is routed home: the result names the processor that ran it first
    /// and the message for that processor's inbox. One parked processor is to
    /// be woken once the message is sent.
    pub fn ready_external(&mut self, coro: u64) -> (r: (usize, ProcMessage, Wake))
        requires
            old(self).wf(),
            old(self)@.state(coro) == Some(State::Parked),
        ensures
            final(self).wf(),
            final(self)@ == old(self)@.moved(coro, State::Runnable),
            Some(r.0) == old(self)@.coroutines[coro].home,
            r.0 < old(self)@.handles.len(),
            r.1 == ProcMessage::ExternalReady(coro),
            r.2 == Wake::One,
    {
        let mut c = self.take(coro);
        c.ready();
        let target = c.home.unwrap();
        self.put(c);
        proof {
            lemma_put_back(
                old(self)@.coroutines,
                coro,
                old(self)@.coroutines[coro].with_state(State::Runnable),
            );
        }
        (target, ProcMessage::ExternalReady(coro), Wake::One)
    }

    /// A coroutine is finished: the coroutine that runs on `proc` has
    /// returned from its body. Its record is destroyed and the work counter
    /// goes down by one.
    pub fn finished(&mut self, proc: &mut Processor) -> (coro: u64)
        requires
            old(self).wf(),
            old(proc)@.current is Some,
            old(self)@.state(old(proc)@.current->0) == Some(State::Running),
        ensures
            final(self).wf(),
            Some(coro) == old(proc)@.current,
            final(self)@ == old(self)@.finished(coro),
            final(self)@.state(coro) == Some(State::Finished),
            final(proc)@ == (ProcessorView { current: None, ..old(proc)@ }),
    {
        let coro = proc.take_current().unwrap();
        let mut c = self.take(coro);
        c.finish();
        self.work_counts = self.work_counts - 1;
        coro
    }

    /// A processor that found nothing to run parks: it leaves the count of
    /// awake processors and then waits to be woken, also where it was the
    /// last one awake. The caller does the waiting, and calls `proc_wake`
    /// when it is over.
    pub fn proc_wait(&mut self)
        requires
            old(self).wf(),
            old(self)@.awake >= 1,
        ensures
            final(self).wf(),
            final(self)@ == old(self)@.parked(),
    {
        self.awake = self.awake - 1;
    }

    /// A parked processor was woken: it is counted as awake again.
    pub fn proc_wake(&mut self)
        requires
            old(self).wf(),
            old(self)@.awake < old(self)@.handles.len(),
        ensures
            final(self).wf(),
            final(self)@ == old(self)@.woken(),
    {
        self.awake = self.awake + 1;
    }

    /// Whether `event` is due in the phase that the run is in.
    pub fn expects(&self, event: RunEvent) -> (due: bool)
        ensures
            due == (next_phase(self@.phase, self@.workers, event) is Some),
    {
        match (self.phase, event) {
            (Phase::Configured, RunEvent::Begin) => true,
            (Phase::Starting(_), RunEvent::WorkerStarted) => true,
            (Phase::Running, RunEvent::MainFinished) => true,
            (Phase::ShuttingDown, RunEvent::WorkersJoined) => true,
            _ => false,
        }
    }

    /// A handle on each processor's queue, in the order of the table.
    fn clone_handles(&self) -> (handles: Vec<Stealer<u64>>)
        ensures
            handles@ == self@.handles,
    {
        let mut handles: Vec<Stealer<u64>> = Vec::new();
        let mut i: usize = 0;
        while i < self.proc_handles.len()
            invariant
                i <= self.proc_handles@.len(),
                handles@ == self.proc_handles@.take(i as int),
            decreases self.proc_handles@.len() - i,
        {
            handles.push(stealer_clone(&self.proc_handles[i]));
            proof {
                assert(self.proc_handles@.take(i + 1) =~= self.proc_handles@.take(i as int).push(
                    self.proc_handles@[i as int],
                ));
            }
            i += 1;
        }
        proof {
            assert(self.proc_handles@.take(i as int) =~= self.proc_handles@);
        }
        handles
    }

    /// Run the scheduler, one step at a time.
    ///
    /// The caller begins with `Begin`, does what the returned action says,
    /// and reports back with the event that the action ends in, until the
    /// action is `Finish`. Worker 0 starts first, with the main coroutine on
    /// its queue. Each later worker starts with the queues of the earlier
    /// ones as its neighbours, and the earlier ones are told of it before it
    /// starts. When the main coroutine's outcome has arrived, every worker is
    /// told to leave and every parked one is woken.
    pub fn run(&mut self, event: RunEvent) -> (action: RunAction)
        requires
            old(self).wf(),
            next_phase(old(self)@.phase, old(self)@.workers, event) is Some,
            event is Begin ==> old(self)@.next_id < u64::MAX,
        ensures
            final(self).wf(),
            run_result(old(self)@, event, action, final(self)@),
            Some(final(self)@.phase) == next_phase(old(self)@.phase, old(self)@.workers, event),
    {
        match event {
            RunEvent::Begin => {
                let mut processor = Processor::new(0);
                self.awake = 1;
                self.proc_handles.push(processor.stealer());
                self.phase = Phase::Starting(1);
                let main = self.enroll(&mut processor, Options::new());
                proof {
                    assert(processor@.queue =~= seq![main]);
                    assert(self@.handles =~= old(self)@.handles.push(processor@.stealer));
                }
                RunAction::StartMain { processor, main }
            },
            RunEvent::WorkerStarted => {
                let started = match self.phase {
                    Phase::Starting(started) => started,
                    _ => 0,
                };
                if started < self.expected_worker_count {
                    let processor = Processor::with_neighbors(started, self.clone_handles());
                    let stealer = processor.stealer();
                    let mut announce: Vec<ProcMessage> = Vec::new();
                    while announce.len() < started
                        invariant
                            announce@.len() <= started,
                            stealer == processor@.stealer,
                            forall|j: int|
                                0 <= j < announce@.len() ==> #[trigger] announce@[j]
                                    == ProcMessage::NewNeighbor(processor@.stealer),
                        decreases started - announce@.len(),
                    {
                        announce.push(ProcMessage::NewNeighbor(stealer_clone(&stealer)));
                    }
                    self.proc_handles.push(stealer);
                    self.awake = self.awake + 1;
                    self.phase = Phase::Starting(started + 1);
                    RunAction::StartWorker { processor, announce }
                } else {
                    self.phase = Phase::Running;
                    RunAction::AwaitMain
                }
            },
            RunEvent::MainFinished => {
                let mut messages: Vec<ProcMessage> = Vec::new();
                while messages.len() < self.expected_worker_count
                    invariant
                        messages@.len() <= self.expected_worker_count,
                        forall|j: int|
                            0 <= j < messages@.len() ==> #[trigger] messages@[j]
                                == ProcMessage::Shutdown,
                    decreases self.expected_worker_count - messages@.len(),
                {
                    messages.push(ProcMessage::Shutdown);
                }
                self.phase = Phase::ShuttingDown;
                RunAction::Shutdown { messages, wake: Wake::All }
            },
            RunEvent::WorkersJoined => {
                self.phase = Phase::Done;
                RunAction::Finish
            },
        }
    }
}

/// Taking a record out of the table and filing another under the same
/// identity is replacing it, and leaves the identities as they were.
proof fn lemma_put_back(before: Map<u64, Coroutine>, coro: u64, c: Coroutine)
    requires
        before.contains_key(coro),
    ensures
        before.remove(coro).insert(coro, c) == before.insert(coro, c),
        before.insert(coro, c).dom() == before.dom(),
{
    assert(before.remove(coro).insert(coro, c) =~= before.insert(coro, c));
    assert(before.insert(coro, c).dom() =~= before.dom());
}

/// The table of processors only grows during a run: a step leaves it as it
/// was or appends the handle of the processor that it hands out.
pub proof fn lemma_table_only_grows(
    pre: SchedulerView,
    event: RunEvent,
    action: RunAction,
    post: SchedulerView,
)
    requires
        run_result(pre, event, action, post),
    ensures
        pre.handles.len() <= post.handles.len() <= pre.handles.len() + 1,
        post.handles.take(pre.handles.len() as int) == pre.handles,
{
    assert(post.handles.take(pre.handles.len() as int) =~= pre.handles);
}

/// When a worker begins, the workers before it know it and it knows them:
/// its neighbours are the queues in the table, and each message announced
/// to an earlier worker adds the newcomer's queue to that worker's
/// neighbours.
pub proof fn lemma_newcomer_is_known(
    pre: SchedulerView,
    event: RunEvent,
    action: RunAction,
    post: SchedulerView,
    earlier: ProcessorView,
    j: int,
)
    requires
        pre.wf(),
        run_result(pre, event, action, post),
        action is StartWorker,
        0 <= j < action->announce@.len(),
    ensures
        action->StartWorker_processor@.neighbors == pre.handles,
        action->announce@.len() == pre.handles.len(),
        post.handles.last() == action->StartWorker_processor@.stealer,
        earlier.receive(action->announce@[j]).neighbors == earlier.neighbors.push(
            post.handles.last(),
        ),
{
}

/// The work counter counts the live coroutines: it is zero exactly when
/// every coroutine that was spawned has finished.
pub proof fn lemma_work_count_counts_live(s: SchedulerView)
    requires
        s.wf(),
    ensures
        s.work_count == s.coroutines.dom().len(),
        s.work_count == 0 <==> s.coroutines.dom() == Set::<u64>::empty(),
{
    if s.work_count == 0 {
        assert(s.coroutines.dom() =~= Set::<u64>::empty());
    }
}

/// A spawn and the end of the coroutine that it made leave the work counter
/// and the table of live coroutines as they were.
pub proof fn lemma_finish_undoes_spawn(s: SchedulerView, opts: Options)
    requires
        s.wf(),
        s.next_id < u64::MAX,
    ensures
        s.spawned(opts).work_count == s.work_count + 1,
        s.spawned(opts).finished(s.next_id).work_count == s.work_count,
        s.spawned(opts).finished(s.next_id).coroutines == s.coroutines,
        s.spawned(opts).finished(s.next_id).state(s.next_id) == Some(State::Finished),
{
    assert(!s.coroutines.contains_key(s.next_id));
    assert(s.coroutines.dom().insert(s.next_id).len() == s.coroutines.dom().len() + 1);
    assert(s.spawned(opts).finished(s.next_id).coroutines =~= s.coroutines);
}

/// The count of awake processors stays between zero and the number of
/// processors, which is at most the number of workers, and a processor that
/// parks and is woken leaves it as it was.
pub proof fn lemma_park_then_wake(s: SchedulerView)
    requires
        s.wf(),
        s.awake >= 1,
    ensures
        s.awake <= s.workers,
        s.parked().wf(),
        s.parked().awake < s.handles.len(),
        s.parked().woken() == s,
{
}

/// No coroutine is on two processors at once. Once a processor has taken a
/// coroutine up, the coroutine runs and is not ready, so that no processor
/// can take it up before it has given way or was readied again; the other
/// coroutines are as they were.
pub proof fn lemma_one_processor_at_a_time(s: SchedulerView, coro: u64, processor: usize)
    requires
        s.wf(),
        s.resumable(coro),
    ensures
        s.resumed(coro, processor).state(coro) == Some(State::Running),
        !s.resumed(coro, processor).resumable(coro),
        !s.resumed(coro, processor).moved(coro, State::Parked).resumable(coro),
        s.resumed(coro, processor).moved(coro, State::Runnable).resumable(coro),
        forall|other: u64|
            other != coro ==> s.resumed(coro, processor).state(other) == s.state(other),
{
}

} // verus!
