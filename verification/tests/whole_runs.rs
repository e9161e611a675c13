use coio::coroutine::State;
use coio::processor::{Action, ProcMessage, Processor};
use coio::join::{JoinHandle, JoinStatus};
use coio::phase::{Phase, RunEvent};
use coio::scheduler::{RunAction, Scheduler, Wake};
use std::any::Any;
use std::collections::HashMap;

type Payload = Box<dyn Any + Send>;

/// A scheduler with its workers, driven from one thread.
struct World {
    sched: Scheduler,
    procs: Vec<Processor>,
    inboxes: Vec<Vec<ProcMessage>>,
    main: u64,
}

fn boot(workers: usize) -> World {
    let mut sched = Scheduler::new().with_workers(workers);
    let (first, main) = match sched.run(RunEvent::Begin) {
        RunAction::StartMain { processor, main } => (processor, main),
        _ => panic!("a run begins with the main worker"),
    };
    let mut procs = vec![first];
    let mut inboxes: Vec<Vec<ProcMessage>> = vec![Vec::new()];
    loop {
        match sched.run(RunEvent::WorkerStarted) {
            RunAction::StartWorker { processor, announce } => {
                for (inbox, msg) in inboxes.iter_mut().zip(announce) {
                    inbox.push(msg);
                }
                procs.push(processor);
                inboxes.push(Vec::new());
            }
            RunAction::AwaitMain => break,
            _ => panic!("workers start before anything else"),
        }
    }
    World { sched, procs, inboxes, main }
}

impl World {
    /// One turn of a worker's loop, up to the decision.
    fn turn(&mut self, worker: usize) -> Action {
        let msgs = std::mem::take(&mut self.inboxes[worker]);
        self.procs[worker].drain_messages(msgs);
        self.procs[worker].schedule()
    }

    /// The end of the run: what each worker dropped on its way out.
    fn shut_down(&mut self) -> Vec<u64> {
        let messages = match self.sched.run(RunEvent::MainFinished) {
            RunAction::Shutdown { messages, wake } => {
                assert_eq!(wake, Wake::All);
                messages
            }
            _ => panic!("the end of main shuts the workers down"),
        };
        for (inbox, msg) in self.inboxes.iter_mut().zip(messages) {
            inbox.push(msg);
        }
        let mut dropped_all = Vec::new();
        for worker in 0..self.procs.len() {
            match self.turn(worker) {
                Action::Exit { dropped } => dropped_all.extend(dropped),
                _ => panic!("a processor that was told to leave leaves"),
            }
        }
        assert!(matches!(self.sched.run(RunEvent::WorkersJoined), RunAction::Finish));
        assert_eq!(self.sched.phase(), Phase::Done);
        dropped_all
    }
}

#[test]
fn test_join_basic() {
    let mut world = boot(1);
    let main = world.main;
    let mut main_handle: JoinHandle<(), Payload> = JoinHandle::new(main);

    // The main coroutine runs and spawns a coroutine that returns 1.
    assert_eq!(world.turn(0), Action::Run { coro: main, stolen: false });
    world.sched.resume(&mut world.procs[0], main);
    let (mut guard, wake): (JoinHandle<i32, Payload>, Wake) =
        world.sched.spawn(&mut world.procs[0]);
    assert_eq!(wake, Wake::One);

    // It joins: nothing is there yet, so it leaves word and parks.
    assert_eq!(guard.status(), JoinStatus::Pending);
    assert!(guard.wait(main));
    assert_eq!(world.sched.block(&mut world.procs[0]), main);

    // The spawned coroutine runs to its end and readies the joiner.
    let child = guard.coroutine();
    assert_eq!(world.turn(0), Action::Run { coro: child, stolen: false });
    world.sched.resume(&mut world.procs[0], child);
    assert_eq!(guard.deliver(Ok(1)), (true, Some(main)));
    world.sched.ready(&mut world.procs[0], main);
    assert_eq!(world.sched.finished(&mut world.procs[0]), child);

    // The main coroutine is back and joins.
    assert_eq!(world.turn(0), Action::Run { coro: main, stolen: false });
    world.sched.resume(&mut world.procs[0], main);
    assert_eq!(1, guard.join().unwrap());
    assert_eq!(main_handle.deliver(Ok(())), (true, None));
    world.sched.finished(&mut world.procs[0]);

    assert_eq!(main_handle.status(), JoinStatus::Ready);
    assert!(world.shut_down().is_empty());
    main_handle.join().unwrap();
    assert_eq!(world.sched.work_count(), 0);
}

#[test]
fn one_worker_spawn_and_join() {
    let mut world = boot(1);
    let main = world.main;
    let mut main_handle: JoinHandle<Result<i32, String>, Payload> = JoinHandle::new(main);

    assert_eq!(world.turn(0), Action::Run { coro: main, stolen: false });
    world.sched.resume(&mut world.procs[0], main);
    let (mut h, _): (JoinHandle<i32, String>, Wake) = world.sched.spawn(&mut world.procs[0]);
    world.sched.block(&mut world.procs[0]);

    let child = h.coroutine();
    assert_eq!(world.turn(0), Action::Run { coro: child, stolen: false });
    world.sched.resume(&mut world.procs[0], child);
    assert!(h.deliver(Ok(1)).0);
    world.sched.ready(&mut world.procs[0], main);
    world.sched.finished(&mut world.procs[0]);

    assert_eq!(world.turn(0), Action::Run { coro: main, stolen: false });
    world.sched.resume(&mut world.procs[0], main);
    let joined = h.join();
    assert!(main_handle.deliver(Ok(joined)).0);
    world.sched.finished(&mut world.procs[0]);

    world.shut_down();
    assert_eq!(main_handle.join().unwrap(), Ok(1));
}

#[test]
fn four_workers_ten_thousand_coroutines() {
    let count: u64 = 10_000;
    let mut world = boot(4);
    let main = world.main;
    let mut handles: HashMap<u64, JoinHandle<u64, Payload>> = HashMap::new();
    let mut index_of: HashMap<u64, u64> = HashMap::new();
    let mut stolen_runs = 0u64;

    // The main coroutine spawns them all and then waits.
    assert_eq!(world.turn(0), Action::Run { coro: main, stolen: false });
    world.sched.resume(&mut world.procs[0], main);
    for index in 0..count {
        let (handle, wake): (JoinHandle<u64, Payload>, Wake) =
            world.sched.spawn(&mut world.procs[0]);
        assert_eq!(wake, Wake::One);
        index_of.insert(handle.coroutine(), index);
        handles.insert(handle.coroutine(), handle);
    }
    assert_eq!(world.sched.work_count(), count as usize + 1);
    world.sched.block(&mut world.procs[0]);

    // The workers take turns until nobody finds anything.
    let mut idle_in_a_row = 0;
    let mut worker = 0;
    while idle_in_a_row < 4 {
        match world.turn(worker) {
            Action::Run { coro, stolen } => {
                idle_in_a_row = 0;
                if stolen {
                    stolen_runs += 1;
                }
                assert_eq!(world.sched.state(coro), Some(State::Runnable));
                world.sched.resume(&mut world.procs[worker], coro);
                assert!(handles.get_mut(&coro).unwrap().deliver(Ok(index_of[&coro])).0);
                assert_eq!(world.sched.finished(&mut world.procs[worker]), coro);
            }
            Action::Idle => idle_in_a_row += 1,
            Action::Exit { .. } => panic!("nobody was told to leave"),
        }
        worker = (worker + 1) % 4;
    }
    assert!(stolen_runs > 0);
    assert_eq!(world.sched.work_count(), 1);

    // The main coroutine is readied and joins them all.
    world.sched.ready(&mut world.procs[0], main);
    assert_eq!(world.turn(0), Action::Run { coro: main, stolen: false });
    world.sched.resume(&mut world.procs[0], main);
    let mut values: Vec<u64> = Vec::new();
    for handle in handles.values_mut() {
        assert_eq!(handle.status(), JoinStatus::Ready);
        values.push(handle.join().ok().unwrap());
        assert_eq!(handle.status(), JoinStatus::Closed);
    }
    world.sched.finished(&mut world.procs[0]);
    values.sort();
    assert_eq!(values, (0..count).collect::<Vec<u64>>());
    assert_eq!(world.sched.work_count(), 0);
    assert!(world.shut_down().is_empty());
}

#[test]
fn blocked_coroutine_resumes_on_whichever_worker() {
    for resumer in 0..2usize {
        let mut world = boot(2);
        let main = world.main;
        assert_eq!(world.turn(0), Action::Run { coro: main, stolen: false });
        world.sched.resume(&mut world.procs[0], main);
        let (mut a, _): (JoinHandle<&str, Payload>, Wake) = world.sched.spawn(&mut world.procs[0]);
        let (mut b, _): (JoinHandle<(), Payload>, Wake) = world.sched.spawn(&mut world.procs[0]);
        world.sched.block(&mut world.procs[0]);

        // Worker 1 steals the older one, A, which blocks on its channel.
        assert_eq!(world.turn(1), Action::Run { coro: a.coroutine(), stolen: true });
        world.sched.resume(&mut world.procs[1], a.coroutine());
        assert_eq!(world.sched.block(&mut world.procs[1]), a.coroutine());
        assert_eq!(world.sched.state(a.coroutine()), Some(State::Parked));

        // Worker 0 runs B, which sends: A is readied where B runs.
        assert_eq!(world.turn(0), Action::Run { coro: b.coroutine(), stolen: false });
        world.sched.resume(&mut world.procs[0], b.coroutine());
        world.sched.ready(&mut world.procs[0], a.coroutine());
        assert!(b.deliver(Ok(())).0);
        world.sched.finished(&mut world.procs[0]);

        // Either worker may pick A up.
        let action = world.turn(resumer);
        assert_eq!(action, Action::Run { coro: a.coroutine(), stolen: resumer == 1 });
        world.sched.resume(&mut world.procs[resumer], a.coroutine());
        assert_eq!(world.sched.home(a.coroutine()), Some(1));
        assert!(a.deliver(Ok("received")).0);
        world.sched.finished(&mut world.procs[resumer]);

        assert_eq!(a.join().ok(), Some("received"));
        assert_eq!(b.join().ok(), Some(()));
        assert_eq!(world.sched.work_count(), 1);
    }
}

#[test]
fn panic_is_delivered_and_spawning_goes_on() {
    let mut world = boot(1);
    let main = world.main;
    assert_eq!(world.turn(0), Action::Run { coro: main, stolen: false });
    world.sched.resume(&mut world.procs[0], main);
    let (mut doomed, _): (JoinHandle<i32, Payload>, Wake) = world.sched.spawn(&mut world.procs[0]);
    world.sched.block(&mut world.procs[0]);

    let coro = doomed.coroutine();
    assert_eq!(world.turn(0), Action::Run { coro, stolen: false });
    world.sched.resume(&mut world.procs[0], coro);
    assert!(doomed.deliver(Err(Box::new("boom"))).0);
    world.sched.ready(&mut world.procs[0], main);
    world.sched.finished(&mut world.procs[0]);

    assert_eq!(world.turn(0), Action::Run { coro: main, stolen: false });
    world.sched.resume(&mut world.procs[0], main);
    match doomed.join() {
        Ok(_) => panic!("the coroutine panicked"),
        Err(payload) => assert_eq!(payload.downcast_ref::<&str>(), Some(&"boom")),
    }

    // The scheduler goes on accepting spawns.
    let (mut next, wake): (JoinHandle<i32, Payload>, Wake) = world.sched.spawn(&mut world.procs[0]);
    assert_eq!(wake, Wake::One);
    world.sched.block(&mut world.procs[0]);
    assert_eq!(world.turn(0), Action::Run { coro: next.coroutine(), stolen: false });
    world.sched.resume(&mut world.procs[0], next.coroutine());
    assert!(next.deliver(Ok(2)).0);
    world.sched.finished(&mut world.procs[0]);
    assert_eq!(next.join().ok(), Some(2));
    assert_eq!(world.sched.work_count(), 1);
}

#[test]
fn ping_pong_through_yields() {
    let items: u64 = 1_000;
    let mut world = boot(2);
    let main = world.main;
    assert_eq!(world.turn(0), Action::Run { coro: main, stolen: false });
    world.sched.resume(&mut world.procs[0], main);
    let (mut producer, _): (JoinHandle<u64, Payload>, Wake) =
        world.sched.spawn(&mut world.procs[0]);
    let (mut consumer, _): (JoinHandle<u64, Payload>, Wake) =
        world.sched.spawn(&mut world.procs[0]);
    world.sched.block(&mut world.procs[0]);

    // One slot between them: the producer fills it and gives way, the
    // consumer empties it and gives way.
    let mut slot: Option<u64> = None;
    let mut produced: u64 = 0;
    let mut consumed: u64 = 0;
    let mut worker = 0;
    let mut idle_in_a_row = 0;
    while idle_in_a_row < 2 {
        match world.turn(worker) {
            Action::Run { coro, .. } => {
                idle_in_a_row = 0;
                world.sched.resume(&mut world.procs[worker], coro);
                if coro == producer.coroutine() {
                    if slot.is_none() && produced < items {
                        slot = Some(produced);
                        produced += 1;
                    }
                    if produced == items && slot.is_none() {
                        assert!(producer.deliver(Ok(produced)).0);
                        world.sched.finished(&mut world.procs[worker]);
                    } else {
                        assert_eq!(world.sched.sched(&mut world.procs[worker]), coro);
                    }
                } else {
                    assert_eq!(coro, consumer.coroutine());
                    if let Some(item) = slot.take() {
                        assert_eq!(item, consumed);
                        consumed += 1;
                    }
                    if consumed == items {
                        assert!(consumer.deliver(Ok(consumed)).0);
                        world.sched.finished(&mut world.procs[worker]);
                    } else {
                        assert_eq!(world.sched.sched(&mut world.procs[worker]), coro);
                    }
                }
            }
            Action::Idle => idle_in_a_row += 1,
            Action::Exit { .. } => panic!("nobody was told to leave"),
        }
        worker = (worker + 1) % 2;
    }
    assert_eq!(producer.join().ok(), Some(1_000));
    assert_eq!(consumer.join().ok(), Some(1_000));

    world.sched.ready(&mut world.procs[0], main);
    assert_eq!(world.turn(0), Action::Run { coro: main, stolen: false });
    world.sched.resume(&mut world.procs[0], main);
    world.sched.finished(&mut world.procs[0]);
    assert_eq!(world.sched.work_count(), 0);
    assert!(world.shut_down().is_empty());
}

#[test]
fn yielder_runs_again_before_older_work() {
    let mut world = boot(1);
    let main = world.main;
    assert_eq!(world.turn(0), Action::Run { coro: main, stolen: false });
    world.sched.resume(&mut world.procs[0], main);
    let (b, _): (JoinHandle<(), Payload>, Wake) = world.sched.spawn(&mut world.procs[0]);
    // Main pushed B and then gives way: main went on last, so it is first.
    world.sched.sched(&mut world.procs[0]);
    assert_eq!(world.turn(0), Action::Run { coro: main, stolen: false });
    world.sched.resume(&mut world.procs[0], main);
    // Main pushes nothing and parks: now B runs.
    world.sched.block(&mut world.procs[0]);
    assert_eq!(world.turn(0), Action::Run { coro: b.coroutine(), stolen: false });
}

#[test]
fn survivors_are_dropped_at_shutdown() {
    let mut world = boot(2);
    let main = world.main;
    assert_eq!(world.turn(0), Action::Run { coro: main, stolen: false });
    world.sched.resume(&mut world.procs[0], main);
    let mut handles: Vec<JoinHandle<(), Payload>> = Vec::new();
    for _ in 0..3 {
        let (handle, _) = world.sched.spawn(&mut world.procs[0]);
        handles.push(handle);
    }
    // Main ends while its children have not run.
    world.sched.finished(&mut world.procs[0]);
    let mut dropped = world.shut_down();
    dropped.sort();
    assert_eq!(dropped, vec![1, 2, 3]);
    for handle in handles.iter_mut() {
        if dropped.contains(&handle.coroutine()) {
            handle.close();
        }
        assert_eq!(handle.status(), JoinStatus::Closed);
        assert!(handle.try_join().is_none());
    }
    assert_eq!(world.sched.work_count(), 3);
}
