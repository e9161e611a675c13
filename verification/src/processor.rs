//! A processor: one run queue, a list of neighbours to steal from, and the
//! rule by which it picks its next coroutine.
//!
//! The processor's thread calls `drain_messages` with what its inbox held and
//! then `schedule`, and does what the returned `Action` says: it runs the
//! coroutine, or looks for I/O and parks, or leaves.

use vstd::prelude::*;
use deque::Stealer;
use crate::run_queue::{stealer_steal, RunQueue, Steal};

verus! {

/// A control message in a processor's inbox.
#[derive(Debug)]
pub enum ProcMessage {
    /// Another processor has started; its queue may be stolen from.
    NewNeighbor(Stealer<u64>),
    /// The scheduler is going down.
    Shutdown,
    /// A coroutine was readied from outside the processors' threads.
    ExternalReady(u64),
}

/// What a processor does next.
#[derive(Debug, PartialEq, Eq)]
pub enum Action {
    /// Run this coroutine. `stolen` tells whether it came from a neighbour.
    Run { coro: u64, stolen: bool },
    /// Nothing to run here or at the neighbours: poll for I/O, then park.
    Idle,
    /// Leave the loop. The coroutines that were still queued are dropped.
    Exit { dropped: Vec<u64> },
}

/// A processor.
pub struct Processor {
    id: usize,
    queue: RunQueue,
    neighbors: Vec<Stealer<u64>>,
    cursor: usize,
    shutdown: bool,
    current: Option<u64>,
}

/// A processor as a value.
pub struct ProcessorView {
    /// Its index in the scheduler's table.
    pub id: usize,
    /// The coroutines pending on its run queue, oldest first.
    pub queue: Seq<u64>,
    /// The handle on its own queue that it gives to thieves.
    pub stealer: Stealer<u64>,
    /// The queues it steals from.
    pub neighbors: Seq<Stealer<u64>>,
    /// The neighbour it asks first.
    pub cursor: usize,
    /// Whether it has been told to leave.
    pub shutdown: bool,
    /// The coroutine it is running.
    pub current: Option<u64>,
    /// How many coroutines it has popped from its own queue so far.
    pub taken: nat,
}

impl ProcessorView {
    /// The cursor points at a neighbour, or is zero where there is none.
    pub open spec fn wf(self) -> bool {
        if self.neighbors.len() == 0 {
            self.cursor == 0
        } else {
            self.cursor < self.neighbors.len()
        }
    }

    /// The neighbour after the one under the cursor, going round.
    pub open spec fn next_cursor(self) -> usize {
        if self.cursor + 1 >= self.neighbors.len() {
            0
        } else {
            (self.cursor + 1) as usize
        }
    }

    /// The processor after it has taken one message from its inbox.
    pub open spec fn receive(self, msg: ProcMessage) -> ProcessorView {
        match msg {
            ProcMessage::NewNeighbor(stealer) => ProcessorView {
                neighbors: self.neighbors.push(stealer),
                ..self
            },
            ProcMessage::Shutdown => ProcessorView { shutdown: true, ..self },
            ProcMessage::ExternalReady(coro) => ProcessorView {
                queue: self.queue.push(coro),
                ..self
            },
        }
    }

    /// The processor after it has taken these messages, first to last.
    pub open spec fn receive_all(self, msgs: Seq<ProcMessage>) -> ProcessorView
        decreases msgs.len(),
    {
        if msgs.len() == 0 {
            self
        } else {
            self.receive_all(msgs.drop_last()).receive(msgs.last())
        }
    }

    /// The processor after one attempt to steal from the neighbour under the
    /// cursor: on a miss the cursor moves on, on a hit it stays.
    pub open spec fn after_steal(self, outcome: Steal) -> ProcessorView {
        match outcome {
            Steal::Taken(_) => self,
            _ => ProcessorView { cursor: self.next_cursor(), ..self },
        }
    }
}

/// What `schedule` may return on a processor `pre`, and the processor `post`
/// that it leaves.
///
/// A processor that was told to leave empties its queue and exits. Otherwise
/// local work comes first: a coroutine that was not stolen is the one pushed
/// last. Only when the queue gave nothing does the processor steal, and only
/// when a full round of the neighbours gave nothing is it idle, with the
/// cursor back where it was. No coroutine is lost on the way: whatever was
/// popped from the queue is the one to run, or is among the dropped.
pub open spec fn schedule_result(pre: ProcessorView, a: Action, post: ProcessorView) -> bool {
    match a {
        Action::Exit { dropped } => {
            &&& pre.shutdown
            &&& post == ProcessorView {
                queue: Seq::<u64>::empty(),
                taken: pre.taken + dropped@.len(),
                ..pre
            }
            &&& drained(pre.queue, dropped@)
        },
        Action::Run { coro, stolen } => {
            &&& !pre.shutdown
            &&& if stolen {
                &&& pre.neighbors.len() > 0
                &&& post.cursor < pre.neighbors.len()
                &&& post == ProcessorView {
                    queue: Seq::<u64>::empty(),
                    cursor: post.cursor,
                    ..pre
                }
            } else {
                &&& pre.queue.len() > 0
                &&& coro == pre.queue.last()
                &&& post == ProcessorView {
                    queue: pre.queue.drop_last(),
                    taken: pre.taken + 1,
                    ..pre
                }
            }
        },
        Action::Idle => {
            &&& !pre.shutdown
            &&& post == ProcessorView { queue: Seq::<u64>::empty(), ..pre }
        },
    }
}

/// `dropped` is what popping `queue` until it is empty gives: its youngest
/// coroutines, youngest first, down to where thieves had taken the rest.
pub open spec fn drained(queue: Seq<u64>, dropped: Seq<u64>) -> bool {
    &&& dropped.len() <= queue.len()
    &&& forall|i: int|
        0 <= i < dropped.len() ==> #[trigger] dropped[i] == queue[queue.len() - 1 - i]
}

impl View for Processor {
    type V = ProcessorView;

    closed spec fn view(&self) -> ProcessorView {
        ProcessorView {
            id: self.id,
            queue: self.queue@,
            stealer: self.queue.handle(),
            neighbors: self.neighbors@,
            cursor: self.cursor,
            shutdown: self.shutdown,
            current: self.current,
            taken: self.queue.taken(),
        }
    }
}

impl Processor {
    /// Whether the processor is well formed.
    pub open spec fn wf(&self) -> bool {
        self@.wf()
    }

    /// A processor without neighbours, with an empty queue.
    pub fn new(id: usize) -> (p: Processor)
        ensures
            p.wf(),
            p@.id == id,
            p@.queue == Seq::<u64>::empty(),
            p@.neighbors == Seq::<Stealer<u64>>::empty(),
            p@.cursor == 0,
            !p@.shutdown,
            p@.current is None,
            p@.taken == 0,
    {
        Processor {
            id,
            queue: RunQueue::new(),
            neighbors: Vec::new(),
            cursor: 0,
            shutdown: false,
            current: None,
        }
    }

    /// A processor that starts with these neighbours, with an empty queue.
    pub fn with_neighbors(id: usize, neighbors: Vec<Stealer<u64>>) -> (p: Processor)
        ensures
            p.wf(),
            p@.id == id,
            p@.queue == Seq::<u64>::empty(),
            p@.neighbors == neighbors@,
            p@.cursor == 0,
            !p@.shutdown,
            p@.current is None,
            p@.taken == 0,
    {
        Processor {
            id,
            queue: RunQueue::new(),
            neighbors,
            cursor: 0,
            shutdown: false,
            current: None,
        }
    }

    /// The processor's index in the scheduler's table.
    pub fn id(&self) -> (r: usize)
        ensures
            r == self@.id,
    {
        self.id
    }

    /// Whether the processor has been told to leave.
    pub fn is_shutdown(&self) -> (r: bool)
        ensures
            r == self@.shutdown,
    {
        self.shutdown
    }

    /// The coroutine that the processor is running.
    pub fn current(&self) -> (r: Option<u64>)
        ensures
            r == self@.current,
    {
        self.current
    }

    /// How many neighbours the processor steals from.
    pub fn neighbor_count(&self) -> (r: usize)
        ensures
            r == self@.neighbors.len(),
    {
        self.neighbors.len()
    }

    /// The index of the neighbour that is asked first.
    pub fn cursor(&self) -> (r: usize)
        ensures
            r == self@.cursor,
    {
        self.cursor
    }

    /// A handle through which another processor steals from this one.
    pub fn stealer(&self) -> (s: Stealer<u64>)
        ensures
            s == self@.stealer,
    {
        self.queue.stealer()
    }

    /// Puts a ready coroutine on the local queue, at the end that is popped first.
    pub fn push(&mut self, coro: u64)
        ensures
            final(self)@ == (ProcessorView { queue: old(self)@.queue.push(coro), ..old(self)@ }),
    {
        self.queue.push(coro);
    }

    /// Makes `coro` the running coroutine.
    pub(crate) fn set_current(&mut self, coro: u64)
        ensures
            final(self)@ == (ProcessorView { current: Some(coro), ..old(self)@ }),
    {
        self.current = Some(coro);
    }

    /// Forgets the running coroutine and returns it.
    pub(crate) fn take_current(&mut self) -> (r: Option<u64>)
        ensures
            r == old(self)@.current,
            final(self)@ == (ProcessorView { current: None, ..old(self)@ }),
    {
        self.current.take()
    }

    /// Takes one message from the inbox.
    pub fn handle_message(&mut self, msg: ProcMessage)
        requires
            old(self).wf(),
        ensures
            final(self).wf(),
            final(self)@ == old(self)@.receive(msg),
    {
        match msg {
            ProcMessage::NewNeighbor(stealer) => {
                self.neighbors.push(stealer);
            },
            ProcMessage::Shutdown => {
                self.shutdown = true;
            },
            ProcMessage::ExternalReady(coro) => {
                self.queue.push(coro);
            },
        }
    }

    /// Takes the messages that the inbox held, first to last.
    pub fn drain_messages(&mut self, msgs: Vec<ProcMessage>)
        requires
            old(self).wf(),
        ensures
            final(self).wf(),
            final(self)@ == old(self)@.receive_all(msgs@),
    {
        let ghost all = msgs@;
        let ghost start = self@;
        for msg in it: msgs.into_iter()
            invariant
                self.wf(),
                it.seq() == all,
                self@ == start.receive_all(all.take(it.index() as int)),
        {
            proof {
                let done = it.index() as int;
                assert(all.take(done + 1).drop_last() =~= all.take(done));
                assert(all.take(done + 1).last() == msg);
            }
            self.handle_message(msg);
        }
        proof {
            assert(all.take(all.len() as int) =~= all);
        }
    }

    /// Takes in the outcome of one attempt to steal from the neighbour under
    /// the cursor. A miss moves the cursor to the next neighbour.
    pub fn on_steal(&mut self, outcome: Steal) -> (r: Option<u64>)
        requires
            old(self).wf(),
            old(self)@.neighbors.len() > 0,
        ensures
            final(self).wf(),
            final(self)@ == old(self)@.after_steal(outcome),
            r == match outcome {
                Steal::Taken(c) => Some(c),
                _ => None::<u64>,
            },
    {
        let r = outcome.taken();
        if r.is_none() {
            let n = self.neighbors.len();
            self.cursor = if self.cursor >= n - 1 {
                0
            } else {
                self.cursor + 1
            };
        }
        r
    }

    /// Empties the local queue, youngest coroutine first. Every coroutine
    /// that came off the queue is in the result.
    pub fn drain_queue(&mut self) -> (dropped: Vec<u64>)
        ensures
            final(self)@ == (ProcessorView {
                queue: Seq::<u64>::empty(),
                taken: old(self)@.taken + dropped@.len(),
                ..old(self)@
            }),
            drained(old(self)@.queue, dropped@),
    {
        let ghost start = self@;
        let mut dropped: Vec<u64> = Vec::new();
        let mut more = true;
        proof {
            assert(start.queue.take(start.queue.len() as int) =~= start.queue);
        }
        while more
            invariant
                drained(start.queue, dropped@),
                more ==> self@ == (ProcessorView {
                    queue: start.queue.take(start.queue.len() - dropped@.len()),
                    taken: start.taken + dropped@.len(),
                    ..start
                }),
                !more ==> self@ == (ProcessorView {
                    queue: Seq::<u64>::empty(),
                    taken: start.taken + dropped@.len(),
                    ..start
                }),
            decreases self@.queue.len() + if more { 1int } else { 0int },
        {
            let ghost before = self@.queue;
            match self.queue.pop() {
                Some(coro) => {
                    proof {
                        assert(before.drop_last() =~= start.queue.take(
                            start.queue.len() - dropped@.len() - 1,
                        ));
                    }
                    dropped.push(coro);
                },
                None => {
                    more = false;
                },
            }
        }
        dropped
    }

    /// Picks what to do next: leave, run a local coroutine, run a stolen one,
    /// or idle. Up to one attempt is made on each neighbour, starting at the
    /// cursor.
    pub fn schedule(&mut self) -> (a: Action)
        requires
            old(self).wf(),
        ensures
            final(self).wf(),
            schedule_result(old(self)@, a, final(self)@),
    {
        if self.shutdown {
            let dropped = self.drain_queue();
            return Action::Exit { dropped };
        }
        match self.queue.pop() {
            Some(coro) => {
                return Action::Run { coro, stolen: false };
            },
            None => {},
        }
        let ghost start = self@;
        let n = self.neighbors.len();
        let mut tried: usize = 0;
        while tried < n
            invariant
                self.wf(),
                n == start.neighbors.len(),
                tried <= n,
                start.wf(),
                !start.shutdown,
                start == (ProcessorView { queue: Seq::<u64>::empty(), ..old(self)@ }),
                self@ == (ProcessorView { cursor: self@.cursor, ..start }),
                self@.cursor as int == if start.cursor + tried < n {
                    start.cursor + tried
                } else {
                    start.cursor + tried - n
                },
            decreases n - tried,
        {
            let outcome = stealer_steal(&self.neighbors[self.cursor]);
            match self.on_steal(outcome) {
                Some(coro) => {
                    return Action::Run { coro, stolen: true };
                },
                None => {},
            }
            tried += 1;
        }
        Action::Idle
    }
}

/// Taking messages one batch after another is taking them all at once.
pub proof fn lemma_receive_all_concat(p: ProcessorView, a: Seq<ProcMessage>, b: Seq<ProcMessage>)
    ensures
        p.receive_all(a + b) == p.receive_all(a).receive_all(b),
    decreases b.len(),
{
    if b.len() == 0 {
        assert(a + b =~= a);
    } else {
        lemma_receive_all_concat(p, a, b.drop_last());
        assert((a + b).drop_last() =~= a + b.drop_last());
        assert((a + b).last() == b.last());
    }
}

/// A processor that has taken a shutdown message leaves at its next
/// decision, whatever work there is, and leaves nothing queued.
pub proof fn lemma_shutdown_exits(p: ProcessorView, a: Action, post: ProcessorView)
    requires
        schedule_result(p.receive(ProcMessage::Shutdown), a, post),
    ensures
        a is Exit,
        post.shutdown,
        post.queue == Seq::<u64>::empty(),
{
}

/// What a batch of messages does to a processor, taken as a whole. It is
/// told to leave exactly if it was before or the batch holds a shutdown. Its
/// queue and its neighbours grow at the end and lose nothing. Its cursor
/// and what it runs stay.
pub proof fn lemma_receive_all_effect(p: ProcessorView, msgs: Seq<ProcMessage>)
    requires
        p.wf(),
    ensures
        p.receive_all(msgs).wf(),
        p.receive_all(msgs).id == p.id,
        p.receive_all(msgs).stealer == p.stealer,
        p.receive_all(msgs).cursor == p.cursor,
        p.receive_all(msgs).current == p.current,
        p.receive_all(msgs).shutdown <==> p.shutdown || exists|i: int|
            0 <= i < msgs.len() && #[trigger] msgs[i] is Shutdown,
        p.queue.is_prefix_of(p.receive_all(msgs).queue),
        p.neighbors.is_prefix_of(p.receive_all(msgs).neighbors),
        p.receive_all(msgs).queue.len() + p.receive_all(msgs).neighbors.len() <= p.queue.len()
            + p.neighbors.len() + msgs.len(),
    decreases msgs.len(),
{
    if msgs.len() > 0 {
        let earlier = msgs.drop_last();
        lemma_receive_all_effect(p, earlier);
        let before = p.receive_all(earlier);
        if before.shutdown && !p.shutdown {
            let i = choose|i: int| 0 <= i < earlier.len() && #[trigger] earlier[i] is Shutdown;
            assert(msgs[i] is Shutdown);
        }
        if msgs.last() is Shutdown {
            assert(msgs[msgs.len() - 1] is Shutdown);
        }
        if p.receive_all(msgs).shutdown && !before.shutdown {
            assert(msgs.last() is Shutdown);
        }
        if exists|i: int| 0 <= i < msgs.len() && #[trigger] msgs[i] is Shutdown {
            let i = choose|i: int| 0 <= i < msgs.len() && #[trigger] msgs[i] is Shutdown;
            if i < earlier.len() {
                assert(earlier[i] is Shutdown);
            }
        }
    }
}

} // verus!
