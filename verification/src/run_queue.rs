//! The run queue of a processor: a work-stealing deque of coroutine identities.
//!
//! The owner pushes and pops at one end; thieves take from the other end
//! through handles that may live on other threads. What the owner can know of
//! its queue is therefore less than its contents: it knows what it has pushed
//! and not popped, and learns from an empty `pop` that thieves took the rest.

use vstd::prelude::*;
use deque::{Stealer, Stolen, Worker};

verus! {

/// `deque::Worker`: the owner's handle on a deque. There is one for each
/// deque, and it stays on one thread at a time. Nothing inside it is seen.
#[verifier::external_type_specification]
#[verifier::external_body]
#[verifier::reject_recursive_types(T)]
pub struct ExWorker<T: Send>(Worker<T>);

/// `deque::Stealer`: a thief's handle on a deque. It can be cloned and
/// sent to other threads. Nothing inside it is seen.
#[verifier::external_type_specification]
#[verifier::external_body]
#[verifier::reject_recursive_types(T)]
pub struct ExStealer<T: Send>(Stealer<T>);

/// The values that were pushed through a worker handle and that no `pop` has
/// returned since, oldest first. Thieves may already hold a prefix of them;
/// once a `pop` comes back empty they are known to be gone.
pub uninterp spec fn pending(w: Worker<u64>) -> Seq<u64>;

/// What one attempt to steal brought back.
#[derive(Clone, Copy, Debug, PartialEq, Eq, Structural)]
pub enum Steal {
    /// The victim's queue was empty.
    Empty,
    /// Another thief or the owner won the race for the item.
    Retry,
    /// The oldest item of the victim's queue.
    Taken(u64),
}

impl Steal {
    /// The stolen coroutine, if there is one. Both ways of coming back
    /// empty-handed count the same: the caller moves on to the next victim.
    pub fn taken(self) -> (r: Option<u64>)
        ensures
            r == match self {
                Steal::Taken(c) => Some(c),
                _ => None::<u64>,
            },
    {
        match self {
            Steal::Taken(c) => Some(c),
            _ => None,
        }
    }
}

/// `deque::new`: a fresh deque, as its two handles. Nothing is pending on it.
#[verifier::external_body]
fn deque_new() -> (r: (Worker<u64>, Stealer<u64>))
    ensures
        pending(r.0) == Seq::<u64>::empty(),
{
    deque::new()
}

/// `deque::Worker::push`: the value goes to the owner's end; the deque grows
/// as needed, so the call always succeeds. It is the youngest pending value.
#[verifier::external_body]
fn worker_push(w: &mut Worker<u64>, c: u64)
    ensures
        pending(*final(w)) == pending(*old(w)).push(c),
{
    w.push(c)
}

/// `deque::Worker::pop`: takes from the owner's end. A value that comes back
/// is the youngest pending one. `None` means that the deque is empty, so
/// whatever was pending has been stolen.
#[verifier::external_body]
fn worker_pop(w: &mut Worker<u64>) -> (r: Option<u64>)
    ensures
        pop_result(pending(*old(w)), r, pending(*final(w))),
{
    w.pop()
}

/// `deque::Stealer::steal`: one attempt to take the oldest value of the deque
/// behind the handle. The outcome depends on what the owner and other
/// thieves do meanwhile, so nothing is claimed of it.
#[verifier::external_body]
pub(crate) fn stealer_steal(s: &Stealer<u64>) -> (r: Steal) {
    match s.steal() {
        Stolen::Empty => Steal::Empty,
        Stolen::Abort => Steal::Retry,
        Stolen::Data(c) => Steal::Taken(c),
    }
}

/// `Clone::clone` of `deque::Stealer`: another handle on the same deque,
/// which counts as the same value.
#[verifier::external_body]
pub(crate) fn stealer_clone(s: &Stealer<u64>) -> (r: Stealer<u64>)
    ensures
        r == *s,
{
    s.clone()
}

/// What a `pop` may return, given what was pending before it, and what is
/// pending after it.
pub open spec fn pop_result(before: Seq<u64>, r: Option<u64>, after: Seq<u64>) -> bool {
    match r {
        Some(c) => before.len() > 0 && c == before.last() && after == before.drop_last(),
        None => after == Seq::<u64>::empty(),
    }
}

/// A run queue: the owner's end of a deque, with a handle for thieves.
pub struct RunQueue {
    worker: Worker<u64>,
    stealer: Stealer<u64>,
    taken: Ghost<nat>,
}

impl View for RunQueue {
    type V = Seq<u64>;

    /// The coroutines pending on the queue, oldest first.
    closed spec fn view(&self) -> Seq<u64> {
        pending(self.worker)
    }
}

impl RunQueue {
    /// The handle through which thieves take from this queue.
    pub closed spec fn handle(&self) -> Stealer<u64> {
        self.stealer
    }

    /// How many coroutines the owner has popped so far.
    pub closed spec fn taken(&self) -> nat {
        self.taken@
    }

    /// An empty queue.
    pub fn new() -> (q: RunQueue)
        ensures
            q@ == Seq::<u64>::empty(),
            q.taken() == 0,
    {
        let (worker, stealer) = deque_new();
        RunQueue { worker, stealer, taken: Ghost(0) }
    }

    /// Puts a coroutine at the owner's end.
    pub fn push(&mut self, coro: u64)
        ensures
            final(self)@ == old(self)@.push(coro),
            final(self).handle() == old(self).handle(),
            final(self).taken() == old(self).taken(),
    {
        worker_push(&mut self.worker, coro);
    }

    /// Takes the coroutine pushed last, unless thieves have emptied the queue.
    pub fn pop(&mut self) -> (r: Option<u64>)
        ensures
            pop_result(old(self)@, r, final(self)@),
            final(self).handle() == old(self).handle(),
            final(self).taken() == old(self).taken() + if r is Some {
                1nat
            } else {
                0nat
            },
    {
        let r = worker_pop(&mut self.worker);
        if r.is_some() {
            self.taken = Ghost(self.taken@ + 1);
        }
        r
    }

    /// A handle for a thief.
    pub fn stealer(&self) -> (s: Stealer<u64>)
        ensures
            s == self.handle(),
    {
        stealer_clone(&self.stealer)
    }
}

/// One attempt to steal from the queue behind `victim`, at the end opposite
/// to its owner's. Whether it brings anything depends on what the owner and
/// other thieves do at the same time; a thief that comes back with nothing
/// moves on to another victim.
pub fn steal(victim: &Stealer<u64>) -> (r: Option<u64>) {
    stealer_steal(victim).taken()
}

/// The owner's end is last in, first out: whatever a `pop` returns right
/// after a `push` is the coroutine just pushed, and the queue is as before.
pub proof fn lemma_pop_takes_last_pushed(q: Seq<u64>, c: u64, x: u64, after: Seq<u64>)
    requires
        pop_result(q.push(c), Some(x), after),
    ensures
        x == c,
        after == q,
{
    assert(q.push(c).drop_last() =~= q);
}

/// A queue with nothing pending gives nothing.
pub proof fn lemma_pop_of_empty(r: Option<u64>, after: Seq<u64>)
    requires
        pop_result(Seq::<u64>::empty(), r, after),
    ensures
        r is None,
        after == Seq::<u64>::empty(),
{
}

} // verus!
