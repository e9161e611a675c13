//! The join handle: the one-message channel that carries a coroutine's
//! outcome back to its spawner.
//!
//! The coroutine delivers once, at its end. The spawner joins once. A
//! spawner that comes first leaves word that it waits, parks, and is readied
//! by the delivery.

use vstd::prelude::*;

verus! {

/// Where the result behind a join handle stands.
#[derive(Clone, Copy, Debug, PartialEq, Eq, Structural)]
pub enum JoinStatus {
    /// The coroutine has not delivered yet and still may.
    Pending,
    /// The outcome is there to be joined.
    Ready,
    /// Nothing is there and nothing will come: the outcome was joined, or
    /// the coroutine was dropped before it delivered.
    Closed,
}

/// A handle that could join the coroutine.
///
/// `T` is what the coroutine returns; `P` is what it panics with, which the
/// handle carries and never looks into.
pub struct JoinHandle<T, P> {
    coroutine: u64,
    outcome: Option<Result<T, P>>,
    open: bool,
    waiter: Option<u64>,
}

/// A join handle as a value.
pub struct JoinView<T, P> {
    /// The coroutine whose outcome the handle carries.
    pub coroutine: u64,
    /// The outcome, while it waits to be joined.
    pub outcome: Option<Result<T, P>>,
    /// Whether the coroutine may still deliver.
    pub open: bool,
    /// The coroutine that is parked until the outcome comes.
    pub waiter: Option<u64>,
}

impl<T, P> JoinView<T, P> {
    /// The handle of a coroutine that was just spawned.
    pub open spec fn fresh(coroutine: u64) -> JoinView<T, P> {
        JoinView { coroutine, outcome: None, open: true, waiter: None }
    }

    pub open spec fn status(self) -> JoinStatus {
        if self.outcome is Some {
            JoinStatus::Ready
        } else if self.open {
            JoinStatus::Pending
        } else {
            JoinStatus::Closed
        }
    }

    /// The coroutine that is to be readied when the channel changes now.
    pub open spec fn owed(self) -> Option<u64> {
        if self.status() is Pending {
            self.waiter
        } else {
            None
        }
    }

    /// The handle after `joiner` has left word that it waits. There is
    /// nothing to wait for unless the outcome is pending.
    pub open spec fn waiting(self, joiner: u64) -> JoinView<T, P> {
        if self.status() is Pending {
            JoinView { waiter: Some(joiner), ..self }
        } else {
            self
        }
    }

    /// The handle after the coroutine has ended with `outcome`. A coroutine
    /// delivers once; what comes after that, or after the handle was closed,
    /// is discarded.
    pub open spec fn delivered(self, outcome: Result<T, P>) -> JoinView<T, P> {
        if self.status() is Pending {
            JoinView { outcome: Some(outcome), open: false, waiter: None, ..self }
        } else {
            self
        }
    }

    /// The handle after the coroutine's end of the channel is gone.
    pub open spec fn closed(self) -> JoinView<T, P> {
        JoinView { open: false, waiter: None, ..self }
    }

    /// The handle after its outcome was taken.
    pub open spec fn joined(self) -> JoinView<T, P> {
        JoinView { outcome: None, ..self }
    }
}

impl<T, P> View for JoinHandle<T, P> {
    type V = JoinView<T, P>;

    closed spec fn view(&self) -> JoinView<T, P> {
        JoinView {
            coroutine: self.coroutine,
            outcome: self.outcome,
            open: self.open,
            waiter: self.waiter,
        }
    }
}

impl<T, P> JoinHandle<T, P> {
    /// The handle for a coroutine that was just spawned.
    pub fn new(coroutine: u64) -> (h: JoinHandle<T, P>)
        ensures
            h@ == JoinView::<T, P>::fresh(coroutine),
    {
        JoinHandle { coroutine, outcome: None, open: true, waiter: None }
    }

    /// The coroutine whose outcome the handle carries.
    pub fn coroutine(&self) -> (c: u64)
        ensures
            c == self@.coroutine,
    {
        self.coroutine
    }

    /// Where the result stands.
    pub fn status(&self) -> (s: JoinStatus)
        ensures
            s == self@.status(),
    {
        if self.outcome.is_some() {
            JoinStatus::Ready
        } else if self.open {
            JoinStatus::Pending
        } else {
            JoinStatus::Closed
        }
    }

    /// The joiner leaves word that it waits for the outcome, before it
    /// parks. Tells whether there is something to wait for.
    pub fn wait(&mut self, joiner: u64) -> (pending: bool)
        ensures
            final(self)@ == old(self)@.waiting(joiner),
            pending == (old(self)@.status() is Pending),
    {
        if self.open && self.outcome.is_none() {
            self.waiter = Some(joiner);
            true
        } else {
            false
        }
    }

    /// The coroutine's last act: it hands in what its body returned, or what
    /// it panicked with, and lets go of its end. Tells whether the outcome
    /// was taken in, and which parked coroutine is to be readied for it.
    pub fn deliver(&mut self, outcome: Result<T, P>) -> (r: (bool, Option<u64>))
        ensures
            final(self)@ == old(self)@.delivered(outcome),
            r.0 == (old(self)@.status() is Pending),
            r.1 == old(self)@.owed(),
    {
        if self.open && self.outcome.is_none() {
            self.outcome = Some(outcome);
            self.open = false;
            (true, self.waiter.take())
        } else {
            (false, None)
        }
    }

    /// The coroutine is gone without a result: it was dropped. Tells which
    /// parked coroutine is to be readied, to find the channel closed.
    pub fn close(&mut self) -> (waiter: Option<u64>)
        ensures
            final(self)@ == old(self)@.closed(),
            waiter == old(self)@.waiter,
    {
        self.open = false;
        self.waiter.take()
    }

    /// Join the coroutine: take its outcome.
    ///
    /// The outcome has to be there. A caller that cannot know waits while
    /// `status` says `Pending`, and treats `Closed` as a broken channel.
    pub fn join(&mut self) -> (r: Result<T, P>)
        requires
            old(self)@.status() is Ready,
        ensures
            old(self)@.outcome == Some(r),
            final(self)@ == old(self)@.joined(),
    {
        let taken = self.outcome.take();
        taken.unwrap()
    }

    /// Takes the outcome if it is there, and leaves the handle alone if not.
    pub fn try_join(&mut self) -> (r: Option<Result<T, P>>)
        ensures
            r == old(self)@.outcome,
            final(self)@ == old(self)@.joined(),
    {
        self.outcome.take()
    }
}

/// A coroutine that ends hands its outcome to its join handle, where it is
/// joined exactly once: it is there after the delivery, it is what `join`
/// returns, and after that the handle is closed for good. This holds for a
/// value returned and for a panic's payload alike.
pub proof fn lemma_joined_exactly_once<T, P>(h: JoinView<T, P>, outcome: Result<T, P>)
    requires
        h.status() is Pending,
    ensures
        h.delivered(outcome).status() is Ready,
        h.delivered(outcome).outcome == Some(outcome),
        h.delivered(outcome).joined().status() is Closed,
        h.delivered(outcome).joined().delivered(outcome) == h.delivered(outcome).joined(),
{
}

/// A coroutine that is dropped before it ends leaves a closed handle, and a
/// closed handle stays closed.
pub proof fn lemma_dropped_is_closed<T, P>(h: JoinView<T, P>, late: Result<T, P>)
    requires
        h.status() is Pending,
    ensures
        h.closed().status() is Closed,
        h.closed().delivered(late) == h.closed(),
        h.closed().closed() == h.closed(),
{
}

/// A joiner that left word while the outcome was pending is readied when
/// the coroutine ends, and when it is dropped: each hands the joiner back,
/// once. After that nobody is owed a wake-up.
pub proof fn lemma_waiter_is_readied<T, P>(h: JoinView<T, P>, joiner: u64, outcome: Result<T, P>)
    requires
        h.status() is Pending,
    ensures
        h.waiting(joiner).owed() == Some(joiner),
        h.waiting(joiner).waiter == Some(joiner),
        h.waiting(joiner).delivered(outcome).waiter is None,
        h.waiting(joiner).delivered(outcome).owed() is None,
        h.waiting(joiner).closed().waiter is None,
        h.waiting(joiner).closed().owed() is None,
{
}

} // verus!
