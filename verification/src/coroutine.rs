//! Coroutines as the scheduler sees them: an identity, a state and a home.

use vstd::prelude::*;
use crate::options::Options;

verus! {

/// Where a coroutine is in its life.
#[derive(Clone, Copy, Debug, PartialEq, Eq, Structural)]
pub enum State {
    /// Ready to run; held by a run queue or an inbox.
    Runnable,
    /// On a processor.
    Running,
    /// Suspended until somebody readies it.
    Parked,
    /// Done; its record is gone.
    Finished,
}

/// The record of one live coroutine.
#[derive(Debug)]
pub struct Coroutine {
    /// The identity, unique among the coroutines of one scheduler.
    pub id: u64,
    pub state: State,
    /// The processor that resumed it first; a hint for routing, not a binding.
    pub home: Option<usize>,
    pub stack_size: usize,
    pub name: Option<String>,
}

impl Coroutine {
    /// The record after a resumption by `processor`.
    pub open spec fn resumed(self, processor: usize) -> Coroutine {
        Coroutine {
            state: State::Running,
            home: match self.home {
                Some(h) => Some(h),
                None => Some(processor),
            },
            ..self
        }
    }

    /// The record with another state.
    pub open spec fn with_state(self, state: State) -> Coroutine {
        Coroutine { state, ..self }
    }

    /// A new coroutine, ready to run and never resumed.
    pub fn bootstrap(id: u64, opts: Options) -> (c: Coroutine)
        ensures
            c == (Coroutine {
                id,
                state: State::Runnable,
                home: None,
                stack_size: opts.stack_size,
                name: opts.name,
            }),
    {
        Coroutine {
            id,
            state: State::Runnable,
            home: None,
            stack_size: opts.stack_size,
            name: opts.name,
        }
    }

    /// A processor takes the coroutine up. The first one to do so becomes its home.
    pub fn resume(&mut self, from_processor: usize)
        requires
            old(self).state == State::Runnable,
        ensures
            *final(self) == old(self).resumed(from_processor),
    {
        self.state = State::Running;
        if self.home.is_none() {
            self.home = Some(from_processor);
        }
    }

    /// The running coroutine gives way and stays ready.
    pub fn suspend_yield(&mut self)
        requires
            old(self).state == State::Running,
        ensures
            *final(self) == old(self).with_state(State::Runnable),
    {
        self.state = State::Runnable;
    }

    /// The running coroutine parks until it is readied.
    pub fn suspend_block(&mut self)
        requires
            old(self).state == State::Running,
        ensures
            *final(self) == old(self).with_state(State::Parked),
    {
        self.state = State::Parked;
    }

    /// A parked coroutine becomes ready again.
    pub fn ready(&mut self)
        requires
            old(self).state == State::Parked,
        ensures
            *final(self) == old(self).with_state(State::Runnable),
    {
        self.state = State::Runnable;
    }

    /// The running coroutine has returned from its body.
    pub fn finish(&mut self)
        requires
            old(self).state == State::Running,
        ensures
            *final(self) == old(self).with_state(State::Finished),
    {
        self.state = State::Finished;
    }
}

} // verus!
