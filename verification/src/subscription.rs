//! The receiving side of the broadcast, as a renderer or any other consumer
//! of states uses it.
//!
//! A consumer asks for the next state with a wait of its own choosing. When
//! none arrives in time it keeps the state it had: a quiet broadcast is no
//! error.
use vstd::prelude::*;
use crate::channels::hear_within;
use crate::state::State;

verus! {

/// The state that a consumer holds after a wait that brought `heard`.
pub open spec fn followed(previous: State, heard: Option<[u32; 4]>) -> State {
    match heard {
        Some(words) => State::of_words(words@),
        None => previous,
    }
}

/// One subscriber together with the latest state it has received.
pub struct StateSubscription {
    reader: bus::BusReader<[u32; 4]>,
    latest: State,
}

impl StateSubscription {
    /// The latest state received, or the all-zero state before the first.
    pub closed spec fn latest(&self) -> State {
        self.latest
    }

    /// The reader through which states arrive.
    pub closed spec fn reader(&self) -> bus::BusReader<[u32; 4]> {
        self.reader
    }

    /// Follows `reader`, starting from the all-zero state: the subscription
    /// keeps the reader as it is given, so that the first state it takes in
    /// is the first one that the reader is handed.
    pub fn new(reader: bus::BusReader<[u32; 4]>) -> (subscription: StateSubscription)
        ensures
            subscription.reader() == reader,
            subscription.latest() == State::origin(),
    {
        StateSubscription { reader, latest: State::zero() }
    }

    /// Takes in what one wait brought: a state that arrived replaces the
    /// latest one, and the absence of one changes nothing. The result says
    /// whether a state arrived.
    pub fn absorb(&mut self, heard: Option<[u32; 4]>) -> (fresh: bool)
        ensures
            final(self).latest() == followed(old(self).latest(), heard),
            final(self).reader() == old(self).reader(),
            fresh == (heard is Some),
    {
        match heard {
            Some(words) => {
                self.latest = State::from_words(words);
                true
            },
            None => false,
        }
    }

    /// Waits up to `timeout_millis` milliseconds for the next state and
    /// takes it in as `absorb` does.
    ///
    /// Whether a state arrives in time depends on the publisher and on the
    /// clock: the contract holds for some outcome of the wait, and says that
    /// without a fresh state the latest one is kept.
    pub fn update_states(&mut self, timeout_millis: u64) -> (fresh: bool)
        ensures
            exists|heard: Option<[u32; 4]>|
                {
                    &&& final(self).latest() == #[trigger] followed(old(self).latest(), heard)
                    &&& fresh == (heard is Some)
                },
            !fresh ==> final(self).latest() == old(self).latest(),
    {
        let heard = hear_within(&mut self.reader, timeout_millis);
        let fresh = self.absorb(heard);
        // The outcome of the wait is the witness.
        assert(self.latest() == followed(old(self).latest(), heard));
        fresh
    }

    /// The latest state received, or the all-zero state before the first.
    pub fn current(&self) -> (s: State)
        ensures
            s == self.latest(),
    {
        self.latest
    }
}

} // verus!
