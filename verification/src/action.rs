//! The control action of a tick.
//!
//! Actions arrive through an unbounded mailbox with any number of senders.
//! Each tick waits for one action for at most one period. A tick that gets
//! none applies no force; that is the designed default and no error.
use vstd::prelude::*;
use crate::binary32::POSITIVE_ZERO;

verus! {

/// The force applied when no action arrives.
pub const NEUTRAL_ACTION: u32 = POSITIVE_ZERO;

/// What one bounded wait on the mailbox of control actions brought.
#[derive(Clone, Copy, PartialEq, Eq, Structural, Debug)]
pub enum Reception {
    /// An action arrived in time: the oldest one not yet consumed.
    Action(u32),
    /// Nothing arrived before the wait ended.
    TimedOut,
    /// Every sender is gone and the mailbox is empty.
    Closed,
}

/// The action that a tick consumes: the one received, or the neutral force
/// when the wait timed out or the mailbox is closed.
pub open spec fn resolved_action(reception: Reception) -> u32 {
    match reception {
        Reception::Action(action) => action,
        Reception::TimedOut => NEUTRAL_ACTION,
        Reception::Closed => NEUTRAL_ACTION,
    }
}

/// Picks the action that a tick consumes.
pub fn resolve_action(reception: Reception) -> (action: u32)
    ensures
        action == resolved_action(reception),
        reception is TimedOut || reception is Closed ==> action == 0,
{
    match reception {
        Reception::Action(action) => action,
        Reception::TimedOut => NEUTRAL_ACTION,
        Reception::Closed => NEUTRAL_ACTION,
    }
}

} // verus!
