//! The two transports of a simulation: the mailbox of control actions
//! (`std::sync::mpsc`) and the broadcast of states (`bus`).
//!
//! Nothing in this file is proved. The types are declared so that they can be
//! held and passed on; each function makes one call, and its contract is an
//! assumption about that call.
use vstd::prelude::*;
use crate::action::Reception;

verus! {

/// `std::sync::mpsc::Sender`, held and handed out but never looked into.
#[verifier::external_type_specification]
#[verifier::external_body]
#[verifier::reject_recursive_types(T)]
pub struct ExSender<T>(std::sync::mpsc::Sender<T>);

/// `std::sync::mpsc::Receiver`, held but never looked into.
#[verifier::external_type_specification]
#[verifier::external_body]
#[verifier::reject_recursive_types(T)]
pub struct ExReceiver<T>(std::sync::mpsc::Receiver<T>);

/// `bus::Bus`, the sending side of the broadcast.
#[verifier::external_type_specification]
#[verifier::external_body]
#[verifier::reject_recursive_types(T)]
pub struct ExBus<T>(bus::Bus<T>);

/// `bus::BusReader`, one subscriber's receiving side of the broadcast.
#[verifier::external_type_specification]
#[verifier::external_body]
#[verifier::reject_recursive_types(T)]
pub struct ExBusReader<T>(bus::BusReader<T>);

/// Every value that has been placed on `bus` since it was made, oldest first.
pub uninterp spec fn bus_sent(bus: bus::Bus<[u32; 4]>) -> Seq<Seq<u32>>;

/// How many of the values placed on its bus lie before the one that `reader`
/// is handed next.
pub uninterp spec fn reader_position(reader: bus::BusReader<[u32; 4]>) -> nat;

/// `std::sync::mpsc::channel`: a new unbounded mailbox. Nothing is assumed
/// of its two ends.
#[verifier::external_body]
pub(crate) fn open_mailbox() -> (ends: (
    std::sync::mpsc::Sender<u32>,
    std::sync::mpsc::Receiver<u32>,
)) {
    std::sync::mpsc::channel()
}

/// `Sender::clone`: another handle on the same mailbox. Assumed: no more
/// than that the handle is what cloning `sender` gives.
#[verifier::external_body]
pub(crate) fn clone_sender(sender: &std::sync::mpsc::Sender<u32>) -> (handle:
    std::sync::mpsc::Sender<u32>)
    ensures
        cloned(*sender, handle),
{
    sender.clone()
}

/// `Receiver::recv_timeout` with a wait of `secs` seconds and `subsec_nanos`
/// nanoseconds. What comes back depends on the senders and on the clock, so
/// nothing is assumed of it. The bound on `subsec_nanos` keeps
/// `Duration::new` from carrying into the seconds.
#[verifier::external_body]
pub(crate) fn receive_within(
    receiver: &std::sync::mpsc::Receiver<u32>,
    secs: u64,
    subsec_nanos: u32,
) -> (reception: Reception)
    requires
        subsec_nanos < 1_000_000_000,
{
    match receiver.recv_timeout(std::time::Duration::new(secs, subsec_nanos)) {
        Ok(action) => Reception::Action(action),
        Err(std::sync::mpsc::RecvTimeoutError::Timeout) => Reception::TimedOut,
        Err(std::sync::mpsc::RecvTimeoutError::Disconnected) => Reception::Closed,
    }
}

/// `Bus::new` with room for `capacity` values. Assumed: nothing has been
/// placed on the new bus. `Bus::new` adds one seat to `capacity`, which the
/// bound keeps from overflowing.
#[verifier::external_body]
pub(crate) fn open_bus(capacity: usize) -> (bus: bus::Bus<[u32; 4]>)
    requires
        capacity < usize::MAX,
    ensures
        bus_sent(bus) == Seq::<Seq<u32>>::empty(),
{
    bus::Bus::new(capacity)
}

/// `Bus::broadcast`. Assumed: when the call returns, `words` has been placed
/// on the bus after everything placed before. The call waits while the bus is
/// full, that is while some subscriber has yet to take the oldest value.
#[verifier::external_body]
pub(crate) fn broadcast(bus: &mut bus::Bus<[u32; 4]>, words: [u32; 4])
    ensures
        bus_sent(*final(bus)) == bus_sent(*old(bus)).push(words@),
{
    bus.broadcast(words)
}

/// `Bus::add_rx`: a new subscriber. Assumed: subscribing places nothing on
/// the bus, and the subscriber stands behind everything placed so far, so
/// that the first value it is handed is the next one placed.
#[verifier::external_body]
pub(crate) fn subscribe(bus: &mut bus::Bus<[u32; 4]>) -> (reader: bus::BusReader<[u32; 4]>)
    ensures
        bus_sent(*final(bus)) == bus_sent(*old(bus)),
        reader_position(reader) == bus_sent(*old(bus)).len(),
{
    bus.add_rx()
}

/// `BusReader::recv_timeout` with a wait of `millis` milliseconds. What comes
/// back depends on the publisher and on the clock, so nothing is assumed of
/// it; a wait that timed out and a bus that is gone both give `None`.
#[verifier::external_body]
pub(crate) fn hear_within(reader: &mut bus::BusReader<[u32; 4]>, millis: u64) -> (heard: Option<
    [u32; 4],
>) {
    reader.recv_timeout(std::time::Duration::from_millis(millis)).ok()
}

} // verus!
