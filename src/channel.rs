//! The event channel between a hooked window and its listener.
use vstd::prelude::*;

use crate::keys::Event;

verus! {

/// Producer end of a `kanal` channel.
#[verifier::external_type_specification]
#[verifier::external_body]
#[verifier::reject_recursive_types(T)]
pub struct ExSender<T>(kanal::Sender<T>);

/// Consumer end of a `kanal` channel.
#[verifier::external_type_specification]
#[verifier::external_body]
#[verifier::reject_recursive_types(T)]
pub struct ExReceiver<T>(kanal::Receiver<T>);

/// Relies on `kanal::unbounded`: a new channel with no bound on its queue,
/// as its producer and consumer ends.
#[verifier::external_body]
pub(crate) fn unbounded_channel() -> (r: (kanal::Sender<Event>, kanal::Receiver<Event>)) {
    kanal::unbounded()
}

/// Relies on `kanal::Sender::send`: queues `event` for the consumer, without
/// blocking on an unbounded channel; `false` when no consumer is left.
#[verifier::external_body]
pub(crate) fn send_event(sender: &kanal::Sender<Event>, event: Event) -> (delivered: bool) {
    sender.send(event).is_ok()
}

} // verus!
