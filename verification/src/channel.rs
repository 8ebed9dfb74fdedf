use vstd::prelude::*;

verus! {

/// The sending half of the unbounded queue that carries tab identifiers
/// between the bar and the container. Opaque: the queue's content is
/// shared with the receiving half, so nothing is claimed about it here;
/// the functions that read from a queue state what holds of every value
/// that may come back.
#[verifier::external_type_specification]
#[verifier::external_body]
#[verifier::reject_recursive_types(T)]
pub struct ExSender<T>(crossbeam::channel::Sender<T>);

/// The receiving half of the queue. Opaque, as the sender is.
#[verifier::external_type_specification]
#[verifier::external_body]
#[verifier::reject_recursive_types(T)]
pub struct ExReceiver<T>(crossbeam::channel::Receiver<T>);

/// Relies on crossbeam_channel::unbounded: returns the two halves of a
/// fresh, empty, non-blocking queue.
#[verifier::external_body]
pub(crate) fn channel_pair() -> (crossbeam::channel::Sender<String>, crossbeam::channel::Receiver<String>) {
    crossbeam::channel::unbounded()
}

/// Relies on crossbeam_channel::Sender::clone: the clone feeds the same
/// queue as the original.
pub assume_specification<T>[ <crossbeam::channel::Sender<T> as Clone>::clone ](
    tx: &crossbeam::channel::Sender<T>,
) -> crossbeam::channel::Sender<T>;

/// Relies on crossbeam_channel::Sender::send: enqueues the identifier.
/// On an unbounded queue the call never blocks; it fails only when every
/// receiving half is gone, and that failure is deliberately swallowed
/// here, as a missing listener only means nobody is left to re-highlight.
#[verifier::external_body]
pub(crate) fn channel_send(tx: &crossbeam::channel::Sender<String>, key: &str) {
    let _ = tx.send(key.to_owned());
}

/// Relies on crossbeam_channel::Receiver::try_recv: takes the oldest
/// pending identifier without blocking, or returns `None` when the queue
/// is empty or disconnected. The queue is shared state, so no claim is
/// made about which value comes back; callers pass it to verified
/// functions whose contracts cover every value.
#[verifier::external_body]
pub(crate) fn channel_try_recv(rx: &crossbeam::channel::Receiver<String>) -> Option<String> {
    rx.try_recv().ok()
}

/// Relies on crossbeam_channel::Receiver::len: the number of messages
/// pending at the moment of the call. Used only to bound how many stale
/// messages one layout pass discards.
#[verifier::external_body]
pub(crate) fn channel_len(rx: &crossbeam::channel::Receiver<String>) -> usize {
    rx.len()
}

} // verus!
