//! The trusted boundary to the two channel crates the service is built on:
//! an unbounded multi-producer queue for requests and events, and a one-shot
//! response channel per job.
//!
//! What travels over a channel depends on other threads, so no contract here
//! names a result: the verified callers handle every value that can come
//! back. What the contracts guarantee is in the types: a `None` from a
//! receive means the other side is gone, never a hang.

use vstd::prelude::*;

verus! {

#[verifier::external_type_specification]
#[verifier::external_body]
#[verifier::reject_recursive_types(T)]
pub struct ExCbSender<T>(crossbeam_channel::Sender<T>);

#[verifier::external_type_specification]
#[verifier::external_body]
#[verifier::reject_recursive_types(T)]
pub struct ExCbReceiver<T>(crossbeam_channel::Receiver<T>);

#[verifier::external_type_specification]
#[verifier::external_body]
#[verifier::reject_recursive_types(T)]
pub struct ExOneshotSender<T>(oneshot::Sender<T>);

#[verifier::external_type_specification]
#[verifier::external_body]
#[verifier::reject_recursive_types(T)]
pub struct ExOneshotReceiver<T>(oneshot::Receiver<T>);

/// A fresh unbounded queue.
///
/// Relies on crossbeam_channel's `unbounded`: messages sent on the sender
/// arrive at the receiver in first-in first-out order.
#[verifier::external_body]
pub(crate) fn queue_channel<T>() -> (r: (crossbeam_channel::Sender<T>, crossbeam_channel::Receiver<
    T,
>)) {
    crossbeam_channel::unbounded()
}

/// Enqueues `msg`; `false` means every receiver is gone and the message was
/// dropped.
///
/// Relies on crossbeam_channel's `Sender::send`, which on an unbounded
/// queue never blocks and fails exactly when the channel is disconnected.
#[verifier::external_body]
pub(crate) fn queue_send<T>(tx: &crossbeam_channel::Sender<T>, msg: T) -> (ok: bool) {
    tx.send(msg).is_ok()
}

/// Blocks for the next message; `None` means every sender is gone and the
/// queue is drained, so no message can ever arrive: the call never hangs
/// past that point.
///
/// Relies on crossbeam_channel's `Receiver::recv`.
#[verifier::external_body]
pub(crate) fn queue_recv<T>(rx: &crossbeam_channel::Receiver<T>) -> (r: Option<T>) {
    rx.recv().ok()
}

/// Takes the next message only if one is already there: `None` means empty
/// or disconnected, and the call never blocks.
///
/// Relies on crossbeam_channel's `Receiver::try_recv`.
#[verifier::external_body]
pub(crate) fn queue_try_recv<T>(rx: &crossbeam_channel::Receiver<T>) -> (r: Option<T>) {
    rx.try_recv().ok()
}

/// A second handle to the same queue.
///
/// Relies on crossbeam_channel's `Clone` impl for `Sender`: the clone feeds
/// the same queue.
#[verifier::external_body]
pub(crate) fn queue_sender_clone<T>(tx: &crossbeam_channel::Sender<T>) -> (r: crossbeam_channel::Sender<
    T,
>) {
    tx.clone()
}

/// A fresh one-shot response channel.
///
/// Relies on oneshot's `channel`.
#[verifier::external_body]
pub(crate) fn response_channel<T>() -> (r: (oneshot::Sender<T>, oneshot::Receiver<T>)) {
    oneshot::channel()
}

/// Delivers the one response; `false` means the receiver is gone.
///
/// Relies on oneshot's `Sender::send`, which consumes the sender: a
/// response is delivered at most once.
#[verifier::external_body]
pub(crate) fn response_send<T>(tx: oneshot::Sender<T>, value: T) -> (ok: bool) {
    tx.send(value).is_ok()
}

/// Blocks for the one response; `None` means the sender was dropped without
/// sending, so no response can ever arrive: the call never hangs past the
/// death of the responder.
///
/// Relies on oneshot's `Receiver::recv`, which consumes the receiver.
#[verifier::external_body]
pub(crate) fn response_recv<T>(rx: oneshot::Receiver<T>) -> (r: Option<T>) {
    rx.recv().ok()
}

} // verus!
