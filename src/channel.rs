//! The one-shot reply channel that carries each command's answer back to its
//! caller, taken from tokio.
use vstd::prelude::*;

verus! {

#[verifier::external_type_specification]
#[verifier::external_body]
#[verifier::reject_recursive_types(T)]
pub struct ExReplySender<T>(tokio::sync::oneshot::Sender<T>);

#[verifier::external_type_specification]
#[verifier::external_body]
#[verifier::reject_recursive_types(T)]
pub struct ExReplyReceiver<T>(tokio::sync::oneshot::Receiver<T>);

/// The error of awaiting a reader whose writer was dropped; declared because
/// the reader's `Future` impl names it.
#[verifier::external_type_specification]
#[verifier::external_body]
pub struct ExRecvError(tokio::sync::oneshot::error::RecvError);

/// Relies on tokio's `oneshot::channel`: a fresh writer and reader of one
/// value, linked to each other and to nothing else.
#[verifier::external_body]
pub(crate) fn reply_channel() -> (tokio::sync::oneshot::Sender<String>, tokio::sync::oneshot::Receiver<String>) {
    tokio::sync::oneshot::channel::<String>()
}

} // verus!
