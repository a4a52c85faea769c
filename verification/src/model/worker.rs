//! Messages handed to the two stage workers, and the handles that enqueue
//! them.

use tokio::sync::mpsc::error::TrySendError;
use vstd::prelude::*;

verus! {

/// How many requests each of the two queues holds at most.
pub const QUEUE_CAPACITY: usize = 100;

/// A synthesis job as admitted: what the first stage needs to run it.
///
/// `position` is the placement of the avatar on the source video, already
/// rendered as the `(x,y)` text that the compositing step takes.
#[derive(Debug)]
pub struct GenVideoRequest {
    pub code: String,
    pub position: String,
    pub shape: String,
    pub remove_bg: bool,
    pub subtitle: bool,
}

/// A request to burn reviewed captions into a synthesized video.
#[derive(Debug)]
pub struct MergeSubsRequest {
    pub code: String,
}

/// The sending half of a bounded `tokio` channel, carried as an opaque
/// value.
#[verifier::external_type_specification]
#[verifier::external_body]
#[verifier::reject_recursive_types(T)]
pub struct ExSender<T>(tokio::sync::mpsc::Sender<T>);

/// The sending halves of the queues of the two stages.
pub struct StageSenders {
    pub gen_sender: tokio::sync::mpsc::Sender<GenVideoRequest>,
    pub merge_sender: tokio::sync::mpsc::Sender<MergeSubsRequest>,
}

/// How an attempt to enqueue without waiting ended.
pub enum Enqueued<T> {
    /// The message is in the queue.
    Sent,
    /// The queue is full; the message comes back.
    Full(T),
    /// The receiving half is gone; the message comes back.
    Closed(T),
}

/// `Sender::try_send` of `tokio`'s bounded channel. Whether the queue takes
/// the message depends on what other tasks have done to it, so nothing is
/// claimed of which way the attempt ends; what is claimed is that a message
/// that was refused comes back as it was given.
#[verifier::external_body]
pub(crate) fn try_send<T>(sender: &tokio::sync::mpsc::Sender<T>, message: T) -> (sent: Enqueued<T>)
    ensures
        sent matches Enqueued::Full(back) ==> back == message,
        sent matches Enqueued::Closed(back) ==> back == message,
{
    match sender.try_send(message) {
        Ok(()) => Enqueued::Sent,
        Err(TrySendError::Full(back)) => Enqueued::Full(back),
        Err(TrySendError::Closed(back)) => Enqueued::Closed(back),
    }
}

} // verus!
