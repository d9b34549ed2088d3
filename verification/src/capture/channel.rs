//! The delivery channel: the bounded queue of scored records between the
//! capture pipeline and the dashboard.
//!
//! The queue itself is a bounded channel of the `crossbeam-channel` crate. Its
//! two ends live on different threads, so what a call on one end returns
//! depends on what the other end has done: nothing is claimed of it here, and
//! the callers state what holds for every outcome.

use crate::capture::types::PacketFiled;
use crossbeam_channel::{Receiver, Sender, TrySendError};
use vstd::prelude::*;

verus! {

/// Number of scored records that the delivery channel holds at most.
pub const CHANNEL_CAPACITY: usize = 100;

/// Largest capacity a channel is made with.
pub const MAX_CHANNEL_CAPACITY: usize = 0xffff;

/// The sending end of a channel.
#[verifier::external_type_specification]
#[verifier::external_body]
#[verifier::reject_recursive_types(T)]
pub struct ExSender<T>(Sender<T>);

/// The receiving end of a channel.
#[verifier::external_type_specification]
#[verifier::external_body]
#[verifier::reject_recursive_types(T)]
pub struct ExReceiver<T>(Receiver<T>);

/// The capacity that the channel of this sending end was made with, `None`
/// for an unbounded channel.
pub uninterp spec fn sender_bound(tx: Sender<PacketFiled>) -> Option<nat>;

/// The capacity that the channel of this receiving end was made with, `None`
/// for an unbounded channel.
pub uninterp spec fn receiver_bound(rx: Receiver<PacketFiled>) -> Option<nat>;

/// How an attempt to enqueue a record ended.
#[derive(Clone, Copy, Debug, PartialEq, Eq)]
pub enum SendOutcome {
    /// The record is in the queue.
    Sent,
    /// The queue was full: the record is gone.
    Full,
    /// The receiving end is gone, and so is the record.
    Disconnected,
}

/// Makes a bounded channel with `crossbeam_channel::bounded`.
///
/// Claimed without proof: both ends have the capacity they were made with.
/// Capacities beyond `MAX_CHANNEL_CAPACITY` are left out, as the crate panics
/// on one that is too large to allocate.
#[verifier::external_body]
fn bounded(capacity: usize) -> (ends: (Sender<PacketFiled>, Receiver<PacketFiled>))
    requires
        capacity <= MAX_CHANNEL_CAPACITY,
    ensures
        sender_bound(ends.0) == Some(capacity as nat),
        receiver_bound(ends.1) == Some(capacity as nat),
{
    crossbeam_channel::bounded(capacity)
}

/// Offers a record to the queue with `crossbeam_channel::Sender::try_send`,
/// which returns at once whatever the state of the queue.
///
/// Nothing is claimed of the outcome: it depends on what the receiving end
/// has done.
#[verifier::external_body]
pub(crate) fn try_send(tx: &Sender<PacketFiled>, record: PacketFiled) -> (outcome: SendOutcome) {
    match tx.try_send(record) {
        Ok(()) => SendOutcome::Sent,
        Err(TrySendError::Full(_)) => SendOutcome::Full,
        Err(TrySendError::Disconnected(_)) => SendOutcome::Disconnected,
    }
}

/// Takes the oldest queued record with
/// `crossbeam_channel::Receiver::try_recv`, which returns at once: `None`
/// when the queue is empty, whether or not the sending end is still there.
///
/// Nothing is claimed of the result: it depends on what the sending end has
/// done.
#[verifier::external_body]
pub(crate) fn try_recv(rx: &Receiver<PacketFiled>) -> (record: Option<PacketFiled>) {
    rx.try_recv().ok()
}

/// Makes the delivery channel of one capture session: a queue that holds at
/// most `CHANNEL_CAPACITY` scored records.
pub fn delivery_channel() -> (ends: (Sender<PacketFiled>, Receiver<PacketFiled>))
    ensures
        sender_bound(ends.0) == Some(CHANNEL_CAPACITY as nat),
        receiver_bound(ends.1) == Some(CHANNEL_CAPACITY as nat),
{
    bounded(CHANNEL_CAPACITY)
}

} // verus!
