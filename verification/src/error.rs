//! How a broadcast can fail.

use vstd::prelude::*;

use crate::message::MsgLinkId;

verus! {

/// Why a node's part in a broadcast ended without a delivered value.
#[derive(Debug)]
pub enum BroadcastError {
    /// The message channel closed before enough Readys came in.
    DeliveryThresholdNotMet,
    /// The message channel closed before a valid Init came in.
    InitMessageNotReceived,
    /// The node could not subscribe to the messages of this broadcast.
    SubscriptionFailed(MsgLinkId),
    /// The broadcast did not finish within this many seconds.
    Timeout(u64),
    /// The Init message could not be signed, for the reason given.
    SigningFailed(String),
}

} // verus!
