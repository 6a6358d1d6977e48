//! The messages of the protocol and what surrounds them on their way.
//!
//! Each type here that holds a `Vec` has a model of the same shape, named
//! `..State`, that holds a `Seq` in its place; contracts speak of the model.

use vstd::prelude::*;

use crate::identity::{HashBytes, PublicKeyBytes, SignatureBytes};

verus! {

/// Identifies one broadcast; all messages of a broadcast carry the same one.
#[derive(Clone, Copy, Debug, PartialEq, Eq, Hash)]
pub struct MsgLinkId(pub u128);

impl MsgLinkId {
    /// The identifier with this number.
    pub fn new(id: u128) -> (r: Self)
        ensures
            r == MsgLinkId(id),
    {
        MsgLinkId(id)
    }
}

/// A message as it comes in: its content, who sent it, and its broadcast.
#[derive(Clone, Debug)]
pub struct MsgLink<D> {
    pub sender: PublicKeyBytes,
    pub msg_link_id: MsgLinkId,
    pub data: D,
}

impl<D> MsgLink<D> {
    /// The broadcast that the message belongs to.
    pub fn get_msg_id(&self) -> (r: &MsgLinkId)
        ensures
            *r == self.msg_link_id,
    {
        &self.msg_link_id
    }
}

impl<D: View> View for MsgLink<D> {
    type V = MsgLink<D::V>;

    open spec fn view(&self) -> MsgLink<D::V> {
        MsgLink { sender: self.sender, msg_link_id: self.msg_link_id, data: self.data@ }
    }
}

/// Messages exchanged during the three-phase broadcast protocol.
#[derive(Clone, Debug)]
pub enum BroadcastRound<T> {
    /// Phase 1: Initiator sends data with signature to all participants
    Init(T, Vec<PublicKeyBytes>, SignatureBytes),
    /// Phase 2: Participants echo the hash they received
    Echo(HashBytes, SignatureBytes),
    /// Phase 3: Participants commit to deliver once threshold is reached
    Ready(HashBytes, SignatureBytes),
}

/// The model of a [`BroadcastRound`].
#[verifier::ext_equal]
pub enum RoundState<T> {
    Init(T, Seq<PublicKeyBytes>, SignatureBytes),
    Echo(HashBytes, SignatureBytes),
    Ready(HashBytes, SignatureBytes),
}

impl<T> View for BroadcastRound<T> {
    type V = RoundState<T>;

    open spec fn view(&self) -> RoundState<T> {
        match self {
            BroadcastRound::Init(data, participants, sig) => RoundState::Init(
                *data,
                participants@,
                *sig,
            ),
            BroadcastRound::Echo(hash, sig) => RoundState::Echo(*hash, *sig),
            BroadcastRound::Ready(hash, sig) => RoundState::Ready(*hash, *sig),
        }
    }
}

/// A message to be sent: its content, its broadcast, who it is from, and every
/// node that is to get it, in order.
#[derive(Clone, Debug)]
pub struct Outgoing<T> {
    pub to: Vec<PublicKeyBytes>,
    pub msg_link_id: MsgLinkId,
    pub sender: PublicKeyBytes,
    pub data: BroadcastRound<T>,
}

/// The model of an [`Outgoing`].
#[verifier::ext_equal]
pub struct OutgoingState<T> {
    pub to: Seq<PublicKeyBytes>,
    pub msg_link_id: MsgLinkId,
    pub sender: PublicKeyBytes,
    pub data: RoundState<T>,
}

impl<T> View for Outgoing<T> {
    type V = OutgoingState<T>;

    open spec fn view(&self) -> OutgoingState<T> {
        OutgoingState {
            to: self.to@,
            msg_link_id: self.msg_link_id,
            sender: self.sender,
            data: self.data@,
        }
    }
}

} // verus!
