//! A node of the protocol: what it makes of a message, and what it sends.

use vstd::prelude::*;

use crate::identity::{HashBytes, PublicKeyBytes, SignatureBytes};
use crate::instance::{BcastInstance, InstanceState};
use crate::message::{
    BroadcastRound, MsgLink, MsgLinkId, Outgoing, OutgoingState, RoundState,
};

verus! {

/// A node's identity, and the registry at which its incoming messages can be
/// subscribed to. The registry is held for whoever runs the node; the protocol
/// never looks inside it.
pub struct ProtocolNode<R> {
    registry: R,
    public_key: PublicKeyBytes,
}

/// What an Echo or a Ready says, and the signature that is to back it.
#[derive(Clone, Copy, Debug)]
pub struct Claim {
    pub sender: PublicKeyBytes,
    pub hash: HashBytes,
    pub msg_link_id: MsgLinkId,
    pub signature: SignatureBytes,
}

/// Why a message was passed over.
#[derive(Clone, Copy, Debug, PartialEq, Eq)]
pub enum Ignored {
    /// An Init whose signature does not hold.
    InvalidInit,
    /// An Init after the first valid one.
    RepeatedInit,
    /// An Echo for another hash than the payload's.
    EchoHashMismatch,
    /// An Echo after the node's own Ready, when Echos no longer matter.
    ReadyAlreadySent,
    /// An Echo of someone whose Echo was counted already.
    DuplicateEcho,
    /// An Echo whose signature does not hold.
    InvalidEcho,
    /// A Ready for another hash than the payload's.
    ReadyHashMismatch,
    /// A Ready of someone whose Ready was counted already.
    DuplicateReady,
    /// A Ready whose signature does not hold.
    InvalidReady,
}

/// What is to be done about a message.
#[derive(Clone, Copy, Debug)]
pub enum Handling {
    /// Nothing.
    Ignore(Ignored),
    /// It counts as an Echo, if its signature holds.
    VerifyEcho(Claim),
    /// It counts as a Ready, if its signature holds.
    VerifyReady(Claim),
}

/// What is to be done about the message `m` in the state `i`.
///
/// Only an Echo or a Ready for the payload's own hash matters, only the first
/// of each from any one sender, and Echos only until the node is ready itself.
pub open spec fn handling<T>(i: InstanceState<T>, m: MsgLink<RoundState<T>>) -> Handling {
    match m.data {
        RoundState::Init(_, _, _) => Handling::Ignore(Ignored::RepeatedInit),
        RoundState::Echo(hash, signature) => if hash != i.payload_hash {
            Handling::Ignore(Ignored::EchoHashMismatch)
        } else if i.is_ready_msg_sent {
            Handling::Ignore(Ignored::ReadyAlreadySent)
        } else if i.has_echo(m.sender) {
            Handling::Ignore(Ignored::DuplicateEcho)
        } else {
            Handling::VerifyEcho(
                Claim { sender: m.sender, hash, msg_link_id: m.msg_link_id, signature },
            )
        },
        RoundState::Ready(hash, signature) => if hash != i.payload_hash {
            Handling::Ignore(Ignored::ReadyHashMismatch)
        } else if i.has_ready(m.sender) {
            Handling::Ignore(Ignored::DuplicateReady)
        } else {
            Handling::VerifyReady(
                Claim { sender: m.sender, hash, msg_link_id: m.msg_link_id, signature },
            )
        },
    }
}

/// The participants other than `me`, in their order.
pub open spec fn others(participants: Seq<PublicKeyBytes>, me: PublicKeyBytes) -> Seq<
    PublicKeyBytes,
> {
    participants.filter(|p: PublicKeyBytes| p != me)
}

/// The message `data` from `me` to all the other participants.
pub open spec fn to_others<T>(
    me: PublicKeyBytes,
    participants: Seq<PublicKeyBytes>,
    data: RoundState<T>,
    msg_link_id: MsgLinkId,
) -> OutgoingState<T> {
    OutgoingState { to: others(participants, me), msg_link_id, sender: me, data }
}

impl<R> ProtocolNode<R> {
    /// The key by which the node is known.
    pub closed spec fn key(self) -> PublicKeyBytes {
        self.public_key
    }

    /// The registry that the node was made with.
    pub closed spec fn spec_registry(self) -> R {
        self.registry
    }

    /// The node with this registry and this key.
    pub fn new(registry: R, public_key: PublicKeyBytes) -> (r: Self)
        ensures
            r.key() == public_key,
            r.spec_registry() == registry,
    {
        Self { registry, public_key }
    }

    /// The key by which the node is known.
    pub fn public_key(&self) -> (r: &PublicKeyBytes)
        ensures
            *r == self.key(),
    {
        &self.public_key
    }

    /// The registry at which the node's messages can be subscribed to.
    pub fn registry(&self) -> (r: &R)
        ensures
            *r == self.spec_registry(),
    {
        &self.registry
    }

    /// The participants other than this node, in their order.
    pub fn others(&self, participants: &Vec<PublicKeyBytes>) -> (r: Vec<PublicKeyBytes>)
        ensures
            r@ == others(participants@, self.key()),
    {
        let mut r: Vec<PublicKeyBytes> = Vec::new();
        let mut i: usize = 0;
        reveal(Seq::filter);
        assert(participants@.take(0) =~= Seq::<PublicKeyBytes>::empty());
        while i < participants.len()
            invariant
                i <= participants.len(),
                r@ == others(participants@.take(i as int), self.key()),
            decreases participants.len() - i,
        {
            reveal(Seq::filter);
            assert(participants@.take(i + 1).drop_last() =~= participants@.take(i as int));
            let participant = participants[i];
            if participant != self.public_key {
                r.push(participant);
            }
            i += 1;
        }
        assert(participants@.take(i as int) =~= participants@);
        r
    }

    /// Decides what is to be done about a message, short of checking its
    /// signature.
    pub fn handle_message<T>(
        &self,
        msg: &MsgLink<BroadcastRound<T>>,
        instance: &BcastInstance<T>,
    ) -> (r: Handling)
        ensures
            r == handling(instance@, msg@),
    {
        let msg_link_id = *msg.get_msg_id();
        let sender = msg.sender;
        match &msg.data {
            BroadcastRound::Init(_, _, _) => Handling::Ignore(Ignored::RepeatedInit),
            BroadcastRound::Echo(init_hash, signature) => {
                if *init_hash != instance.payload_hash() {
                    return Handling::Ignore(Ignored::EchoHashMismatch);
                }
                // Skip counting if we already sent Ready (optimization)
                if instance.is_ready_msg_sent() {
                    return Handling::Ignore(Ignored::ReadyAlreadySent);
                }
                if instance.has_sent_echo(sender) {
                    return Handling::Ignore(Ignored::DuplicateEcho);
                }
                Handling::VerifyEcho(
                    Claim { sender, hash: *init_hash, msg_link_id, signature: *signature },
                )
            },
            BroadcastRound::Ready(init_hash, signature) => {
                if *init_hash != instance.payload_hash() {
                    return Handling::Ignore(Ignored::ReadyHashMismatch);
                }
                if instance.has_sent_ready(sender) {
                    return Handling::Ignore(Ignored::DuplicateReady);
                }
                Handling::VerifyReady(
                    Claim { sender, hash: *init_hash, msg_link_id, signature: *signature },
                )
            },
        }
    }

    /// Counts the node's own Echo and gives the Echo message to be sent, which
    /// `signature` signs.
    pub fn send_echo<T>(
        &self,
        instance: &mut BcastInstance<T>,
        hash: HashBytes,
        msg_link_id: MsgLinkId,
        signature: SignatureBytes,
    ) -> (r: Outgoing<T>)
        requires
            old(instance)@.n() > 0,
            old(instance)@.echo_tally(hash) < u128::MAX,
        ensures
            final(instance)@ == old(instance)@.counted_echo(hash, self.key()),
            r@ == to_others::<T>(
                self.key(),
                old(instance)@.participants,
                RoundState::Echo(hash, signature),
                msg_link_id,
            ),
    {
        let to = self.others(instance.participants());
        instance.count_echo(hash, self.public_key);
        Outgoing {
            to,
            msg_link_id,
            sender: self.public_key,
            data: BroadcastRound::Echo(hash, signature),
        }
    }

    /// Counts the node's own Ready, notes that it is sent, and gives the Ready
    /// message to be sent, which `signature` signs.
    pub fn send_ready<T>(
        &self,
        instance: &mut BcastInstance<T>,
        hash: HashBytes,
        msg_link_id: MsgLinkId,
        signature: SignatureBytes,
    ) -> (r: Outgoing<T>)
        requires
            old(instance)@.n() > 0,
            old(instance)@.ready_tally(hash) < u128::MAX,
        ensures
            final(instance)@ == old(instance)@.readied(hash, self.key()),
            r@ == to_others::<T>(
                self.key(),
                old(instance)@.participants,
                RoundState::Ready(hash, signature),
                msg_link_id,
            ),
    {
        let to = self.others(instance.participants());
        instance.count_ready(hash, self.public_key);
        instance.mark_ready_msg_sent();
        Outgoing {
            to,
            msg_link_id,
            sender: self.public_key,
            data: BroadcastRound::Ready(hash, signature),
        }
    }
}

} // verus!
