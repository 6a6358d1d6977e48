//! What a caller gets, said of calls in a row: a session from its start to its
//! outcome, and a node from its making on.
//!
//! `call_ensures(f, args, r)` says that the call of `f` with `args` may return `r`.

use vstd::prelude::*;

use crate::conduct::{delivers_or_goes_on, makes_ready};
use crate::error::BroadcastError;
use crate::identity::{HashBytes, Key, PublicKeyBytes, SignatureBytes};
use crate::instance::{queue_state, BcastInstance, InstanceState};
use crate::laws::law_others;
use crate::message::{BroadcastRound, MsgLink, MsgLinkId, Outgoing};
use crate::node::{handling, others, Claim, Handling, ProtocolNode};
use crate::session::{Effect, Event, Session, Stage, StageState};
use crate::table::Table;

verus! {

/// A node gives back the key and the registry that it was made with.
pub proof fn law_node_is_what_it_was_made<R>(
    registry: R,
    public_key: PublicKeyBytes,
    node: ProtocolNode<R>,
    key: &PublicKeyBytes,
    held: &R,
)
    requires
        call_ensures(ProtocolNode::<R>::new, (registry, public_key), node),
        call_ensures(ProtocolNode::<R>::public_key, (&node,), key),
        call_ensures(ProtocolNode::<R>::registry, (&node,), held),
    ensures
        *key == public_key,
        *held == registry,
        node.key() == public_key,
{
}

/// An identifier has the number that it was made with, and a message tells which one
/// it has.
pub proof fn law_identifiers<D>(id: u128, made: MsgLinkId, m: MsgLink<D>, told: &MsgLinkId)
    requires
        call_ensures(MsgLinkId::new, (id,), made),
        call_ensures(MsgLink::<D>::get_msg_id, (&m,), told),
    ensures
        made.0 == id,
        *told == m.msg_link_id,
{
}

/// A session that takes part in a broadcast tells the identifier and the seconds that
/// it was started with, waits to be subscribed, and has no outcome yet.
pub proof fn law_participating<R, T>(
    node: ProtocolNode<R>,
    msg_link_id: MsgLinkId,
    timeout_secs: u64,
    session: Session<T>,
    id: MsgLinkId,
    secs: u64,
    stage: &Stage<T>,
    outcome: Option<Result<T, BroadcastError>>,
)
    requires
        call_ensures(
            ProtocolNode::<R>::participate_in_broadcast::<T>,
            (&node, msg_link_id, timeout_secs),
            session,
        ),
        call_ensures(Session::<T>::msg_link_id, (&session,), id),
        call_ensures(Session::<T>::timeout_secs, (&session,), secs),
        call_ensures(Session::<T>::stage, (&session,), stage),
        call_ensures(Session::<T>::into_outcome, (session,), outcome),
    ensures
        id == msg_link_id,
        secs == timeout_secs,
        *stage matches Stage::Subscribe { prepared: None },
        outcome is None,
{
}

/// A session that initiates a broadcast tells the identifier and the seconds that it
/// was started with, waits for the signature on an Init with the data and the
/// recipients as given, and has no outcome yet.
pub proof fn law_initiating<R, T>(
    node: ProtocolNode<R>,
    recipients: Vec<PublicKeyBytes>,
    data: T,
    msg_link_id: MsgLinkId,
    timeout_secs: u64,
    session: Session<T>,
    id: MsgLinkId,
    secs: u64,
    stage: &Stage<T>,
    outcome: Option<Result<T, BroadcastError>>,
)
    requires
        call_ensures(
            ProtocolNode::<R>::broadcast_init::<T>,
            (&node, recipients, data, msg_link_id, timeout_secs),
            session,
        ),
        call_ensures(Session::<T>::msg_link_id, (&session,), id),
        call_ensures(Session::<T>::timeout_secs, (&session,), secs),
        call_ensures(Session::<T>::stage, (&session,), stage),
        call_ensures(Session::<T>::into_outcome, (session,), outcome),
    ensures
        id == msg_link_id,
        secs == timeout_secs,
        *stage matches Stage::SignInit { data: d, recipients: r } && d == data && r@
            == recipients@,
        outcome is None,
{
}

/// A session has an outcome once it is over, and then it is the one it ended with.
pub proof fn law_outcome_is_told<T>(
    session: Session<T>,
    stage: &Stage<T>,
    outcome: Option<Result<T, BroadcastError>>,
)
    requires
        call_ensures(Session::<T>::stage, (&session,), stage),
        call_ensures(Session::<T>::into_outcome, (session,), outcome),
    ensures
        *stage matches Stage::Done { outcome: o } ==> outcome == Some(o),
        !(*stage is Done) ==> outcome is None,
{
}

/// Whatever happens, a session goes on telling the identifier and the seconds that it
/// told before.
pub proof fn law_advanced_session_keeps_its_terms<R, T: Clone>(
    node: ProtocolNode<R>,
    session: Session<T>,
    event: Event<T>,
    advanced: (Session<T>, Effect<T>),
    id_before: MsgLinkId,
    secs_before: u64,
    id: MsgLinkId,
    secs: u64,
)
    requires
        call_ensures(ProtocolNode::<R>::advance::<T>, (&node, session, event), advanced),
        call_ensures(Session::<T>::msg_link_id, (&session,), id_before),
        call_ensures(Session::<T>::timeout_secs, (&session,), secs_before),
        call_ensures(Session::<T>::msg_link_id, (&advanced.0,), id),
        call_ensures(Session::<T>::timeout_secs, (&advanced.0,), secs),
    ensures
        id == id_before,
        secs == secs_before,
{
}

/// When the time of a session is up, its outcome is a timeout after the seconds that
/// it tells, whatever it waits for, from the subscription on until it is over.
pub proof fn law_timeout_is_told<R, T: Clone>(
    node: ProtocolNode<R>,
    session: Session<T>,
    advanced: (Session<T>, Effect<T>),
    stage: &Stage<T>,
    secs: u64,
    outcome: Option<Result<T, BroadcastError>>,
)
    requires
        call_ensures(Session::<T>::stage, (&session,), stage),
        call_ensures(Session::<T>::timeout_secs, (&session,), secs),
        call_ensures(
            ProtocolNode::<R>::advance::<T>,
            (&node, session, Event::<T>::TimedOut),
            advanced,
        ),
        call_ensures(Session::<T>::into_outcome, (advanced.0,), outcome),
    ensures
        advanced.1 is Quiet,
        match *stage {
            Stage::SignInit { .. } => outcome is None,
            Stage::SignEcho { initiator: true, .. } => outcome is None,
            Stage::Subscribe { .. } => outcome is None,
            Stage::Done { outcome: o } => outcome == Some(o),
            Stage::SignEcho { initiator: false, .. } => ends_by_timeout(outcome, secs),
            Stage::AwaitInit { .. } => ends_by_timeout(outcome, secs),
            Stage::VerifyInit { .. } => ends_by_timeout(outcome, secs),
            Stage::Drain { .. } => ends_by_timeout(outcome, secs),
            Stage::Collect { .. } => ends_by_timeout(outcome, secs),
            Stage::VerifyEcho { .. } => ends_by_timeout(outcome, secs),
            Stage::VerifyReady { .. } => ends_by_timeout(outcome, secs),
            Stage::SignReady { .. } => ends_by_timeout(outcome, secs),
        },
{
}

/// Whether this is a timeout after so many seconds.
pub open spec fn ends_by_timeout<T>(
    outcome: Option<Result<T, BroadcastError>>,
    secs: u64,
) -> bool {
    outcome matches Some(Err(BroadcastError::Timeout(t))) && t == secs
}

/// An initiator whose Init is signed sends that Init: a clone of its data, the
/// recipients as they are listed, and the signature; to all of them but itself.
pub proof fn law_init_is_sent<R, T: Clone>(
    node: ProtocolNode<R>,
    session: Session<T>,
    stage: &Stage<T>,
    data: T,
    recipients: Vec<PublicKeyBytes>,
    id: MsgLinkId,
    signature: SignatureBytes,
    hash: HashBytes,
    advanced: (Session<T>, Effect<T>),
    p: PublicKeyBytes,
)
    requires
        call_ensures(Session::<T>::stage, (&session,), stage),
        *stage == (Stage::SignInit { data, recipients }),
        call_ensures(Session::<T>::msg_link_id, (&session,), id),
        call_ensures(
            ProtocolNode::<R>::advance::<T>,
            (&node, session, Event::<T>::InitSigned(Ok((signature, hash)))),
            advanced,
        ),
    ensures
        advanced.1 matches Effect::Send(out) && {
            &&& out.sender == node.key()
            &&& out.msg_link_id == id
            &&& out.to@.contains(p) <==> recipients@.contains(p) && p != node.key()
            &&& out.data matches BroadcastRound::Init(d, ps, s) && cloned(data, d) && ps@
                == recipients@ && s == signature
        },
{
    law_others(recipients@, node.key(), p);
}

/// A node whose Echo or Ready is signed sends it for the hash that was to be signed,
/// with the signature that was handed over, to all participants but itself.
pub proof fn law_echo_and_ready_are_sent<R, T: Clone>(
    node: ProtocolNode<R>,
    session: Session<T>,
    stage: &Stage<T>,
    id: MsgLinkId,
    signature: SignatureBytes,
    echoed: (Session<T>, Effect<T>),
    readied: (Session<T>, Effect<T>),
    p: PublicKeyBytes,
)
    requires
        call_ensures(Session::<T>::stage, (&session,), stage),
        call_ensures(Session::<T>::msg_link_id, (&session,), id),
        call_ensures(
            ProtocolNode::<R>::advance::<T>,
            (&node, session, Event::<T>::EchoSigned(signature)),
            echoed,
        ),
        call_ensures(
            ProtocolNode::<R>::advance::<T>,
            (&node, session, Event::<T>::ReadySigned(signature)),
            readied,
        ),
    ensures
        *stage matches Stage::SignEcho { instance, .. } ==> (echoed.1 matches Effect::Send(out) && {
            &&& out.sender == node.key()
            &&& out.msg_link_id == id
            &&& out.to@.contains(p) <==> instance@.participants.contains(p) && p != node.key()
            &&& out.data matches BroadcastRound::Echo(h, s) && h == instance@.payload_hash && s
                == signature
        }),
        *stage matches Stage::SignReady { instance, hash, msg_link_id } ==> (
        readied.1 matches Effect::Send(out) && {
            &&& out.sender == node.key()
            &&& out.msg_link_id == msg_link_id
            &&& out.to@.contains(p) <==> instance@.participants.contains(p) && p != node.key()
            &&& out.data matches BroadcastRound::Ready(h, s) && h == hash && s == signature
        }),
{
    match *stage {
        Stage::SignEcho { instance, .. } => {
            law_others(instance@.participants, node.key(), p);
        },
        Stage::SignReady { instance, .. } => {
            law_others(instance@.participants, node.key(), p);
        },
        _ => {},
    }
}

/// The thresholds of an instance tolerate as many faults as are fewer than a third of
/// its participants.
pub proof fn law_thresholds_are_told<T>(
    payload: T,
    payload_hash: HashBytes,
    participants: Vec<PublicKeyBytes>,
    instance: BcastInstance<T>,
    echos: usize,
    amplifying: usize,
    delivering: usize,
    f: nat,
)
    requires
        call_ensures(BcastInstance::<T>::new, (payload, payload_hash, participants), instance),
        call_ensures(BcastInstance::<T>::echo_to_ready_threshold, (&instance,), echos),
        call_ensures(BcastInstance::<T>::ready_amp_threshold, (&instance,), amplifying),
        call_ensures(BcastInstance::<T>::delivery_threshold, (&instance,), delivering),
        3 * f < participants@.len() <= 3 * f + 3,
    ensures
        participants@.len() + f < 2 * echos <= participants@.len() + f + 2,
        amplifying == f + 1,
        delivering == 2 * f + 1,
{
}

/// A new instance tells what it was made for, and that it has heard from nobody.
pub proof fn law_new_instance_tells<T>(
    payload: T,
    payload_hash: HashBytes,
    participants: Vec<PublicKeyBytes>,
    instance: BcastInstance<T>,
    hash: HashBytes,
    listed: &Vec<PublicKeyBytes>,
    held: T,
    q: PublicKeyBytes,
    echo: bool,
    ready: bool,
)
    requires
        call_ensures(BcastInstance::<T>::new, (payload, payload_hash, participants), instance),
        call_ensures(BcastInstance::<T>::payload_hash, (&instance,), hash),
        call_ensures(BcastInstance::<T>::participants, (&instance,), listed),
        call_ensures(BcastInstance::<T>::into_payload, (instance,), held),
        call_ensures(BcastInstance::<T>::has_sent_echo, (&instance, q), echo),
        call_ensures(BcastInstance::<T>::has_sent_ready, (&instance, q), ready),
    ensures
        hash == payload_hash,
        listed@ == participants@,
        held == payload,
        !echo,
        !ready,
        !instance@.is_ready_msg_sent,
        !instance@.echo_threshold_reached,
        !instance@.ready_amp_threshold_reached,
        !instance@.delivery_threshold_reached,
{
}

/// An instance tells what is recorded in it.
pub proof fn law_instance_tells<T>(
    instance: BcastInstance<T>,
    q: PublicKeyBytes,
    echo: bool,
    ready: bool,
    sent: bool,
    echos: bool,
    amplified: bool,
    delivers: bool,
)
    requires
        call_ensures(BcastInstance::<T>::has_sent_echo, (&instance, q), echo),
        call_ensures(BcastInstance::<T>::has_sent_ready, (&instance, q), ready),
        call_ensures(BcastInstance::<T>::is_ready_msg_sent, (&instance,), sent),
        call_ensures(BcastInstance::<T>::echo_threshold_reached, (&instance,), echos),
        call_ensures(BcastInstance::<T>::ready_amp_threshold_reached, (&instance,), amplified),
        call_ensures(BcastInstance::<T>::delivery_threshold_reached, (&instance,), delivers),
    ensures
        echo <==> instance@.senders.contains_key(q) && instance@.senders[q].0,
        ready <==> instance@.senders.contains_key(q) && instance@.senders[q].1,
        sent == instance@.is_ready_msg_sent,
        echos == instance@.echo_threshold_reached,
        amplified == instance@.ready_amp_threshold_reached,
        delivers == instance@.delivery_threshold_reached,
{
}

/// A valid claim that is accepted is counted, and the node makes its Ready if that
/// gives it enough.
pub proof fn law_accepted_claims<R, T>(
    node: ProtocolNode<R>,
    instance: BcastInstance<T>,
    claim: Claim,
    on_echo: Stage<T>,
    on_ready: Stage<T>,
)
    requires
        call_ensures(ProtocolNode::<R>::accept_echo::<T>, (&node, instance, claim), on_echo),
        call_ensures(ProtocolNode::<R>::accept_ready::<T>, (&node, instance, claim), on_ready),
    ensures
        ({
            let j = instance@.counted_echo(claim.hash, claim.sender);
            if j.echo_threshold_reached {
                makes_ready(on_echo@, j, claim.hash, claim.msg_link_id)
            } else {
                delivers_or_goes_on(on_echo@, j)
            }
        }),
        ({
            let j = instance@.counted_ready(claim.hash, claim.sender);
            if j.ready_amp_threshold_reached && !instance@.is_ready_msg_sent {
                makes_ready(on_ready@, j, claim.hash, claim.msg_link_id)
            } else {
                delivers_or_goes_on(on_ready@, j)
            }
        }),
{
}

/// A node leaves only itself out of a list, and sorts messages out by what it has
/// heard.
pub proof fn law_node_decides<R, T>(
    node: ProtocolNode<R>,
    participants: &Vec<PublicKeyBytes>,
    without: Vec<PublicKeyBytes>,
    p: PublicKeyBytes,
    msg: &MsgLink<BroadcastRound<T>>,
    instance: &BcastInstance<T>,
    decided: Handling,
)
    requires
        call_ensures(ProtocolNode::<R>::others, (&node, participants), without),
        call_ensures(ProtocolNode::<R>::handle_message::<T>, (&node, msg, instance), decided),
    ensures
        without@ == others(participants@, node.key()),
        without@.contains(p) <==> participants@.contains(p) && p != node.key(),
        decided == handling(instance@, msg@),
        decided is Ignore || (msg.data matches BroadcastRound::Echo(_, _) && decided is VerifyEcho)
            || (msg.data matches BroadcastRound::Ready(_, _) && decided is VerifyReady),
{
    law_others(participants@, node.key(), p);
}

/// One turn of waiting for an Init, and one of collecting Echos and Readys, lead where
/// the session goes with that message.
pub proof fn law_turns<R, T: Clone>(
    node: ProtocolNode<R>,
    msg_queue: Vec<MsgLink<BroadcastRound<T>>>,
    msg: MsgLink<BroadcastRound<T>>,
    waited: Stage<T>,
    gave_up: Stage<T>,
    instance: BcastInstance<T>,
    collected: (Stage<T>, Effect<T>),
    closed: (Stage<T>, Effect<T>),
)
    requires
        call_ensures(
            ProtocolNode::<R>::wait_for_init::<T>,
            (&node, msg_queue, Some(msg)),
            waited,
        ),
        call_ensures(ProtocolNode::<R>::wait_for_init::<T>, (&node, msg_queue, None), gave_up),
        call_ensures(
            ProtocolNode::<R>::participate_in_broadcast_inner::<T>,
            (&node, instance, Some(msg)),
            collected,
        ),
        call_ensures(
            ProtocolNode::<R>::participate_in_broadcast_inner::<T>,
            (&node, instance, None),
            closed,
        ),
    ensures
        gave_up matches Stage::Done { outcome: Err(BroadcastError::InitMessageNotReceived) },
        closed.0 matches Stage::Done { outcome: Err(BroadcastError::DeliveryThresholdNotMet) },
        closed.1 is Quiet,
        match msg.data {
            BroadcastRound::Init(data, participants, signature) => waited
                matches Stage::VerifyInit {
                msg_queue: kept,
                sender,
                data: d,
                participants: ps,
                signature: s,
            } && {
                &&& queue_state(kept@) == queue_state(msg_queue@)
                &&& sender == msg.sender
                &&& d == data
                &&& ps@ == participants@
                &&& s == signature
            },
            _ => waited matches Stage::AwaitInit { msg_queue: kept } && queue_state(kept@)
                == queue_state(msg_queue@).push(msg@),
        },
        match handling(instance@, msg@) {
            Handling::Ignore(reason) => {
                &&& delivers_or_goes_on(collected.0@, instance@)
                &&& collected.1 matches Effect::Ignored { reason: r, sender } && r == reason
                    && sender == msg.sender
            },
            Handling::VerifyEcho(claim) => {
                &&& collected.0@ == (StageState::VerifyEcho { instance: instance@, claim })
                &&& collected.1 is Quiet
            },
            Handling::VerifyReady(claim) => {
                &&& collected.0@ == (StageState::VerifyReady { instance: instance@, claim })
                &&& collected.1 is Quiet
            },
        },
{
}

/// Whether the event does not say that an Init is signed or valid that lists nobody.
pub open spec fn lists_somebody<T>(stage: Stage<T>, event: Event<T>) -> bool {
    match (stage, event) {
        (Stage::SignInit { recipients, .. }, Event::InitSigned(Ok(_))) => recipients@.len() > 0,
        (Stage::VerifyInit { participants, .. }, Event::InitVerified(Some(_))) =>
            participants@.len() > 0,
        _ => true,
    }
}

/// A session can be started with anything, asked anything at any time, and taken on
/// by any event from its start on, as long as no Init is signed or found valid that
/// lists nobody.
pub proof fn law_sessions_can_go_on<R, T: Clone>(
    node: ProtocolNode<R>,
    recipients: Vec<PublicKeyBytes>,
    data: T,
    msg_link_id: MsgLinkId,
    timeout_secs: u64,
    session: Session<T>,
    earlier: Session<T>,
    past: Event<T>,
    effect: Effect<T>,
    stage: &Stage<T>,
    event: Event<T>,
)
    requires
        ({
            ||| call_ensures(
                ProtocolNode::<R>::broadcast_init::<T>,
                (&node, recipients, data, msg_link_id, timeout_secs),
                session,
            )
            ||| call_ensures(
                ProtocolNode::<R>::participate_in_broadcast::<T>,
                (&node, msg_link_id, timeout_secs),
                session,
            )
            ||| call_ensures(
                ProtocolNode::<R>::advance::<T>,
                (&node, earlier, past),
                (session, effect),
            )
        }),
        call_ensures(Session::<T>::stage, (&session,), stage),
        lists_somebody(*stage, event),
    ensures
        call_requires(ProtocolNode::<R>::advance::<T>, (&node, session, event)),
        call_requires(
            ProtocolNode::<R>::broadcast_init::<T>,
            (&node, recipients, data, msg_link_id, timeout_secs),
        ),
        call_requires(
            ProtocolNode::<R>::participate_in_broadcast::<T>,
            (&node, msg_link_id, timeout_secs),
        ),
        call_requires(Session::<T>::stage, (&session,)),
        call_requires(Session::<T>::msg_link_id, (&session,)),
        call_requires(Session::<T>::timeout_secs, (&session,)),
        call_requires(Session::<T>::into_outcome, (session,)),
{
}

/// The parts of a session can be used on their own: a claim can be accepted wherever
/// somebody is listed and there is room to count, and all else always.
pub proof fn law_parts_can_be_called<R, T: Clone>(
    node: ProtocolNode<R>,
    instance: BcastInstance<T>,
    claim: Claim,
    msg_queue: Vec<MsgLink<BroadcastRound<T>>>,
    msg: Option<MsgLink<BroadcastRound<T>>>,
    m: MsgLink<BroadcastRound<T>>,
    participants: Vec<PublicKeyBytes>,
)
    ensures
        instance@.participants.len() > 0 && instance@.echo_tally(claim.hash) < u128::MAX
            ==> call_requires(ProtocolNode::<R>::accept_echo::<T>, (&node, instance, claim)),
        instance@.participants.len() > 0 && instance@.ready_tally(claim.hash) < u128::MAX
            ==> call_requires(ProtocolNode::<R>::accept_ready::<T>, (&node, instance, claim)),
        call_requires(ProtocolNode::<R>::wait_for_init::<T>, (&node, msg_queue, msg)),
        call_requires(
            ProtocolNode::<R>::participate_in_broadcast_inner::<T>,
            (&node, instance, msg),
        ),
        call_requires(ProtocolNode::<R>::handle_message::<T>, (&node, &m, &instance)),
        call_requires(ProtocolNode::<R>::others, (&node, &participants)),
        instance@.participants.len() > 0 ==> call_requires(
            BcastInstance::<T>::echo_to_ready_threshold,
            (&instance,),
        ),
        instance@.participants.len() > 0 ==> call_requires(
            BcastInstance::<T>::ready_amp_threshold,
            (&instance,),
        ),
        instance@.participants.len() > 0 ==> call_requires(
            BcastInstance::<T>::delivery_threshold,
            (&instance,),
        ),
{
}

/// A sender that is marked, or whose Echo or Ready is counted, is one that was heard
/// from when asked afterwards; nobody else's answer changes, nor does that about the
/// other kind of message. What is counted is the hash that was given.
pub proof fn law_counted_is_remembered<T>(
    hash: HashBytes,
    sender: PublicKeyBytes,
    q: PublicKeyBytes,
    done: (),
)
    ensures
        forall|i: &mut BcastInstance<T>| #[trigger]
            call_ensures(BcastInstance::<T>::sent_echo, (i, sender), done) ==> {
                &&& final(i)@.has_echo(q) <==> i@.has_echo(q) || q == sender
                &&& final(i)@.has_ready(q) <==> i@.has_ready(q)
                &&& final(i)@ == (InstanceState { senders: final(i)@.senders, ..i@ })
            },
        forall|i: &mut BcastInstance<T>| #[trigger]
            call_ensures(BcastInstance::<T>::sent_ready, (i, sender), done) ==> {
                &&& final(i)@.has_ready(q) <==> i@.has_ready(q) || q == sender
                &&& final(i)@.has_echo(q) <==> i@.has_echo(q)
                &&& final(i)@ == (InstanceState { senders: final(i)@.senders, ..i@ })
            },
        forall|i: &mut BcastInstance<T>| #[trigger]
            call_ensures(BcastInstance::<T>::count_echo, (i, hash, sender), done) ==> {
                &&& final(i)@ == i@.counted_echo(hash, sender)
                &&& final(i)@.echo_tally(hash) == i@.echo_tally(hash) + 1
                &&& final(i)@.has_echo(q) <==> i@.has_echo(q) || q == sender
            },
        forall|i: &mut BcastInstance<T>| #[trigger]
            call_ensures(BcastInstance::<T>::count_ready, (i, hash, sender), done) ==> {
                &&& final(i)@ == i@.counted_ready(hash, sender)
                &&& final(i)@.ready_tally(hash) == i@.ready_tally(hash) + 1
                &&& final(i)@.has_ready(q) <==> i@.has_ready(q) || q == sender
            },
{
}

/// A node that sends its Echo or its Ready counts it as its own for the hash that it
/// is sent for, and sends that hash with the signature that it was given, to the
/// participants but itself.
pub proof fn law_sent_is_counted<R, T>(
    node: ProtocolNode<R>,
    hash: HashBytes,
    msg_link_id: MsgLinkId,
    signature: SignatureBytes,
    out: Outgoing<T>,
)
    ensures
        forall|i: &mut BcastInstance<T>| #[trigger]
            call_ensures(
                ProtocolNode::<R>::send_echo::<T>,
                (&node, i, hash, msg_link_id, signature),
                out,
            ) ==> {
                &&& final(i)@ == i@.counted_echo(hash, node.key())
                &&& out.data matches BroadcastRound::Echo(h, s) && h == hash && s == signature
                &&& out.msg_link_id == msg_link_id
                &&& out.sender == node.key()
                &&& out.to@ == others(i@.participants, node.key())
            },
        forall|i: &mut BcastInstance<T>| #[trigger]
            call_ensures(
                ProtocolNode::<R>::send_ready::<T>,
                (&node, i, hash, msg_link_id, signature),
                out,
            ) ==> {
                &&& final(i)@ == (InstanceState {
                    is_ready_msg_sent: true,
                    ..i@.counted_ready(hash, node.key())
                })
                &&& out.data matches BroadcastRound::Ready(h, s) && h == hash && s == signature
                &&& out.msg_link_id == msg_link_id
                &&& out.sender == node.key()
                &&& out.to@ == others(i@.participants, node.key())
            },
{
}

/// A table gives back what was last put in under a key, and nothing that was never
/// put in.
pub proof fn law_table_gives_back<K: Key, V: Copy>(
    key: K,
    value: V,
    other: K,
    empty: Table<K, V>,
    found: Option<V>,
    done: (),
)
    ensures
        call_ensures(Table::<K, V>::new, (), empty) && call_ensures(
            Table::<K, V>::get,
            (&empty, key),
            found,
        ) ==> found is None,
        forall|t: &mut Table<K, V>, r: Option<V>|
            #![trigger call_ensures(Table::<K, V>::insert, (t, key, value), done), call_ensures(Table::<K, V>::get, (&*final(t), other), r)]
            call_ensures(Table::<K, V>::insert, (t, key, value), done) && call_ensures(
                Table::<K, V>::get,
                (&*final(t), other),
                r,
            ) ==> {
                &&& other == key ==> r == Some(value)
                &&& other != key ==> (r is Some <==> t@.contains_key(other))
                &&& other != key && r is Some ==> r == Some(t@[other])
            },
{
}

} // verus!
