//! How a session conducts itself: what each event leads to, by the stage at which
//! it comes, and what is sent, checked and passed over on the way.
//!
//! The laws here hold of every session, sound or not, and of every node.

use vstd::prelude::*;

use crate::error::BroadcastError;
use crate::identity::{HashBytes, PublicKeyBytes, SignatureBytes};
use crate::instance::{queue_state, InstanceState};
use crate::laws::instance_of;
use crate::message::{BroadcastRound, MsgLink, MsgLinkId, Outgoing, RoundState};
use crate::node::{handling, others, to_others, Claim, Handling, Ignored};
use crate::session::{
    awaited, echo_accepted, msg_state, ready_accepted, taken, Effect, EffectState, Event,
    EventState, SessionState, Stage, StageState,
};
use crate::system::{hands_over, incoming, stated, to_check, to_sign};

verus! {

// What a session is.

/// A session starts with what it was asked for: the broadcast, the seconds allowed,
/// and for an initiator the data and the recipients as they were given.
pub proof fn law_sessions_start_as_asked<T>(
    recipients: Seq<PublicKeyBytes>,
    data: T,
    msg_link_id: MsgLinkId,
    timeout_secs: u64,
)
    ensures
        ({
            let s = SessionState::initiating(recipients, data, msg_link_id, timeout_secs);
            &&& s.msg_link_id == msg_link_id
            &&& s.timeout_secs == timeout_secs
            &&& s.stage == (StageState::SignInit { data, recipients })
            &&& s.sound()
        }),
        ({
            let s = SessionState::<T>::participating(msg_link_id, timeout_secs);
            &&& s.msg_link_id == msg_link_id
            &&& s.timeout_secs == timeout_secs
            &&& s.stage == (StageState::<T>::Subscribe { prepared: None })
            &&& s.sound()
        }),
{
}

/// Whatever happens, a session stays part of its broadcast, with the seconds that
/// it was allowed.
pub proof fn law_session_keeps_its_terms<T>(
    s: SessionState<T>,
    me: PublicKeyBytes,
    event: EventState<T>,
)
    ensures
        s.step(me, event).0.msg_link_id == s.msg_link_id,
        s.step(me, event).0.timeout_secs == s.timeout_secs,
{
}

/// Every event can be taken, unless it says that an Init is signed or valid that
/// lists nobody.
pub proof fn law_events_that_can_be_taken<T>(s: SessionState<T>, event: EventState<T>)
    ensures
        !s.admits(event) <==> {
            ||| s.stage matches StageState::SignInit { recipients, .. } && recipients.len() == 0
                && event matches EventState::InitSigned(Ok(_))
            ||| s.stage matches StageState::VerifyInit { participants, .. } && participants.len()
                == 0 && event matches EventState::InitVerified(Some(_))
        },
{
}

/// From the subscription on, a session that is not over ends when its time is up,
/// whatever it waits for and whatever it has done; before that, and once it is
/// over, the time does not matter.
pub proof fn law_time_is_up<T>(s: SessionState<T>, me: PublicKeyBytes)
    ensures
        s.step(me, EventState::TimedOut).1 == EffectState::<T>::Quiet,
        match s.stage {
            StageState::SignInit { .. } => s.step(me, EventState::TimedOut).0 == s,
            StageState::SignEcho { initiator: true, .. } => s.step(me, EventState::TimedOut).0 == s,
            StageState::Subscribe { .. } => s.step(me, EventState::TimedOut).0 == s,
            StageState::Done { .. } => s.step(me, EventState::TimedOut).0 == s,
            StageState::SignEcho { initiator: false, .. } => timed_out(s, me),
            StageState::AwaitInit { .. } => timed_out(s, me),
            StageState::VerifyInit { .. } => timed_out(s, me),
            StageState::Drain { .. } => timed_out(s, me),
            StageState::Collect { .. } => timed_out(s, me),
            StageState::VerifyEcho { .. } => timed_out(s, me),
            StageState::VerifyReady { .. } => timed_out(s, me),
            StageState::SignReady { .. } => timed_out(s, me),
        },
{
}

/// Whether the session ends with a timeout after its own number of seconds when its
/// time is up.
pub open spec fn timed_out<T>(s: SessionState<T>, me: PublicKeyBytes) -> bool {
    s.step(me, EventState::TimedOut).0.stage == (StageState::<T>::Done {
        outcome: Err(BroadcastError::Timeout(s.timeout_secs)),
    })
}

/// Whether this is an event that a session waits for at this stage.
pub open spec fn awaits<T>(stage: StageState<T>, event: EventState<T>) -> bool {
    match stage {
        StageState::SignInit { .. } => event is InitSigned,
        StageState::SignEcho { .. } => event is EchoSigned,
        StageState::Subscribe { .. } => event is Subscribed,
        StageState::AwaitInit { .. } => event is Received,
        StageState::VerifyInit { .. } => event is InitVerified,
        StageState::Drain { .. } => event is Continue,
        StageState::Collect { .. } => event is Received,
        StageState::VerifyEcho { .. } => event is Verified,
        StageState::VerifyReady { .. } => event is Verified,
        StageState::SignReady { .. } => event is ReadySigned,
        StageState::Done { .. } => false,
    }
}

/// An event that a session does not wait for changes nothing and leads to nothing,
/// unless its time is up; one that it waits for takes it on.
pub proof fn law_stray_events<T>(s: SessionState<T>, me: PublicKeyBytes, event: EventState<T>)
    ensures
        !awaits(s.stage, event) && event != EventState::<T>::TimedOut ==> s.step(me, event) == (
            s,
            EffectState::<T>::Quiet,
        ),
        awaits(s.stage, event) && !(s.stage is Drain) && !(s.stage is Collect)
            && !(s.stage is AwaitInit) ==> s.step(me, event).0.stage != s.stage,
{
}

// What is sent.

/// A message is sent when a signature is handed over that the session waits for,
/// and at no other time. It says what was to be signed, carries that signature, is
/// from the node itself, and goes to the participants other than the node (see
/// [`law_receivers`]).
pub proof fn law_what_is_sent<T>(s: SessionState<T>, me: PublicKeyBytes, event: EventState<T>)
    ensures
        match (s.stage, event) {
            (
                StageState::SignInit { data, recipients },
                EventState::InitSigned(Ok((signature, _))),
            ) => s.step(me, event).1 matches EffectState::Send(out) && {
                &&& out.data == RoundState::Init(data, recipients, signature)
                &&& out.msg_link_id == s.msg_link_id
                &&& out.sender == me
                &&& out.to == others(recipients, me)
            },
            (StageState::SignEcho { instance, .. }, EventState::EchoSigned(signature)) => s.step(
                me,
                event,
            ).1 matches EffectState::Send(out) && {
                &&& out.data == RoundState::<T>::Echo(instance.payload_hash, signature)
                &&& out.msg_link_id == s.msg_link_id
                &&& out.sender == me
                &&& out.to == others(instance.participants, me)
            },
            (
                StageState::SignReady { instance, hash, msg_link_id },
                EventState::ReadySigned(signature),
            ) => s.step(me, event).1 matches EffectState::Send(out) && {
                &&& out.data == RoundState::<T>::Ready(hash, signature)
                &&& out.msg_link_id == msg_link_id
                &&& out.sender == me
                &&& out.to == others(instance.participants, me)
            },
            _ => !(s.step(me, event).1 is Send),
        },
{
}

/// Whatever is sent carries exactly the signature that was just handed over, under
/// the statement that the session waited to have signed.
pub proof fn law_signature_is_carried<T>(
    s: SessionState<T>,
    me: PublicKeyBytes,
    event: EventState<T>,
)
    ensures
        s.step(me, event).1 matches EffectState::Send(out) ==> {
            &&& to_sign(s) is Some
            &&& to_sign(s).unwrap() == stated(incoming(out)).0
            &&& hands_over(
                event,
                to_sign(s).unwrap(),
                stated(incoming(out)).1,
            )
        },
{
}

/// Every other participant gets the message once for each time it is listed, in the
/// order of the list, and the node itself never does: a list is gone through from
/// front to back, and only the node itself is left out.
pub proof fn law_receivers<T>(
    me: PublicKeyBytes,
    p: PublicKeyBytes,
    a: Seq<PublicKeyBytes>,
    b: Seq<PublicKeyBytes>,
    data: RoundState<T>,
    msg_link_id: MsgLinkId,
)
    ensures
        others(a + b, me) == others(a, me) + others(b, me),
        others(seq![p], me) == (if p == me {
            Seq::<PublicKeyBytes>::empty()
        } else {
            seq![p]
        }),
        others(Seq::empty(), me) == Seq::<PublicKeyBytes>::empty(),
        to_others(me, a, data, msg_link_id).to == others(a, me),
        to_others(me, a, data, msg_link_id).sender == me,
        to_others(me, a, data, msg_link_id).data == data,
        to_others(me, a, data, msg_link_id).msg_link_id == msg_link_id,
    decreases b.len(),
{
    reveal(Seq::filter);
    reveal_with_fuel(Seq::filter, 2);
    assert(seq![p].drop_last() =~= Seq::<PublicKeyBytes>::empty());
    if b.len() == 0 {
        assert(a + b =~= a);
        assert(others(a, me) + others(b, me) =~= others(a, me));
    } else {
        law_receivers(me, p, a, b.drop_last(), data, msg_link_id);
        assert((a + b).drop_last() =~= a + b.drop_last());
        assert((a + b).last() == b.last());
        assert(others(a, me) + others(b.drop_last(), me).push(b.last()) =~= (others(a, me)
            + others(b.drop_last(), me)).push(b.last()));
    }
}

// What is checked, and what is passed over.

/// What is to be checked of a message, and why a message is passed over: an Init is
/// repeated; an Echo or a Ready is for another hash, or of someone who was heard
/// already, or an Echo comes when the node is ready; and all else is checked, as
/// the message has it.
pub proof fn law_messages_are_sorted<T>(i: InstanceState<T>, m: MsgLink<RoundState<T>>)
    ensures
        match m.data {
            RoundState::Init(_, _, _) => handling(i, m) == Handling::Ignore(Ignored::RepeatedInit),
            RoundState::Echo(hash, signature) => {
                let claim = Claim {
                    sender: m.sender,
                    hash,
                    msg_link_id: m.msg_link_id,
                    signature,
                };
                let known = i.senders.contains_key(m.sender) && i.senders[m.sender].0;
                &&& handling(i, m) == Handling::Ignore(Ignored::EchoHashMismatch) <==> hash
                    != i.payload_hash
                &&& handling(i, m) == Handling::Ignore(Ignored::ReadyAlreadySent) <==> hash
                    == i.payload_hash && i.is_ready_msg_sent
                &&& handling(i, m) == Handling::Ignore(Ignored::DuplicateEcho) <==> hash
                    == i.payload_hash && !i.is_ready_msg_sent && known
                &&& handling(i, m) == Handling::VerifyEcho(claim) <==> hash == i.payload_hash
                    && !i.is_ready_msg_sent && !known
            },
            RoundState::Ready(hash, signature) => {
                let claim = Claim {
                    sender: m.sender,
                    hash,
                    msg_link_id: m.msg_link_id,
                    signature,
                };
                let known = i.senders.contains_key(m.sender) && i.senders[m.sender].1;
                &&& handling(i, m) == Handling::Ignore(Ignored::ReadyHashMismatch) <==> hash
                    != i.payload_hash
                &&& handling(i, m) == Handling::Ignore(Ignored::DuplicateReady) <==> hash
                    == i.payload_hash && known
                &&& handling(i, m) == Handling::VerifyReady(claim) <==> hash == i.payload_hash
                    && !known
            },
        },
{
}

/// What a node is asked to check is what another has signed: where one session has a
/// statement signed and sends it, and another of the same broadcast takes that
/// message in and is to check one, that is the statement, under that signature, of
/// that node.
pub proof fn law_checked_is_what_was_signed<T>(
    a: SessionState<T>,
    p: PublicKeyBytes,
    event: EventState<T>,
    b: SessionState<T>,
    q: PublicKeyBytes,
    signature: SignatureBytes,
)
    requires
        to_sign(a) is Some,
        hands_over(event, to_sign(a).unwrap(), signature),
        a.msg_link_id == b.msg_link_id,
        b.listening(),
    ensures
        a.step(p, event).1 is Send,
        a.step(p, event).1 matches EffectState::Send(out) ==> {
            let after = b.step(q, EventState::Received(Some(incoming(out)))).0;
            to_check(after) is Some ==> to_check(after) == Some(
                (to_sign(a).unwrap(), p, signature),
            )
        },
{
}

// Where a session goes.

/// Whether this is where a node goes on with the instance: to its queued messages
/// as long as there are any, and then to those that come in.
pub open spec fn goes_on<T>(stage: StageState<T>, i: InstanceState<T>) -> bool {
    &&& i.msg_queue.len() > 0 <==> stage is Drain
    &&& i.msg_queue.len() == 0 <==> stage is Collect
    &&& instance_of(stage) == Some(i)
}

/// Whether this is where a node goes after a message: it delivers the payload, once
/// enough Readys are counted, and goes on otherwise.
pub open spec fn delivers_or_goes_on<T>(stage: StageState<T>, i: InstanceState<T>) -> bool {
    &&& i.delivery_threshold_reached ==> stage == (StageState::Done { outcome: Ok(i.payload) })
    &&& !i.delivery_threshold_reached ==> goes_on(stage, i)
}

/// Whether the node waits for the signature on its Ready for this hash in this
/// broadcast.
pub open spec fn makes_ready<T>(
    stage: StageState<T>,
    i: InstanceState<T>,
    hash: HashBytes,
    msg_link_id: MsgLinkId,
) -> bool {
    stage == (StageState::SignReady { instance: i, hash, msg_link_id })
}

/// With a signed Init the initiator goes on to its own Echo, about the data, the
/// hash and the recipients of that Init; without one its session fails for the
/// reason given.
pub proof fn law_init_signed<T>(
    s: SessionState<T>,
    me: PublicKeyBytes,
    data: T,
    recipients: Seq<PublicKeyBytes>,
    signature: SignatureBytes,
    hash: HashBytes,
    reason: String,
)
    requires
        s.stage == (StageState::SignInit { data, recipients }),
    ensures
        s.step(me, EventState::InitSigned(Ok((signature, hash)))).0.stage matches StageState::SignEcho {
            instance,
            initiator,
        } && {
            &&& initiator
            &&& instance.payload == data
            &&& instance.payload_hash == hash
            &&& instance.participants == recipients
            &&& instance.msg_queue.len() == 0
            &&& instance == InstanceState::fresh(data, hash, recipients)
        },
        s.step(me, EventState::InitSigned(Err(reason))).0.stage == (StageState::<T>::Done {
            outcome: Err(BroadcastError::SigningFailed(reason)),
        }),
        s.step(me, EventState::InitSigned(Err(reason))).1 == EffectState::<T>::Quiet,
{
}

/// With its Echo signed, a node has counted it as its own. An initiator then
/// subscribes. A recipient goes on to the messages, or to its Ready if the Echo is
/// all that it takes.
pub proof fn law_echo_signed<T>(
    s: SessionState<T>,
    me: PublicKeyBytes,
    i: InstanceState<T>,
    initiator: bool,
    signature: SignatureBytes,
)
    requires
        s.stage == (StageState::SignEcho { instance: i, initiator }),
    ensures
        ({
            let next = s.step(me, EventState::EchoSigned(signature)).0.stage;
            let j = i.counted_echo(i.payload_hash, me);
            &&& initiator ==> next == (StageState::Subscribe { prepared: Some(j) })
            &&& !initiator && j.echo_threshold_reached ==> makes_ready(
                next,
                j,
                i.payload_hash,
                s.msg_link_id,
            )
            &&& !initiator && !j.echo_threshold_reached ==> goes_on(next, j)
        }),
{
}

/// Without a subscription a session fails, for its own broadcast. With one, a
/// recipient waits for an Init with nothing queued, and an initiator goes on to the
/// messages, or to its Ready if its own Echo is all that it takes.
pub proof fn law_subscribed<T>(
    s: SessionState<T>,
    me: PublicKeyBytes,
    prepared: Option<InstanceState<T>>,
)
    requires
        s.stage == (StageState::Subscribe { prepared }),
    ensures
        s.step(me, EventState::Subscribed(false)).0.stage == (StageState::<T>::Done {
            outcome: Err(BroadcastError::SubscriptionFailed(s.msg_link_id)),
        }),
        s.step(me, EventState::Subscribed(false)).1 == EffectState::<T>::Quiet,
        s.step(me, EventState::Subscribed(true)).1 == EffectState::<T>::Quiet,
        prepared is None ==> (s.step(me, EventState::Subscribed(true)).0.stage
            matches StageState::AwaitInit { msg_queue } && msg_queue.len() == 0),
        prepared matches Some(i) ==> {
            let next = s.step(me, EventState::Subscribed(true)).0.stage;
            &&& i.echo_threshold_reached ==> makes_ready(next, i, i.payload_hash, s.msg_link_id)
            &&& !i.echo_threshold_reached ==> goes_on(next, i)
        },
{
}

/// A recipient that waits for an Init has the next one checked, as it came, queues
/// any other message behind the earlier ones, and fails when none will come.
pub proof fn law_received_early<T>(
    s: SessionState<T>,
    me: PublicKeyBytes,
    msg_queue: Seq<MsgLink<RoundState<T>>>,
    m: MsgLink<RoundState<T>>,
)
    requires
        s.stage == (StageState::AwaitInit { msg_queue }),
    ensures
        s.step(me, EventState::Received(None)).0.stage == (StageState::<T>::Done {
            outcome: Err(BroadcastError::InitMessageNotReceived),
        }),
        s.step(me, EventState::Received(None)).1 == EffectState::<T>::Quiet,
        s.step(me, EventState::Received(Some(m))).1 == EffectState::<T>::Quiet,
        match (m.data, s.step(me, EventState::Received(Some(m))).0.stage) {
            (
                RoundState::Init(data, participants, signature),
                StageState::VerifyInit {
                    msg_queue: kept,
                    sender,
                    data: checked,
                    participants: listed,
                    signature: backing,
                },
            ) => {
                &&& kept == msg_queue
                &&& sender == m.sender
                &&& checked == data
                &&& listed == participants
                &&& backing == signature
            },
            (RoundState::Init(_, _, _), _) => false,
            (_, StageState::AwaitInit { msg_queue: kept }) => {
                &&& kept.len() == msg_queue.len() + 1
                &&& kept.drop_last() == msg_queue
                &&& kept.last() == m
            },
            _ => false,
        },
        awaited(msg_queue, Some(m)) == s.step(me, EventState::Received(Some(m))).0.stage,
        awaited::<T>(msg_queue, None) == s.step(me, EventState::Received(None)).0.stage,
{
    assert(msg_queue.push(m).drop_last() =~= msg_queue);
}

/// With a valid Init a recipient goes on to its own Echo, about the data, the
/// participants and the hash of that Init, with all that it has queued. An invalid
/// one is passed over, and the recipient waits on with all that it has queued.
pub proof fn law_init_checked<T>(
    s: SessionState<T>,
    me: PublicKeyBytes,
    msg_queue: Seq<MsgLink<RoundState<T>>>,
    sender: PublicKeyBytes,
    data: T,
    participants: Seq<PublicKeyBytes>,
    signature: SignatureBytes,
    hash: HashBytes,
)
    requires
        s.stage == (StageState::VerifyInit { msg_queue, sender, data, participants, signature }),
    ensures
        s.step(me, EventState::InitVerified(None)).0.stage == (StageState::AwaitInit { msg_queue }),
        s.step(me, EventState::InitVerified(None)).1 == (EffectState::<T>::Ignored {
            reason: Ignored::InvalidInit,
            sender,
        }),
        s.step(me, EventState::InitVerified(Some(hash))).1 == EffectState::<T>::Quiet,
        s.step(me, EventState::InitVerified(Some(hash))).0.stage matches StageState::SignEcho {
            instance,
            initiator,
        } && {
            &&& !initiator
            &&& instance.payload == data
            &&& instance.payload_hash == hash
            &&& instance.participants == participants
            &&& instance.msg_queue == msg_queue
            &&& (InstanceState { msg_queue: Seq::empty(), ..instance }) == InstanceState::fresh(
                data,
                hash,
                participants,
            )
        },
{
}

/// Whether this is what a node with the instance makes of the message: one that is to
/// be checked waits for that, and one that is passed over is reported with its
/// reason and its sender.
pub open spec fn makes_of<T>(
    next: (StageState<T>, EffectState<T>),
    i: InstanceState<T>,
    m: MsgLink<RoundState<T>>,
) -> bool {
    match handling(i, m) {
        Handling::VerifyEcho(claim) => {
            &&& next.0 == (StageState::VerifyEcho { instance: i, claim })
            &&& next.1 is Quiet
        },
        Handling::VerifyReady(claim) => {
            &&& next.0 == (StageState::VerifyReady { instance: i, claim })
            &&& next.1 is Quiet
        },
        Handling::Ignore(reason) => {
            &&& delivers_or_goes_on(next.0, i)
            &&& next.1 == (EffectState::<T>::Ignored { reason, sender: m.sender })
        },
    }
}

/// A node that waits for messages has the next one dealt with, and gives up when
/// none will come. One that has messages queued has the last of them dealt with,
/// which then is no longer queued.
pub proof fn law_message_taken<T>(
    s: SessionState<T>,
    me: PublicKeyBytes,
    i: InstanceState<T>,
    m: MsgLink<RoundState<T>>,
)
    ensures
        s.stage == (StageState::Collect { instance: i }) ==> {
            let (next, effect) = s.step(me, EventState::Received(Some(m)));
            &&& makes_of((next.stage, effect), i, m)
            &&& taken(i, Some(m)) == (next.stage, effect)
        },
        s.stage == (StageState::Collect { instance: i }) ==> {
            let (next, effect) = s.step(me, EventState::Received(None));
            &&& next.stage == (StageState::<T>::Done {
                outcome: Err(BroadcastError::DeliveryThresholdNotMet),
            })
            &&& effect is Quiet
            &&& taken(i, None) == (next.stage, effect)
        },
        s.stage == (StageState::Drain {
            instance: InstanceState { msg_queue: i.msg_queue.push(m), ..i },
        }) ==> {
            let (next, effect) = s.step(me, EventState::Continue);
            makes_of((next.stage, effect), i, m)
        },
{
    assert(i.msg_queue.push(m).drop_last() =~= i.msg_queue);
}

/// An Echo whose signature holds is counted; the node makes its Ready when that
/// gives it enough Echos. One whose signature does not hold changes nothing and is
/// passed over.
pub proof fn law_echo_checked<T>(
    s: SessionState<T>,
    me: PublicKeyBytes,
    i: InstanceState<T>,
    claim: Claim,
)
    requires
        s.stage == (StageState::VerifyEcho { instance: i, claim }),
    ensures
        ({
            let (next, effect) = s.step(me, EventState::Verified(true));
            let j = i.counted_echo(claim.hash, claim.sender);
            &&& effect is Quiet
            &&& j.echo_threshold_reached ==> makes_ready(
                next.stage,
                j,
                claim.hash,
                claim.msg_link_id,
            )
            &&& !j.echo_threshold_reached ==> delivers_or_goes_on(next.stage, j)
            &&& echo_accepted(i, claim) == next.stage
        }),
        ({
            let (next, effect) = s.step(me, EventState::Verified(false));
            &&& delivers_or_goes_on(next.stage, i)
            &&& effect == (EffectState::<T>::Ignored {
                reason: Ignored::InvalidEcho,
                sender: claim.sender,
            })
        }),
{
}

/// A Ready whose signature holds is counted; the node makes its own when that gives
/// it enough Readys and it has sent none. One whose signature does not hold changes
/// nothing and is passed over.
pub proof fn law_ready_checked<T>(
    s: SessionState<T>,
    me: PublicKeyBytes,
    i: InstanceState<T>,
    claim: Claim,
)
    requires
        s.stage == (StageState::VerifyReady { instance: i, claim }),
    ensures
        ({
            let (next, effect) = s.step(me, EventState::Verified(true));
            let j = i.counted_ready(claim.hash, claim.sender);
            let owes = j.ready_amp_threshold_reached && !i.is_ready_msg_sent;
            &&& effect is Quiet
            &&& owes ==> makes_ready(next.stage, j, claim.hash, claim.msg_link_id)
            &&& !owes ==> delivers_or_goes_on(next.stage, j)
            &&& ready_accepted(i, claim) == next.stage
        }),
        ({
            let (next, effect) = s.step(me, EventState::Verified(false));
            &&& delivers_or_goes_on(next.stage, i)
            &&& effect == (EffectState::<T>::Ignored {
                reason: Ignored::InvalidReady,
                sender: claim.sender,
            })
        }),
{
}

/// With its Ready signed, a node has counted it as its own and will not send
/// another; it delivers if it can, and goes on otherwise.
pub proof fn law_ready_signed<T>(
    s: SessionState<T>,
    me: PublicKeyBytes,
    i: InstanceState<T>,
    hash: HashBytes,
    msg_link_id: MsgLinkId,
    signature: SignatureBytes,
)
    requires
        s.stage == (StageState::SignReady { instance: i, hash, msg_link_id }),
    ensures
        ({
            let next = s.step(me, EventState::ReadySigned(signature)).0.stage;
            let j = InstanceState { is_ready_msg_sent: true, ..i.counted_ready(hash, me) };
            delivers_or_goes_on(next, j)
        }),
{
}

/// Why a session ends: each outcome has its cause, and no other.
pub proof fn law_outcomes_have_causes<T>(
    s: SessionState<T>,
    me: PublicKeyBytes,
    event: EventState<T>,
    outcome: Result<T, BroadcastError>,
)
    requires
        !(s.stage is Done),
        s.step(me, event).0.stage == (StageState::Done { outcome }),
    ensures
        match outcome {
            Ok(value) => {
                &&& instance_of(s.stage) is Some
                &&& instance_of(s.stage).unwrap().payload == value
                &&& match event {
                    EventState::Continue => s.stage is Drain,
                    EventState::Received(Some(_)) => s.stage is Collect,
                    EventState::Verified(_) => s.stage is VerifyEcho || s.stage is VerifyReady,
                    EventState::ReadySigned(_) => s.stage is SignReady,
                    _ => false,
                }
            },
            Err(BroadcastError::SigningFailed(reason)) => s.stage is SignInit && event
                == EventState::<T>::InitSigned(Err(reason)),
            Err(BroadcastError::SubscriptionFailed(id)) => s.stage is Subscribe && event
                == EventState::<T>::Subscribed(false) && id == s.msg_link_id,
            Err(BroadcastError::InitMessageNotReceived) => s.stage is AwaitInit && event
                == EventState::<T>::Received(None),
            Err(BroadcastError::DeliveryThresholdNotMet) => s.stage is Collect && event
                == EventState::<T>::Received(None),
            Err(BroadcastError::Timeout(secs)) => event == EventState::<T>::TimedOut && secs
                == s.timeout_secs,
        },
{
}

/// A node delivers only with more Readys for one hash than twice the tolerated
/// faults, its own included.
pub proof fn law_delivery_has_readys<T>(
    i: InstanceState<T>,
    hash: HashBytes,
    sender: PublicKeyBytes,
    f: nat,
)
    requires
        3 * f < i.participants.len() <= 3 * f + 3,
        !i.delivery_threshold_reached,
    ensures
        i.counted_ready(hash, sender).delivery_threshold_reached <==> i.ready_tally(hash) >= 2 * f,
        !i.counted_echo(hash, sender).delivery_threshold_reached,
{
}

// What the models leave out: nothing.

/// An event is seen as it is.
pub proof fn law_events_are_seen<T>(event: Event<T>)
    ensures
        match event {
            Event::InitSigned(r) => event@ == EventState::<T>::InitSigned(r),
            Event::EchoSigned(s) => event@ == EventState::<T>::EchoSigned(s),
            Event::ReadySigned(s) => event@ == EventState::<T>::ReadySigned(s),
            Event::Subscribed(b) => event@ == EventState::<T>::Subscribed(b),
            Event::InitVerified(h) => event@ == EventState::<T>::InitVerified(h),
            Event::Verified(b) => event@ == EventState::<T>::Verified(b),
            Event::Received(None) => event@ == EventState::<T>::Received(None),
            Event::Received(Some(m)) => event@ matches EventState::Received(Some(seen)) && {
                &&& seen.sender == m.sender
                &&& seen.msg_link_id == m.msg_link_id
                &&& seen.data == m.data@
            },
            Event::Continue => event@ == EventState::<T>::Continue,
            Event::TimedOut => event@ == EventState::<T>::TimedOut,
        },
{
}

/// A message is seen as it is.
pub proof fn law_messages_are_seen<T>(
    data: BroadcastRound<T>,
    m: MsgLink<BroadcastRound<T>>,
    out: Outgoing<T>,
    queue: Seq<MsgLink<BroadcastRound<T>>>,
    k: int,
)
    ensures
        match data {
            BroadcastRound::Init(d, ps, s) => data@ == RoundState::Init(d, ps@, s),
            BroadcastRound::Echo(h, s) => data@ == RoundState::<T>::Echo(h, s),
            BroadcastRound::Ready(h, s) => data@ == RoundState::<T>::Ready(h, s),
        },
        m@.sender == m.sender,
        m@.msg_link_id == m.msg_link_id,
        m@.data == m.data@,
        out@.to == out.to@,
        out@.msg_link_id == out.msg_link_id,
        out@.sender == out.sender,
        out@.data == out.data@,
        queue_state(queue).len() == queue.len(),
        0 <= k < queue.len() ==> queue_state(queue)[k] == queue[k]@,
        msg_state(Some(m)) == Some(m@),
        msg_state::<T>(None) is None,
{
}

/// A stage is seen as it is.
pub proof fn law_stages_are_seen<T>(stage: Stage<T>)
    ensures
        match (stage, stage@) {
            (
                Stage::SignInit { data, recipients },
                StageState::SignInit { data: d, recipients: r },
            ) => d == data && r == recipients@,
            (
                Stage::SignEcho { instance, initiator },
                StageState::SignEcho { instance: i, initiator: b },
            ) => i == instance@ && b == initiator,
            (Stage::Subscribe { prepared }, StageState::Subscribe { prepared: p }) => {
                &&& prepared is Some <==> p is Some
                &&& prepared matches Some(i) ==> p == Some(i@)
            },
            (Stage::AwaitInit { msg_queue }, StageState::AwaitInit { msg_queue: q }) => q
                == queue_state(msg_queue@),
            (
                Stage::VerifyInit { msg_queue, sender, data, participants, signature },
                StageState::VerifyInit {
                    msg_queue: q,
                    sender: p,
                    data: d,
                    participants: ps,
                    signature: s,
                },
            ) => {
                &&& q == queue_state(msg_queue@)
                &&& p == sender
                &&& d == data
                &&& ps == participants@
                &&& s == signature
            },
            (Stage::Drain { instance }, StageState::Drain { instance: i }) => i == instance@,
            (Stage::Collect { instance }, StageState::Collect { instance: i }) => i == instance@,
            (
                Stage::VerifyEcho { instance, claim },
                StageState::VerifyEcho { instance: i, claim: c },
            ) => i == instance@ && c == claim,
            (
                Stage::VerifyReady { instance, claim },
                StageState::VerifyReady { instance: i, claim: c },
            ) => i == instance@ && c == claim,
            (
                Stage::SignReady { instance, hash, msg_link_id },
                StageState::SignReady { instance: i, hash: h, msg_link_id: id },
            ) => i == instance@ && h == hash && id == msg_link_id,
            (Stage::Done { outcome }, StageState::Done { outcome: o }) => o == outcome,
            _ => false,
        },
{
}

/// An effect is the one that was meant: to stay quiet, to pass over this message of
/// this sender, or to send just this to just these; of the data in an Init it is a
/// clone that is sent.
pub proof fn law_effects_are_meant<T: Clone>(effect: Effect<T>, meant: EffectState<T>)
    requires
        effect.realises(meant),
    ensures
        match (effect, meant) {
            (Effect::Quiet, EffectState::Quiet) => true,
            (
                Effect::Ignored { reason, sender },
                EffectState::Ignored { reason: r, sender: p },
            ) => reason == r && sender == p,
            (Effect::Send(out), EffectState::Send(want)) => {
                &&& out.to@ == want.to
                &&& out.msg_link_id == want.msg_link_id
                &&& out.sender == want.sender
                &&& match (out.data, want.data) {
                    (BroadcastRound::Init(d, ps, s), RoundState::Init(wd, wps, ws)) => {
                        &&& cloned(wd, d)
                        &&& ps@ == wps
                        &&& s == ws
                    },
                    (BroadcastRound::Echo(h, s), RoundState::Echo(wh, ws)) => h == wh && s == ws,
                    (BroadcastRound::Ready(h, s), RoundState::Ready(wh, ws)) => h == wh && s == ws,
                    _ => false,
                }
            },
            _ => false,
        },
{
}

} // verus!
