//! What every session keeps to, whatever happens outside.

use vstd::prelude::*;

use crate::identity::{HashBytes, PublicKeyBytes, SignatureBytes};
use crate::instance::InstanceState;
use crate::message::{MsgLink, RoundState};
use crate::node::{handling, others, Handling};
use crate::quorum::{
    amplification_quorum, echo_quorum, fault_bound, law_honest_member, law_thresholds,
};
use crate::session::{settled, EffectState, EventState, SessionState, StageState};

verus! {

/// The instance that a session has between its Echo and its outcome.
pub open spec fn instance_of<T>(stage: StageState<T>) -> Option<InstanceState<T>> {
    match stage {
        StageState::Subscribe { prepared } => prepared,
        StageState::Drain { instance } => Some(instance),
        StageState::Collect { instance } => Some(instance),
        StageState::VerifyEcho { instance, .. } => Some(instance),
        StageState::VerifyReady { instance, .. } => Some(instance),
        StageState::SignReady { instance, .. } => Some(instance),
        _ => None,
    }
}

/// How far a session is: it has yet to send Init (0), waits for one (1), has yet
/// to send Echo (2), has sent Echo (3), has sent Ready (4), is over (5).
pub open spec fn progress<T>(stage: StageState<T>) -> nat {
    match stage {
        StageState::SignInit { .. } => 0,
        StageState::SignEcho { .. } => 2,
        StageState::Done { .. } => 5,
        _ => match instance_of(stage) {
            Some(i) => if i.is_ready_msg_sent {
                4
            } else {
                3
            },
            None => 1,
        },
    }
}

/// The kinds of messages that a node sends.
pub enum Phase {
    Init,
    Echo,
    Ready,
}

/// Which kind of message the effect is to send, if any.
pub open spec fn sends<T>(effect: EffectState<T>) -> Option<Phase> {
    match effect {
        EffectState::Send(out) => match out.data {
            RoundState::Init(_, _, _) => Some(Phase::Init),
            RoundState::Echo(_, _) => Some(Phase::Echo),
            RoundState::Ready(_, _) => Some(Phase::Ready),
        },
        _ => None,
    }
}

/// The session of the node `me` after the first `k` of the events.
pub open spec fn after_events<T>(
    s: SessionState<T>,
    me: PublicKeyBytes,
    events: Seq<EventState<T>>,
    k: nat,
) -> SessionState<T>
    decreases k,
{
    if k == 0 {
        s
    } else {
        after_events(s, me, events, (k - 1) as nat).step(me, events[k - 1]).0
    }
}

/// What the session of the node `me` asks for at the event number `k`.
pub open spec fn effect_at<T>(
    s: SessionState<T>,
    me: PublicKeyBytes,
    events: Seq<EventState<T>>,
    k: nat,
) -> EffectState<T> {
    after_events(s, me, events, k).step(me, events[k as int]).1
}

/// Whether each of the events can be taken when it comes.
pub open spec fn all_admitted<T>(
    s: SessionState<T>,
    me: PublicKeyBytes,
    events: Seq<EventState<T>>,
) -> bool {
    forall|k: nat|
        k < events.len() ==> (#[trigger] after_events(s, me, events, k)).admits(events[k as int])
}

/// The three phases come in order (Init, Echo, Ready): a session never goes
/// back, and each kind of message is sent at its own point and no other.
pub proof fn law_phases_in_order<T>(s: SessionState<T>, me: PublicKeyBytes, event: EventState<T>)
    requires
        s.sound(),
    ensures
        progress(s.stage) <= progress(s.step(me, event).0.stage),
        sends(s.step(me, event).1) == Some(Phase::Init) ==> progress(s.stage) == 0 && progress(
            s.step(me, event).0.stage,
        ) == 2,
        sends(s.step(me, event).1) == Some(Phase::Echo) ==> progress(s.stage) == 2 && progress(
            s.step(me, event).0.stage,
        ) == 3,
        sends(s.step(me, event).1) == Some(Phase::Ready) ==> progress(s.stage) == 3 && progress(
            s.step(me, event).0.stage,
        ) >= 4,
{
}

/// A session never goes back over any number of events, and stays sound.
proof fn lemma_events<T>(
    s: SessionState<T>,
    me: PublicKeyBytes,
    events: Seq<EventState<T>>,
    k: nat,
    l: nat,
)
    requires
        s.sound(),
        all_admitted(s, me, events),
        k <= l <= events.len(),
    ensures
        after_events(s, me, events, k).sound(),
        after_events(s, me, events, l).sound(),
        progress(after_events(s, me, events, k).stage) <= progress(
            after_events(s, me, events, l).stage,
        ),
    decreases l,
{
    if l > 0 {
        let m = (l - 1) as nat;
        lemma_events(
            s,
            me,
            events,
            if k < l {
                k
            } else {
                m
            },
            m,
        );
        let before = after_events(s, me, events, m);
        assert(before.admits(events[m as int]));
        before.lemma_step_sound(me, events[m as int]);
        law_phases_in_order(before, me, events[m as int]);
    }
}

/// A node sends at most one Init, one Echo and one Ready in a session, whatever
/// happens outside.
pub proof fn law_each_phase_once<T>(
    s: SessionState<T>,
    me: PublicKeyBytes,
    events: Seq<EventState<T>>,
    k: nat,
    l: nat,
    phase: Phase,
)
    requires
        s.sound(),
        all_admitted(s, me, events),
        k < l < events.len(),
        sends(effect_at(s, me, events, k)) == Some(phase),
    ensures
        sends(effect_at(s, me, events, l)) != Some(phase),
{
    lemma_events(s, me, events, k, k + 1);
    lemma_events(s, me, events, k + 1, l);
    law_phases_in_order(after_events(s, me, events, k), me, events[k as int]);
    law_phases_in_order(after_events(s, me, events, l), me, events[l as int]);
}

/// A session that is over stays as it is.
pub proof fn law_outcome_is_final<T>(s: SessionState<T>, me: PublicKeyBytes, event: EventState<T>)
    requires
        s.stage is Done,
    ensures
        s.step(me, event) == (s, EffectState::<T>::Quiet),
{
}

/// A session that delivers, delivers the payload that it has had all along.
pub proof fn law_delivers_payload<T>(
    s: SessionState<T>,
    me: PublicKeyBytes,
    event: EventState<T>,
    value: T,
)
    requires
        !(s.stage is Done),
        s.step(me, event).0.stage == (StageState::Done { outcome: Ok(value) }),
    ensures
        instance_of(s.stage) is Some,
        instance_of(s.stage).unwrap().payload == value,
{
}

/// What an instance has counted stays counted, what it has reached stays
/// reached, and what it is about stays the same.
pub proof fn law_nothing_is_forgotten<T>(
    s: SessionState<T>,
    me: PublicKeyBytes,
    event: EventState<T>,
    i: InstanceState<T>,
    j: InstanceState<T>,
)
    requires
        instance_of(s.stage) == Some(i),
        instance_of(s.step(me, event).0.stage) == Some(j),
    ensures
        j.payload == i.payload,
        j.payload_hash == i.payload_hash,
        j.participants == i.participants,
        forall|q: PublicKeyBytes| #[trigger] i.has_echo(q) ==> j.has_echo(q),
        forall|q: PublicKeyBytes| #[trigger] i.has_ready(q) ==> j.has_ready(q),
        forall|h: HashBytes| i.echo_tally(h) <= #[trigger] j.echo_tally(h),
        forall|h: HashBytes| i.ready_tally(h) <= #[trigger] j.ready_tally(h),
        i.is_ready_msg_sent ==> j.is_ready_msg_sent,
        i.echo_threshold_reached ==> j.echo_threshold_reached,
        i.ready_amp_threshold_reached ==> j.ready_amp_threshold_reached,
        i.delivery_threshold_reached ==> j.delivery_threshold_reached,
{
}

/// Nobody is counted twice: once an Echo of a sender is counted, further Echos of
/// that sender are ignored, and the same holds of Readys.
pub proof fn law_counted_once<T>(
    i: InstanceState<T>,
    hash: HashBytes,
    sender: PublicKeyBytes,
    m: MsgLink<RoundState<T>>,
)
    requires
        m.sender == sender,
    ensures
        m.data is Echo ==> handling(i.counted_echo(hash, sender), m) is Ignore,
        m.data is Ready ==> handling(i.counted_ready(hash, sender), m) is Ignore,
{
}

/// What the message `m` comes to for the instance `i` of the node `me`, when its
/// signature is valid or not: it is counted or not, and the node becomes ready
/// on the spot if it now has reason to be.
pub open spec fn handled<T>(
    i: InstanceState<T>,
    me: PublicKeyBytes,
    m: MsgLink<RoundState<T>>,
    valid: bool,
) -> InstanceState<T> {
    match handling(i, m) {
        Handling::VerifyEcho(claim) if valid => {
            let j = i.counted_echo(claim.hash, claim.sender);
            if j.echo_threshold_reached {
                j.readied(claim.hash, me)
            } else {
                j
            }
        },
        Handling::VerifyReady(claim) if valid => {
            let j = i.counted_ready(claim.hash, claim.sender);
            if j.ready_amp_threshold_reached && !j.is_ready_msg_sent {
                j.readied(claim.hash, me)
            } else {
                j
            }
        },
        _ => i,
    }
}

/// Once a message is fully dealt with, the node has counted it if it should, has
/// sent Ready if it should, and delivers if it can; whether the message came in
/// just now or was queued.
pub proof fn law_message_handled<T>(
    s: SessionState<T>,
    me: PublicKeyBytes,
    i: InstanceState<T>,
    m: MsgLink<RoundState<T>>,
    event: EventState<T>,
    valid: bool,
    signature: SignatureBytes,
)
    requires
        ({
            ||| s.stage == (StageState::Collect { instance: i }) && event == EventState::Received(
                Some(m),
            )
            ||| s.stage == (StageState::Drain {
                instance: InstanceState { msg_queue: i.msg_queue.push(m), ..i },
            }) && event == EventState::<T>::Continue
        }),
    ensures
        ({
            let taken = s.step(me, event).0;
            let checked = taken.step(me, EventState::Verified(valid)).0;
            let signed = checked.step(me, EventState::ReadySigned(signature)).0;
            signed.stage == settled(handled(i, me, m, valid))
        }),
{
    assert(i.msg_queue.push(m).drop_last() =~= i.msg_queue);
}

/// A further Init, or an Echo or Ready for another hash, is ignored.
pub proof fn law_foreign_messages_ignored<T>(i: InstanceState<T>, m: MsgLink<RoundState<T>>)
    ensures
        match m.data {
            RoundState::Init(_, _, _) => handling(i, m) is Ignore,
            RoundState::Echo(hash, _) => hash != i.payload_hash ==> handling(i, m) is Ignore,
            RoundState::Ready(hash, _) => hash != i.payload_hash ==> handling(i, m) is Ignore,
        },
{
}

/// A message goes to every participant but the node itself.
pub proof fn law_others(participants: Seq<PublicKeyBytes>, me: PublicKeyBytes, p: PublicKeyBytes)
    ensures
        others(participants, me).contains(p) <==> participants.contains(p) && p != me,
    decreases participants.len(),
{
    reveal(Seq::filter);
    if participants.len() > 0 {
        let rest = participants.drop_last();
        let last = participants.last();
        law_others(rest, me, p);
        assert(participants =~= rest.push(last));
        assert(participants.contains(p) <==> rest.contains(p) || p == last) by {
            if rest.contains(p) {
                let k = choose|k: int| 0 <= k < rest.len() && rest[k] == p;
                assert(participants[k] == p);
            }
            if p == last {
                assert(participants[participants.len() - 1] == p);
            }
            if participants.contains(p) && p != last {
                let k = choose|k: int| 0 <= k < participants.len() && participants[k] == p;
                assert(rest[k] == p);
            }
        }
        let kept = others(rest, me);
        if last != me {
            assert(others(participants, me) == kept.push(last));
            assert(kept.push(last).contains(p) <==> kept.contains(p) || p == last) by {
                if kept.contains(p) {
                    let k = choose|k: int| 0 <= k < kept.len() && kept[k] == p;
                    assert(kept.push(last)[k] == p);
                }
                assert(kept.push(last)[kept.len() as int] == last);
            }
        } else {
            assert(others(participants, me) == kept);
        }
    }
}

/// The messages other than Init that the session of the node `me` takes in while
/// it waits for an Init, among the first `k` of the events, in their order.
pub open spec fn early<T>(
    s: SessionState<T>,
    me: PublicKeyBytes,
    events: Seq<EventState<T>>,
    k: nat,
) -> Seq<MsgLink<RoundState<T>>>
    decreases k,
{
    if k == 0 {
        Seq::empty()
    } else {
        let before = early(s, me, events, (k - 1) as nat);
        match (after_events(s, me, events, (k - 1) as nat).stage, events[k - 1]) {
            (
                StageState::AwaitInit { .. },
                EventState::Received(Some(m)),
            ) if !(m.data is Init) => before.push(m),
            _ => before,
        }
    }
}

/// A recipient that waits for Init keeps all that comes before, in order, however
/// many Inits turn out to be invalid meanwhile; with a valid one, all of it goes
/// to the queue of the instance.
pub proof fn law_early_messages_kept<T>(
    s: SessionState<T>,
    me: PublicKeyBytes,
    msg_queue: Seq<MsgLink<RoundState<T>>>,
    events: Seq<EventState<T>>,
    k: nat,
)
    requires
        s.stage == (StageState::AwaitInit { msg_queue }),
        k <= events.len(),
    ensures
        match after_events(s, me, events, k).stage {
            StageState::AwaitInit { msg_queue: kept } => kept == msg_queue + early(
                s,
                me,
                events,
                k,
            ),
            StageState::VerifyInit { msg_queue: kept, .. } => kept == msg_queue + early(
                s,
                me,
                events,
                k,
            ),
            StageState::SignEcho { instance, initiator } => !initiator && instance.msg_queue
                == msg_queue + early(s, me, events, k),
            StageState::SignInit { .. } => false,
            StageState::Subscribe { .. } => false,
            _ => true,
        },
    decreases k,
{
    if k == 0 {
        assert(msg_queue + Seq::<MsgLink<RoundState<T>>>::empty() =~= msg_queue);
    } else {
        let before = (k - 1) as nat;
        law_early_messages_kept(s, me, msg_queue, events, before);
        let kept = early(s, me, events, before);
        if let EventState::Received(Some(m)) = events[k - 1] {
            assert((msg_queue + kept).push(m) =~= msg_queue + kept.push(m));
        }
    }
}

/// Whether the message is safe with the instance: it is queued, or nothing is
/// left to be done about it.
pub open spec fn accounted<T>(i: InstanceState<T>, m: MsgLink<RoundState<T>>) -> bool {
    i.msg_queue.contains(m) || handling(i, m) is Ignore
}

/// Whether this is the message whose signature is being checked.
pub open spec fn under_check<T>(stage: StageState<T>, m: MsgLink<RoundState<T>>) -> bool {
    match stage {
        StageState::VerifyInit { sender, data, participants, signature, .. } => {
            &&& m.sender == sender
            &&& m.data == RoundState::Init(data, participants, signature)
        },
        StageState::VerifyEcho { claim, .. } => {
            &&& m.sender == claim.sender
            &&& m.msg_link_id == claim.msg_link_id
            &&& m.data == RoundState::<T>::Echo(claim.hash, claim.signature)
        },
        StageState::VerifyReady { claim, .. } => {
            &&& m.sender == claim.sender
            &&& m.msg_link_id == claim.msg_link_id
            &&& m.data == RoundState::<T>::Ready(claim.hash, claim.signature)
        },
        _ => false,
    }
}

/// Whether the event says that the signature of the message does not hold.
pub open spec fn refused<T>(
    stage: StageState<T>,
    event: EventState<T>,
    m: MsgLink<RoundState<T>>,
) -> bool {
    &&& under_check(stage, m)
    &&& match (stage, event) {
        (StageState::VerifyInit { .. }, EventState::InitVerified(None)) => true,
        (StageState::VerifyEcho { .. }, EventState::Verified(false)) => true,
        (StageState::VerifyReady { .. }, EventState::Verified(false)) => true,
        _ => false,
    }
}

/// Whether the message has arrived with a session at this stage: it is queued, it
/// is being checked, or it is dealt with; and with a session that is over, nothing
/// matters any more. An Init is never queued.
pub open spec fn arrived<T>(stage: StageState<T>, m: MsgLink<RoundState<T>>) -> bool {
    match stage {
        StageState::SignInit { .. } => false,
        StageState::SignEcho { instance, .. } => accounted(instance, m),
        StageState::Subscribe { prepared: None } => false,
        StageState::Subscribe { prepared: Some(i) } => accounted(i, m),
        StageState::AwaitInit { msg_queue } => !(m.data is Init) && msg_queue.contains(m),
        StageState::VerifyInit { msg_queue, .. } => {
            ||| under_check(stage, m)
            ||| !(m.data is Init) && msg_queue.contains(m)
        },
        StageState::Drain { instance } => accounted(instance, m),
        StageState::Collect { instance } => accounted(instance, m),
        StageState::VerifyEcho { instance, .. } => under_check(stage, m) || accounted(instance, m),
        StageState::VerifyReady { instance, .. } => under_check(stage, m) || accounted(instance, m),
        StageState::SignReady { instance, .. } => accounted(instance, m),
        StageState::Done { .. } => true,
    }
}

/// A message that a session takes in has arrived.
pub proof fn law_received_arrives<T>(
    s: SessionState<T>,
    me: PublicKeyBytes,
    m: MsgLink<RoundState<T>>,
)
    requires
        s.listening(),
    ensures
        arrived(s.step(me, EventState::Received(Some(m))).0.stage, m),
{
    if let StageState::AwaitInit { msg_queue } = s.stage {
        assert(msg_queue.push(m).last() == m);
    }
}

/// A message that has arrived is not lost, whatever happens, unless its own
/// signature is found not to hold.
pub proof fn law_arrival_lasts<T>(
    s: SessionState<T>,
    me: PublicKeyBytes,
    event: EventState<T>,
    m: MsgLink<RoundState<T>>,
)
    requires
        s.sound(),
        arrived(s.stage, m),
        !refused(s.stage, event, m),
    ensures
        arrived(s.step(me, event).0.stage, m),
{
    match (s.stage, event) {
        (StageState::AwaitInit { msg_queue }, EventState::Received(Some(other))) => {
            let k = choose|k: int| 0 <= k < msg_queue.len() && msg_queue[k] == m;
            assert(msg_queue.push(other)[k] == m);
        },
        (StageState::Drain { instance }, EventState::Continue) => {
            let queue = instance.msg_queue;
            if queue.contains(m) && queue.last() != m {
                let k = choose|k: int| 0 <= k < queue.len() && queue[k] == m;
                assert(queue.drop_last()[k] == m);
            }
        },
        _ => {},
    }
}

/// A message that has arrived is not lost over any number of events, unless its
/// own signature is found not to hold.
pub proof fn law_arrival_lasts_throughout<T>(
    s: SessionState<T>,
    me: PublicKeyBytes,
    events: Seq<EventState<T>>,
    k: nat,
    l: nat,
    m: MsgLink<RoundState<T>>,
)
    requires
        s.sound(),
        all_admitted(s, me, events),
        k <= l <= events.len(),
        arrived(after_events(s, me, events, k).stage, m),
        forall|j: nat|
            k <= j < l ==> !refused(
                (#[trigger] after_events(s, me, events, j)).stage,
                events[j as int],
                m,
            ),
    ensures
        arrived(after_events(s, me, events, l).stage, m),
    decreases l,
{
    if k < l {
        let before = (l - 1) as nat;
        law_arrival_lasts_throughout(s, me, events, k, before, m);
        lemma_events(s, me, events, k, before);
        law_arrival_lasts(after_events(s, me, events, before), me, events[before as int], m);
    }
}

/// Where a node waits for further messages, what has arrived is counted: a Ready
/// for the payload, and an Echo for it, unless the node is ready itself by then.
pub proof fn law_arrived_is_counted<T>(
    s: SessionState<T>,
    i: InstanceState<T>,
    m: MsgLink<RoundState<T>>,
)
    requires
        s.sound(),
        s.stage == (StageState::Collect { instance: i }),
        arrived(s.stage, m),
    ensures
        match m.data {
            RoundState::Init(_, _, _) => true,
            RoundState::Echo(hash, _) => hash == i.payload_hash ==> i.has_echo(m.sender)
                || i.is_ready_msg_sent,
            RoundState::Ready(hash, _) => hash == i.payload_hash ==> i.has_ready(m.sender),
        },
{
}

/// Enough Echos to send Ready guarantee that at least one honest node echoed.
pub proof fn law_echo_threshold<T>(
    i: InstanceState<T>,
    hash: HashBytes,
    faulty: Set<PublicKeyBytes>,
)
    requires
        i.sound(),
        faulty.finite(),
        faulty.len() <= fault_bound(i.n()),
        i.echo_tally(hash) >= echo_quorum(i.n()),
    ensures
        exists|q: PublicKeyBytes| #[trigger] i.has_echo(q) && !faulty.contains(q),
{
    law_thresholds(i.n());
    law_honest_member(i.echoers(), faulty);
    let q = choose|q: PublicKeyBytes| #[trigger] i.echoers().contains(q) && !faulty.contains(q);
    assert(i.has_echo(q));
}

/// Enough Readys to trigger amplification mean that at least one honest node is
/// ready.
pub proof fn law_amplification_threshold<T>(
    i: InstanceState<T>,
    hash: HashBytes,
    faulty: Set<PublicKeyBytes>,
)
    requires
        i.sound(),
        !i.is_ready_msg_sent,
        faulty.finite(),
        faulty.len() <= fault_bound(i.n()),
        i.ready_tally(hash) >= amplification_quorum(i.n()),
    ensures
        exists|q: PublicKeyBytes| #[trigger] i.has_ready(q) && !faulty.contains(q),
{
    law_honest_member(i.readiers(), faulty);
    let q = choose|q: PublicKeyBytes| #[trigger] i.readiers().contains(q) && !faulty.contains(q);
    assert(i.has_ready(q));
}

} // verus!
