//! The guarantees of the protocol: agreement, totality and validity.
//!
//! Each law speaks of any run of the system (see [`crate::system`]). The first
//! part of this module is the invariant of all runs and its proof.

use vstd::prelude::*;

use crate::identity::{HashBytes, PublicKeyBytes};
use crate::instance::InstanceState;
use crate::laws::{arrived, instance_of, law_arrived_is_counted};
use crate::message::{MsgLink, RoundState};
use crate::quorum::{
    amplification_quorum, delivery_quorum, echo_quorum, law_honest_member, law_overlap,
    law_quorums_meet, law_thresholds, lemma_honest_part,
};
use crate::session::{lemma_queue_keeps_sound, settled, taken, EventState, StageState};
use crate::system::{is_run, leads, next, possible, NodeState, Occurrence, Setting};

verus! {

/// `group` could make a node ready for `hash`: it is large enough, and every
/// honest member of it has sent an Echo for `hash`.
spec fn echo_cert<T>(
    setting: Setting<T>,
    nodes: Map<PublicKeyBytes, NodeState<T>>,
    hash: HashBytes,
    group: Set<PublicKeyBytes>,
) -> bool {
    &&& group.subset_of(setting.members())
    &&& group.len() >= echo_quorum(setting.n())
    &&& forall|q: PublicKeyBytes| #[trigger]
        group.contains(q) && setting.honest.contains(q) ==> nodes[q].echoed.contains(hash)
}

/// `group` could make a node deliver `hash`: it is large enough, and every
/// honest member of it has sent a Ready for `hash`.
spec fn ready_cert<T>(
    setting: Setting<T>,
    nodes: Map<PublicKeyBytes, NodeState<T>>,
    hash: HashBytes,
    group: Set<PublicKeyBytes>,
) -> bool {
    &&& group.subset_of(setting.members())
    &&& group.len() >= delivery_quorum(setting.n())
    &&& forall|q: PublicKeyBytes| #[trigger]
        group.contains(q) && setting.honest.contains(q) ==> nodes[q].readied.contains(hash)
}

/// Some group could make a node ready for `hash`.
spec fn certified<T>(
    setting: Setting<T>,
    nodes: Map<PublicKeyBytes, NodeState<T>>,
    hash: HashBytes,
) -> bool {
    exists|group: Set<PublicKeyBytes>| #[trigger] echo_cert(setting, nodes, hash, group)
}

/// Some group could make a node deliver `hash`.
spec fn deliverable<T>(
    setting: Setting<T>,
    nodes: Map<PublicKeyBytes, NodeState<T>>,
    hash: HashBytes,
) -> bool {
    exists|group: Set<PublicKeyBytes>| #[trigger] ready_cert(setting, nodes, hash, group)
}

/// The instance belongs to the broadcast.
spec fn belongs<T>(setting: Setting<T>, i: InstanceState<T>) -> bool {
    &&& i.participants == setting.participants
    &&& setting.content.contains_pair(i.payload_hash, i.payload)
    &&& forall|k: int|
        0 <= k < i.msg_queue.len() ==> (#[trigger] i.msg_queue[k]).msg_link_id
            == setting.msg_link_id
}

/// What holds of the instance `i` of the honest node `p` once its Echo is sent.
spec fn live<T>(
    setting: Setting<T>,
    nodes: Map<PublicKeyBytes, NodeState<T>>,
    p: PublicKeyBytes,
    i: InstanceState<T>,
) -> bool {
    let node = nodes[p];
    &&& belongs(setting, i)
    &&& i.sound()
    &&& node.echoed == set![i.payload_hash]
    &&& node.readied == (if i.is_ready_msg_sent {
        set![i.payload_hash]
    } else {
        Set::<HashBytes>::empty()
    })
    &&& i.has_echo(p)
    &&& i.is_ready_msg_sent ==> i.has_ready(p)
    // the counters count senders, and the flags say how far they are
    &&& i.echo_tally(i.payload_hash) == i.echoers().len()
    &&& i.ready_tally(i.payload_hash) == i.readiers().len()
    &&& i.echo_threshold_reached == (i.echoers().len() >= echo_quorum(setting.n()))
    &&& i.ready_amp_threshold_reached == (i.readiers().len() >= amplification_quorum(setting.n()))
    &&& i.delivery_threshold_reached == (i.readiers().len() >= delivery_quorum(setting.n()))
    // those counted are members, and the honest among them meant it
    &&& i.echoers().subset_of(setting.members())
    &&& i.readiers().subset_of(setting.members())
    &&& forall|q: PublicKeyBytes| #[trigger]
        i.has_echo(q) && setting.honest.contains(q) ==> nodes[q].echoed.contains(i.payload_hash)
    &&& forall|q: PublicKeyBytes| #[trigger]
        i.has_ready(q) && setting.honest.contains(q) ==> nodes[q].readied.contains(i.payload_hash)
}

/// The instance gives no reason to act: it cannot deliver, and if it has reason
/// to be ready, it is.
spec fn at_rest<T>(setting: Setting<T>, i: InstanceState<T>) -> bool {
    &&& !i.delivery_threshold_reached
    &&& i.ready_amp_threshold_reached ==> i.is_ready_msg_sent
    &&& i.echo_threshold_reached ==> i.is_ready_msg_sent
}

/// The instance has heard of no Ready, its own included; where its Echos are
/// enough to send one, that is for good reason.
spec fn before_any_ready<T>(
    setting: Setting<T>,
    nodes: Map<PublicKeyBytes, NodeState<T>>,
    i: InstanceState<T>,
) -> bool {
    &&& !i.delivery_threshold_reached
    &&& !i.ready_amp_threshold_reached
    &&& !i.is_ready_msg_sent
    &&& i.echo_threshold_reached ==> certified(setting, nodes, i.payload_hash)
}

/// The honest node `p` has every right to deliver `value`, the content of `hash`.
spec fn delivers<T>(
    setting: Setting<T>,
    nodes: Map<PublicKeyBytes, NodeState<T>>,
    p: PublicKeyBytes,
    hash: HashBytes,
    value: T,
) -> bool {
    &&& setting.content.contains_pair(hash, value)
    &&& nodes[p].echoed == set![hash]
    &&& nodes[p].readied == set![hash]
    &&& deliverable(setting, nodes, hash)
}

/// What holds of the honest node `p`, by its stage.
spec fn staged<T>(
    setting: Setting<T>,
    nodes: Map<PublicKeyBytes, NodeState<T>>,
    p: PublicKeyBytes,
) -> bool {
    let node = nodes[p];
    let none = Set::<HashBytes>::empty();
    match node.session.stage {
        StageState::SignInit { recipients, .. } => {
            &&& recipients == setting.participants
            &&& node.echoed == none && node.readied == none
        },
        StageState::SignEcho { instance, .. } => {
            &&& belongs(setting, instance)
            &&& node.echoed == none && node.readied == none
        },
        StageState::Subscribe { prepared: None } => node.echoed == none && node.readied == none,
        StageState::Subscribe { prepared: Some(i) } => {
            &&& live(setting, nodes, p, i)
            &&& before_any_ready(setting, nodes, i)
        },
        StageState::AwaitInit { msg_queue } => {
            &&& node.echoed == none && node.readied == none
            &&& forall|k: int|
                0 <= k < msg_queue.len() ==> (#[trigger] msg_queue[k]).msg_link_id
                    == setting.msg_link_id
        },
        StageState::VerifyInit { msg_queue, .. } => {
            &&& node.echoed == none && node.readied == none
            &&& forall|k: int|
                0 <= k < msg_queue.len() ==> (#[trigger] msg_queue[k]).msg_link_id
                    == setting.msg_link_id
        },
        StageState::Drain { instance } => {
            &&& live(setting, nodes, p, instance)
            &&& at_rest(setting, instance)
        },
        StageState::Collect { instance } => {
            &&& live(setting, nodes, p, instance)
            &&& at_rest(setting, instance)
        },
        StageState::VerifyEcho { instance, claim } => {
            &&& live(setting, nodes, p, instance)
            &&& at_rest(setting, instance)
            &&& claim.msg_link_id == setting.msg_link_id
        },
        StageState::VerifyReady { instance, claim } => {
            &&& live(setting, nodes, p, instance)
            &&& at_rest(setting, instance)
            &&& claim.msg_link_id == setting.msg_link_id
        },
        StageState::SignReady { instance, msg_link_id, .. } => {
            &&& live(setting, nodes, p, instance)
            &&& certified(setting, nodes, instance.payload_hash)
            &&& msg_link_id == setting.msg_link_id
        },
        StageState::Done { outcome: Ok(value) } => exists|hash: HashBytes| #[trigger]
            delivers(setting, nodes, p, hash, value),
        StageState::Done { outcome: Err(_) } => true,
    }
}

/// What holds of the honest node `p` throughout every run.
spec fn node_inv<T>(
    setting: Setting<T>,
    nodes: Map<PublicKeyBytes, NodeState<T>>,
    p: PublicKeyBytes,
) -> bool {
    let node = nodes[p];
    &&& nodes.contains_key(p)
    &&& node.session.sound()
    &&& node.session.msg_link_id == setting.msg_link_id
    &&& staged(setting, nodes, p)
    &&& forall|g: HashBytes, h: HashBytes| #[trigger]
        node.echoed.contains(g) && #[trigger] node.echoed.contains(h) ==> g == h
    &&& forall|h: HashBytes| #[trigger]
        node.readied.contains(h) ==> certified(setting, nodes, h)
}

/// What holds throughout every run.
spec fn inv<T>(setting: Setting<T>, nodes: Map<PublicKeyBytes, NodeState<T>>) -> bool {
    forall|p: PublicKeyBytes| #[trigger]
        setting.honest.contains(p) ==> node_inv(setting, nodes, p)
}

/// No node unsays anything between the two states.
spec fn grown<T>(
    setting: Setting<T>,
    before: Map<PublicKeyBytes, NodeState<T>>,
    after: Map<PublicKeyBytes, NodeState<T>>,
) -> bool {
    forall|q: PublicKeyBytes| #[trigger]
        setting.honest.contains(q) ==> before[q].echoed.subset_of(after[q].echoed)
            && before[q].readied.subset_of(after[q].readied)
}

proof fn lemma_certs_grow<T>(
    setting: Setting<T>,
    before: Map<PublicKeyBytes, NodeState<T>>,
    after: Map<PublicKeyBytes, NodeState<T>>,
    hash: HashBytes,
)
    requires
        grown(setting, before, after),
    ensures
        certified(setting, before, hash) ==> certified(setting, after, hash),
        deliverable(setting, before, hash) ==> deliverable(setting, after, hash),
{
    if certified(setting, before, hash) {
        let group = choose|group: Set<PublicKeyBytes>| #[trigger]
            echo_cert(setting, before, hash, group);
        assert(echo_cert(setting, after, hash, group));
    }
    if deliverable(setting, before, hash) {
        let group = choose|group: Set<PublicKeyBytes>| #[trigger]
            ready_cert(setting, before, hash, group);
        assert(ready_cert(setting, after, hash, group));
    }
}

/// What others say more does not disturb the instance of a node.
proof fn lemma_live_grows<T>(
    setting: Setting<T>,
    before: Map<PublicKeyBytes, NodeState<T>>,
    after: Map<PublicKeyBytes, NodeState<T>>,
    p: PublicKeyBytes,
    i: InstanceState<T>,
)
    requires
        grown(setting, before, after),
        live(setting, before, p, i),
        after[p].echoed == before[p].echoed,
        after[p].readied == before[p].readied,
    ensures
        live(setting, after, p, i),
{
}

/// A step of one node leaves what holds of the others as it is.
proof fn lemma_others_keep<T>(
    setting: Setting<T>,
    before: Map<PublicKeyBytes, NodeState<T>>,
    after: Map<PublicKeyBytes, NodeState<T>>,
    q: PublicKeyBytes,
)
    requires
        grown(setting, before, after),
        node_inv(setting, before, q),
        after.contains_key(q),
        after[q] == before[q],
    ensures
        node_inv(setting, after, q),
{
    let node = before[q];
    assert forall|h: HashBytes| #[trigger] node.readied.contains(h) implies certified(
        setting,
        after,
        h,
    ) by {
        lemma_certs_grow(setting, before, after, h);
    }
    match node.session.stage {
        StageState::Subscribe { prepared: Some(i) } => {
            lemma_live_grows(setting, before, after, q, i);
            lemma_certs_grow(setting, before, after, i.payload_hash);
        },
        StageState::Drain { instance } => {
            lemma_live_grows(setting, before, after, q, instance);
        },
        StageState::Collect { instance } => {
            lemma_live_grows(setting, before, after, q, instance);
        },
        StageState::VerifyEcho { instance, .. } => {
            lemma_live_grows(setting, before, after, q, instance);
        },
        StageState::VerifyReady { instance, .. } => {
            lemma_live_grows(setting, before, after, q, instance);
        },
        StageState::SignReady { instance, .. } => {
            lemma_live_grows(setting, before, after, q, instance);
            lemma_certs_grow(setting, before, after, instance.payload_hash);
        },
        StageState::Done { outcome: Ok(value) } => {
            let hash = choose|hash: HashBytes| #[trigger]
                delivers(setting, before, q, hash, value);
            lemma_certs_grow(setting, before, after, hash);
            assert(delivers(setting, after, q, hash, value));
        },
        _ => {},
    }
}

/// A shorter queue of the same messages changes nothing else that matters.
proof fn lemma_live_dequeued<T>(
    setting: Setting<T>,
    nodes: Map<PublicKeyBytes, NodeState<T>>,
    p: PublicKeyBytes,
    i: InstanceState<T>,
)
    requires
        live(setting, nodes, p, i),
        at_rest(setting, i),
        i.msg_queue.len() > 0,
    ensures
        live(setting, nodes, p, InstanceState { msg_queue: i.msg_queue.drop_last(), ..i }),
        at_rest(setting, InstanceState { msg_queue: i.msg_queue.drop_last(), ..i }),
{
    let j = InstanceState { msg_queue: i.msg_queue.drop_last(), ..i };
    lemma_queue_keeps_sound(i, i.msg_queue.drop_last());
    assert(j.echo_tally(j.payload_hash) == i.echo_tally(i.payload_hash));
    assert(j.ready_tally(j.payload_hash) == i.ready_tally(i.payload_hash));
    assert forall|q: PublicKeyBytes| #[trigger]
        j.has_echo(q) && setting.honest.contains(q) implies nodes[q].echoed.contains(
        j.payload_hash,
    ) by {
        assert(i.has_echo(q));
    }
    assert forall|q: PublicKeyBytes| #[trigger]
        j.has_ready(q) && setting.honest.contains(q) implies nodes[q].readied.contains(
        j.payload_hash,
    ) by {
        assert(i.has_ready(q));
    }
}

/// A node that settles is where it should be.
proof fn lemma_settled<T>(
    setting: Setting<T>,
    nodes: Map<PublicKeyBytes, NodeState<T>>,
    p: PublicKeyBytes,
    i: InstanceState<T>,
)
    requires
        setting.valid(),
        live(setting, nodes, p, i),
        i.ready_amp_threshold_reached ==> i.is_ready_msg_sent,
        i.echo_threshold_reached ==> i.is_ready_msg_sent,
        nodes[p].session.stage == settled(i),
    ensures
        staged(setting, nodes, p),
{
    if i.delivery_threshold_reached {
        law_thresholds(setting.n());
        assert(ready_cert(setting, nodes, i.payload_hash, i.readiers()));
        if let StageState::Done { outcome: Ok(value) } = nodes[p].session.stage {
            assert(delivers(setting, nodes, p, i.payload_hash, value));
        }
    }
}

/// A node that takes a message is where it should be.
proof fn lemma_taken<T>(
    setting: Setting<T>,
    nodes: Map<PublicKeyBytes, NodeState<T>>,
    p: PublicKeyBytes,
    i: InstanceState<T>,
    msg: Option<MsgLink<RoundState<T>>>,
)
    requires
        setting.valid(),
        live(setting, nodes, p, i),
        at_rest(setting, i),
        msg matches Some(m) ==> m.msg_link_id == setting.msg_link_id,
        nodes[p].session.stage == taken(i, msg).0,
    ensures
        staged(setting, nodes, p),
{
    if nodes[p].session.stage == settled(i) {
        lemma_settled(setting, nodes, p, i);
    }
}

/// A node that sends its Echo is where it should be.
proof fn lemma_echo_sent<T>(
    setting: Setting<T>,
    nodes: Map<PublicKeyBytes, NodeState<T>>,
    p: PublicKeyBytes,
    i: InstanceState<T>,
)
    requires
        setting.valid(),
        setting.honest.contains(p),
        belongs(setting, i),
        i.sound(),
        i == (InstanceState {
            msg_queue: i.msg_queue,
            ..InstanceState::fresh(i.payload, i.payload_hash, i.participants)
        }),
        nodes[p].echoed == set![i.payload_hash],
        nodes[p].readied == Set::<HashBytes>::empty(),
    ensures
        live(setting, nodes, p, i.counted_echo(i.payload_hash, p)),
        before_any_ready(setting, nodes, i.counted_echo(i.payload_hash, p)),
{
    let next = i.counted_echo(i.payload_hash, p);
    assert(!i.has_echo(p));
    i.lemma_counted_echo(i.payload_hash, p);
    assert(i.echoers() =~= Set::<PublicKeyBytes>::empty());
    assert(i.readiers() =~= Set::<PublicKeyBytes>::empty());
    assert(next.echoers() =~= set![p]);
    assert forall|q: PublicKeyBytes| #[trigger] next.has_echo(q) implies q == p by {
        assert(next.echoers().contains(q));
    }
    assert forall|q: PublicKeyBytes| #[trigger] next.has_ready(q) implies false by {
        assert(next.readiers().contains(q));
    }
    if next.echo_threshold_reached {
        assert(echo_cert(setting, nodes, i.payload_hash, set![p]));
    }
}

/// Counting an Echo that is what it claims to be keeps the instance in order.
proof fn lemma_echo_counted<T>(
    setting: Setting<T>,
    nodes: Map<PublicKeyBytes, NodeState<T>>,
    p: PublicKeyBytes,
    i: InstanceState<T>,
    sender: PublicKeyBytes,
)
    requires
        setting.valid(),
        live(setting, nodes, p, i),
        !i.has_echo(sender),
        setting.members().contains(sender),
        setting.honest.contains(sender) ==> nodes[sender].echoed.contains(i.payload_hash),
    ensures
        live(setting, nodes, p, i.counted_echo(i.payload_hash, sender)),
        i.counted_echo(i.payload_hash, sender).echo_threshold_reached ==> certified(
            setting,
            nodes,
            i.payload_hash,
        ),
{
    let next = i.counted_echo(i.payload_hash, sender);
    i.lemma_counted_echo(i.payload_hash, sender);
    i.lemma_heard_from_finite();
    assert(next.ready_tally(i.payload_hash) == i.ready_tally(i.payload_hash));
    assert forall|q: PublicKeyBytes| #[trigger]
        next.has_echo(q) && setting.honest.contains(q) implies nodes[q].echoed.contains(
        i.payload_hash,
    ) by {
        if q != sender {
            assert(i.has_echo(q));
        }
    }
    assert forall|q: PublicKeyBytes| #[trigger]
        next.has_ready(q) && setting.honest.contains(q) implies nodes[q].readied.contains(
        i.payload_hash,
    ) by {
        assert(i.has_ready(q));
    }
    if next.echo_threshold_reached {
        assert forall|q: PublicKeyBytes| #[trigger]
            next.echoers().contains(q) && setting.honest.contains(q) implies nodes[q]
            .echoed.contains(i.payload_hash) by {
            assert(next.has_echo(q));
        }
        assert(echo_cert(setting, nodes, i.payload_hash, next.echoers()));
    }
}

/// Counting a Ready that is what it claims to be keeps the instance in order.
proof fn lemma_ready_counted<T>(
    setting: Setting<T>,
    nodes: Map<PublicKeyBytes, NodeState<T>>,
    p: PublicKeyBytes,
    i: InstanceState<T>,
    sender: PublicKeyBytes,
)
    requires
        setting.valid(),
        live(setting, nodes, p, i),
        !i.has_ready(sender),
        setting.members().contains(sender),
        setting.honest.contains(sender) ==> nodes[sender].readied.contains(i.payload_hash),
    ensures
        live(setting, nodes, p, i.counted_ready(i.payload_hash, sender)),
{
    let next = i.counted_ready(i.payload_hash, sender);
    i.lemma_counted_ready(i.payload_hash, sender);
    i.lemma_heard_from_finite();
    assert(next.echo_tally(i.payload_hash) == i.echo_tally(i.payload_hash));
    assert forall|q: PublicKeyBytes| #[trigger]
        next.has_echo(q) && setting.honest.contains(q) implies nodes[q].echoed.contains(
        i.payload_hash,
    ) by {
        assert(i.has_echo(q));
    }
    assert forall|q: PublicKeyBytes| #[trigger]
        next.has_ready(q) && setting.honest.contains(q) implies nodes[q].readied.contains(
        i.payload_hash,
    ) by {
        if q != sender {
            assert(i.has_ready(q));
        }
    }
}

/// Enough Readys for amplification include one of an honest node, which had its
/// reasons.
proof fn lemma_amplified<T>(
    setting: Setting<T>,
    nodes: Map<PublicKeyBytes, NodeState<T>>,
    p: PublicKeyBytes,
    i: InstanceState<T>,
)
    requires
        setting.valid(),
        live(setting, nodes, p, i),
        i.ready_amp_threshold_reached,
        forall|q: PublicKeyBytes, h: HashBytes|
            setting.honest.contains(q) && #[trigger] nodes[q].readied.contains(h) ==> certified(
                setting,
                nodes,
                h,
            ),
    ensures
        certified(setting, nodes, i.payload_hash),
{
    law_honest_member(i.readiers(), setting.faulty);
    let q = choose|q: PublicKeyBytes| #[trigger]
        i.readiers().contains(q) && !setting.faulty.contains(q);
    assert(i.has_ready(q));
    assert(nodes[q].readied.contains(i.payload_hash));
}

/// A node that sends its Ready keeps its instance in order.
proof fn lemma_ready_sent<T>(
    setting: Setting<T>,
    before: Map<PublicKeyBytes, NodeState<T>>,
    after: Map<PublicKeyBytes, NodeState<T>>,
    p: PublicKeyBytes,
    i: InstanceState<T>,
)
    requires
        setting.valid(),
        setting.honest.contains(p),
        live(setting, before, p, i),
        !i.is_ready_msg_sent,
        grown(setting, before, after),
        after[p].echoed == before[p].echoed,
        after[p].readied == before[p].readied.insert(i.payload_hash),
    ensures
        live(setting, after, p, i.readied(i.payload_hash, p)),
{
    let next = i.readied(i.payload_hash, p);
    i.lemma_readied(i.payload_hash, p);
    i.lemma_heard_from_finite();
    assert(!i.has_ready(p));
    assert(!i.readiers().contains(p));
    assert(next.echo_tally(i.payload_hash) == i.echo_tally(i.payload_hash));
    assert(after[p].readied =~= set![i.payload_hash]);
    assert forall|q: PublicKeyBytes| #[trigger]
        next.has_echo(q) && setting.honest.contains(q) implies after[q].echoed.contains(
        i.payload_hash,
    ) by {
        assert(i.has_echo(q));
    }
    assert forall|q: PublicKeyBytes| #[trigger]
        next.has_ready(q) && setting.honest.contains(q) implies after[q].readied.contains(
        i.payload_hash,
    ) by {
        if q != p {
            assert(i.has_ready(q));
        }
    }
}

/// A step unsays nothing.
proof fn lemma_step_grows<T>(
    setting: Setting<T>,
    before: Map<PublicKeyBytes, NodeState<T>>,
    p: PublicKeyBytes,
    event: EventState<T>,
)
    ensures
        grown(setting, before, before.insert(p, before[p].after(p, event))),
{
}

/// A step of a node keeps what holds of that node.
proof fn lemma_own_step<T>(
    setting: Setting<T>,
    before: Map<PublicKeyBytes, NodeState<T>>,
    p: PublicKeyBytes,
    event: EventState<T>,
)
    requires
        setting.valid(),
        inv(setting, before),
        setting.honest.contains(p),
        possible(setting, before, p, event),
    ensures
        node_inv(setting, before.insert(p, before[p].after(p, event)), p),
{
    let node = before[p];
    let after = before.insert(p, node.after(p, event));
    assert(node_inv(setting, before, p));
    node.session.lemma_step_sound(p, event);
    lemma_step_grows(setting, before, p, event);
    assert forall|h: HashBytes| #[trigger] node.readied.contains(h) implies certified(
        setting,
        after,
        h,
    ) by {
        lemma_certs_grow(setting, before, after, h);
    }
    assert forall|q: PublicKeyBytes, h: HashBytes|
        setting.honest.contains(q) && #[trigger] before[q].readied.contains(h) implies certified(
        setting,
        before,
        h,
    ) by {
        assert(node_inv(setting, before, q));
    }
    match (node.session.stage, event) {
        (StageState::SignEcho { instance, .. }, EventState::EchoSigned(_)) => {
            assert(after[p].echoed =~= set![instance.payload_hash]);
            lemma_echo_sent(setting, after, p, instance);
        },
        (StageState::Subscribe { prepared: Some(i) }, EventState::Subscribed(true)) => {
            lemma_live_grows(setting, before, after, p, i);
            lemma_certs_grow(setting, before, after, i.payload_hash);
        },
        (StageState::Drain { instance }, EventState::Continue) => {
            lemma_live_grows(setting, before, after, p, instance);
            lemma_live_dequeued(setting, after, p, instance);
            let rest = InstanceState { msg_queue: instance.msg_queue.drop_last(), ..instance };
            lemma_taken(setting, after, p, rest, Some(instance.msg_queue.last()));
        },
        (StageState::Collect { instance }, EventState::Received(msg)) => {
            lemma_live_grows(setting, before, after, p, instance);
            lemma_taken(setting, after, p, instance, msg);
        },
        (StageState::VerifyEcho { instance, claim }, EventState::Verified(valid)) => {
            lemma_live_grows(setting, before, after, p, instance);
            if valid {
                lemma_echo_counted(setting, after, p, instance, claim.sender);
                let counted = instance.counted_echo(claim.hash, claim.sender);
                if !counted.echo_threshold_reached {
                    lemma_settled(setting, after, p, counted);
                }
            } else {
                lemma_settled(setting, after, p, instance);
            }
        },
        (StageState::VerifyReady { instance, claim }, EventState::Verified(valid)) => {
            lemma_live_grows(setting, before, after, p, instance);
            if valid {
                lemma_ready_counted(setting, before, p, instance, claim.sender);
                let counted = instance.counted_ready(claim.hash, claim.sender);
                lemma_live_grows(setting, before, after, p, counted);
                if counted.ready_amp_threshold_reached && !counted.is_ready_msg_sent {
                    lemma_amplified(setting, before, p, counted);
                    lemma_certs_grow(setting, before, after, counted.payload_hash);
                } else {
                    lemma_settled(setting, after, p, counted);
                }
            } else {
                lemma_settled(setting, after, p, instance);
            }
        },
        (StageState::SignReady { instance, hash, .. }, EventState::ReadySigned(_)) => {
            lemma_certs_grow(setting, before, after, hash);
            lemma_ready_sent(setting, before, after, p, instance);
            lemma_settled(setting, after, p, instance.readied(hash, p));
        },
        _ => {
            if after[p] == node {
                lemma_others_keep(setting, before, after, p);
            }
        },
    }
}

/// What holds throughout every run holds after one more step.
proof fn lemma_next<T>(
    setting: Setting<T>,
    before: Map<PublicKeyBytes, NodeState<T>>,
    after: Map<PublicKeyBytes, NodeState<T>>,
)
    requires
        setting.valid(),
        inv(setting, before),
        next(setting, before, after),
    ensures
        inv(setting, after),
        grown(setting, before, after),
{
    let step = choose|step: Occurrence<T>| #[trigger] leads(setting, before, step, after);
    let (p, event) = (step.node, step.event);
    lemma_step_grows(setting, before, p, event);
    lemma_own_step(setting, before, p, event);
    assert forall|q: PublicKeyBytes| #[trigger] setting.honest.contains(q) implies node_inv(
        setting,
        after,
        q,
    ) by {
        assert(node_inv(setting, before, q));
        if q != p {
            lemma_others_keep(setting, before, after, q);
        }
    }
}

/// What holds throughout every run holds at each of its states.
proof fn lemma_run<T>(
    setting: Setting<T>,
    run: Seq<Map<PublicKeyBytes, NodeState<T>>>,
    k: int,
)
    requires
        setting.valid(),
        is_run(setting, run),
        0 <= k < run.len(),
    ensures
        inv(setting, run[k]),
    decreases k,
{
    if k > 0 {
        lemma_run(setting, run, k - 1);
        lemma_next(setting, run[k - 1], run[k]);
    } else {
        assert forall|p: PublicKeyBytes| #[trigger] setting.honest.contains(p) implies node_inv(
            setting,
            run[0],
            p,
        ) by {}
    }
}

/// No state of a run unsays what an earlier one said.
proof fn lemma_run_grows<T>(
    setting: Setting<T>,
    run: Seq<Map<PublicKeyBytes, NodeState<T>>>,
    k: int,
    l: int,
)
    requires
        setting.valid(),
        is_run(setting, run),
        0 <= k <= l < run.len(),
    ensures
        grown(setting, run[k], run[l]),
    decreases l - k,
{
    if k < l {
        lemma_run_grows(setting, run, k, l - 1);
        lemma_run(setting, run, l - 1);
        lemma_next(setting, run[l - 1], run[l]);
    }
}

/// What could make a node deliver a hash includes an honest node that was made
/// ready for it.
proof fn lemma_deliverable_certified<T>(
    setting: Setting<T>,
    nodes: Map<PublicKeyBytes, NodeState<T>>,
    hash: HashBytes,
)
    requires
        setting.valid(),
        inv(setting, nodes),
        deliverable(setting, nodes, hash),
    ensures
        certified(setting, nodes, hash),
{
    let group = choose|group: Set<PublicKeyBytes>| #[trigger]
        ready_cert(setting, nodes, hash, group);
    law_thresholds(setting.n());
    law_honest_member(group, setting.faulty);
    let q = choose|q: PublicKeyBytes| #[trigger]
        group.contains(q) && !setting.faulty.contains(q);
    assert(setting.members().contains(q));
    assert(node_inv(setting, nodes, q));
    assert(nodes[q].readied.contains(hash));
}

/// What every honest node keeps to in a run: its session is sound and of this
/// broadcast, what it sends goes to the listed participants, and it echoes one
/// hash at most, that of its payload.
pub proof fn law_honest_node<T>(
    setting: Setting<T>,
    run: Seq<Map<PublicKeyBytes, NodeState<T>>>,
    k: int,
    p: PublicKeyBytes,
)
    requires
        setting.valid(),
        is_run(setting, run),
        0 <= k < run.len(),
        setting.honest.contains(p),
    ensures
        run[k].contains_key(p),
        run[k][p].session.sound(),
        run[k][p].session.msg_link_id == setting.msg_link_id,
        run[k][p].session.stage matches StageState::SignReady { msg_link_id, .. } ==> msg_link_id
            == setting.msg_link_id,
        forall|g: HashBytes, h: HashBytes| #[trigger]
            run[k][p].echoed.contains(g) && #[trigger] run[k][p].echoed.contains(h) ==> g == h,
        match run[k][p].session.stage {
            StageState::SignInit { recipients, .. } => recipients == setting.participants,
            StageState::SignEcho { instance, .. } => instance.participants == setting.participants,
            StageState::Done { outcome: Ok(_) } => exists|h: HashBytes| #[trigger]
                run[k][p].echoed.contains(h),
            stage => instance_of(stage) matches Some(i) ==> i.participants == setting.participants
                && run[k][p].echoed.contains(i.payload_hash),
        },
{
    lemma_run(setting, run, k);
    assert(node_inv(setting, run[k], p));
    if let StageState::Done { outcome: Ok(value) } = run[k][p].session.stage {
        let h = choose|h: HashBytes| #[trigger] delivers(setting, run[k], p, h, value);
        assert(run[k][p].echoed.contains(h));
    }
}

/// Agreement: all honest nodes deliver the same value, even in the presence of
/// Byzantine faults.
///
/// Whatever the faulty nodes do, if one honest node delivers a value at some
/// point of a run, and another at another, the two values are the same.
pub proof fn law_agreement<T>(
    setting: Setting<T>,
    run: Seq<Map<PublicKeyBytes, NodeState<T>>>,
    k: int,
    l: int,
    p: PublicKeyBytes,
    q: PublicKeyBytes,
    v: T,
    w: T,
)
    requires
        setting.valid(),
        is_run(setting, run),
        0 <= k < run.len(),
        0 <= l < run.len(),
        setting.honest.contains(p),
        setting.honest.contains(q),
        run[k][p].delivered(v),
        run[l][q].delivered(w),
    ensures
        v == w,
{
    let m = if k <= l {
        l
    } else {
        k
    };
    lemma_run(setting, run, k);
    lemma_run(setting, run, l);
    lemma_run(setting, run, m);
    lemma_run_grows(setting, run, k, m);
    lemma_run_grows(setting, run, l, m);
    assert(node_inv(setting, run[k], p));
    assert(node_inv(setting, run[l], q));
    let g = choose|g: HashBytes| #[trigger] delivers(setting, run[k], p, g, v);
    let h = choose|h: HashBytes| #[trigger] delivers(setting, run[l], q, h, w);
    lemma_deliverable_certified(setting, run[k], g);
    lemma_deliverable_certified(setting, run[l], h);
    lemma_certs_grow(setting, run[k], run[m], g);
    lemma_certs_grow(setting, run[l], run[m], h);
    let a = choose|a: Set<PublicKeyBytes>| #[trigger] echo_cert(setting, run[m], g, a);
    let b = choose|b: Set<PublicKeyBytes>| #[trigger] echo_cert(setting, run[m], h, b);
    law_overlap(setting.n(), setting.members().len(), setting.faulty.len());
    law_quorums_meet(a, b, setting.members(), setting.faulty, setting.n());
    let r = choose|r: PublicKeyBytes| #[trigger]
        a.contains(r) && b.contains(r) && !setting.faulty.contains(r);
    assert(setting.members().contains(r));
    assert(node_inv(setting, run[m], r));
    assert(run[m][r].echoed.contains(g) && run[m][r].echoed.contains(h));
}

/// No honest node is ready for a hash unless some honest node echoed it.
pub proof fn law_ready_needs_honest_echo<T>(
    setting: Setting<T>,
    run: Seq<Map<PublicKeyBytes, NodeState<T>>>,
    k: int,
    p: PublicKeyBytes,
    hash: HashBytes,
)
    requires
        setting.valid(),
        is_run(setting, run),
        0 <= k < run.len(),
        setting.honest.contains(p),
        run[k][p].readied.contains(hash),
    ensures
        exists|q: PublicKeyBytes| #[trigger]
            setting.honest.contains(q) && run[k][q].echoed.contains(hash),
{
    lemma_run(setting, run, k);
    assert(node_inv(setting, run[k], p));
    let group = choose|group: Set<PublicKeyBytes>| #[trigger]
        echo_cert(setting, run[k], hash, group);
    law_thresholds(setting.n());
    law_honest_member(group, setting.faulty);
    let q = choose|q: PublicKeyBytes| #[trigger]
        group.contains(q) && !setting.faulty.contains(q);
    assert(setting.members().contains(q));
    assert(setting.honest.contains(q) && run[k][q].echoed.contains(hash));
}

/// No honest node delivers a value unless enough honest nodes to make every other
/// node ready have sent a Ready for its hash.
pub proof fn law_delivery_needs_honest_readys<T>(
    setting: Setting<T>,
    run: Seq<Map<PublicKeyBytes, NodeState<T>>>,
    k: int,
    p: PublicKeyBytes,
    value: T,
)
    requires
        setting.valid(),
        is_run(setting, run),
        0 <= k < run.len(),
        setting.honest.contains(p),
        run[k][p].delivered(value),
    ensures
        exists|hash: HashBytes| #[trigger]
            run[k][p].readied.contains(hash) && setting.content.contains_pair(hash, value)
                && setting.honest.filter(
                |q: PublicKeyBytes| run[k][q].readied.contains(hash),
            ).len() >= amplification_quorum(setting.n()),
{
    let nodes = run[k];
    lemma_run(setting, run, k);
    assert(node_inv(setting, nodes, p));
    let hash = choose|hash: HashBytes| #[trigger] delivers(setting, nodes, p, hash, value);
    let group = choose|group: Set<PublicKeyBytes>| #[trigger]
        ready_cert(setting, nodes, hash, group);
    law_thresholds(setting.n());
    vstd::set_lib::lemma_len_subset(group, setting.members());
    lemma_honest_part(group, setting.faulty);
    let ready = setting.honest.filter(|q: PublicKeyBytes| nodes[q].readied.contains(hash));
    assert forall|q: PublicKeyBytes| #[trigger]
        group.difference(setting.faulty).contains(q) implies ready.contains(q) by {
        assert(group.contains(q));
        assert(setting.members().contains(q));
    }
    vstd::set_lib::lemma_len_subset(ready, setting.honest);
    vstd::set_lib::lemma_len_subset(group.difference(setting.faulty), ready);
    assert(nodes[p].readied.contains(hash));
}

/// Whether an Echo of `q` for `hash` has arrived with a session at this stage.
pub open spec fn echo_arrived<T>(stage: StageState<T>, q: PublicKeyBytes, hash: HashBytes) -> bool {
    exists|m: MsgLink<RoundState<T>>| #[trigger]
        arrived(stage, m) && m.sender == q && (m.data matches RoundState::Echo(h, _) && h == hash)
}

/// Whether a Ready of `q` for `hash` has arrived with a session at this stage.
pub open spec fn ready_arrived<T>(
    stage: StageState<T>,
    q: PublicKeyBytes,
    hash: HashBytes,
) -> bool {
    exists|m: MsgLink<RoundState<T>>| #[trigger]
        arrived(stage, m) && m.sender == q && (m.data matches RoundState::Ready(h, _) && h == hash)
}

/// Whether the honest node `p` has delivered, or waits for further messages.
pub open spec fn at_work<T>(nodes: Map<PublicKeyBytes, NodeState<T>>, p: PublicKeyBytes) -> bool {
    nodes[p].has_delivered() || nodes[p].session.stage is Collect
}

/// Whether every Echo that another honest node sent for `hash` has arrived with
/// the honest node `p`.
pub open spec fn echos_arrived<T>(
    setting: Setting<T>,
    nodes: Map<PublicKeyBytes, NodeState<T>>,
    hash: HashBytes,
    p: PublicKeyBytes,
) -> bool {
    forall|q: PublicKeyBytes|
        setting.honest.contains(q) && q != p && #[trigger] nodes[q].echoed.contains(hash)
            ==> echo_arrived(nodes[p].session.stage, q, hash)
}

/// Whether every Ready that another honest node sent for `hash` has arrived with
/// the honest node `p`.
pub open spec fn readys_arrived<T>(
    setting: Setting<T>,
    nodes: Map<PublicKeyBytes, NodeState<T>>,
    hash: HashBytes,
    p: PublicKeyBytes,
) -> bool {
    forall|q: PublicKeyBytes|
        setting.honest.contains(q) && q != p && #[trigger] nodes[q].readied.contains(hash)
            ==> ready_arrived(nodes[p].session.stage, q, hash)
}

/// Where the Echos of honest nodes have arrived, a node that is not ready has
/// counted them.
proof fn lemma_echos_counted<T>(
    setting: Setting<T>,
    nodes: Map<PublicKeyBytes, NodeState<T>>,
    p: PublicKeyBytes,
    i: InstanceState<T>,
    q: PublicKeyBytes,
)
    requires
        node_inv(setting, nodes, p),
        nodes[p].session.stage == (StageState::Collect { instance: i }),
        !i.is_ready_msg_sent,
        echos_arrived(setting, nodes, i.payload_hash, p),
        setting.honest.contains(q),
        nodes[q].echoed.contains(i.payload_hash),
    ensures
        i.has_echo(q),
{
    if q != p {
        let m = choose|m: MsgLink<RoundState<T>>| #[trigger]
            arrived(nodes[p].session.stage, m) && m.sender == q && (m.data matches RoundState::Echo(
                h,
                _,
            ) && h == i.payload_hash);
        law_arrived_is_counted(nodes[p].session, i, m);
    }
}

/// Where the Readys of honest nodes have arrived, a node has counted them.
proof fn lemma_readys_counted<T>(
    setting: Setting<T>,
    nodes: Map<PublicKeyBytes, NodeState<T>>,
    p: PublicKeyBytes,
    i: InstanceState<T>,
    q: PublicKeyBytes,
)
    requires
        node_inv(setting, nodes, p),
        nodes[p].session.stage == (StageState::Collect { instance: i }),
        readys_arrived(setting, nodes, i.payload_hash, p),
        setting.honest.contains(q),
        nodes[q].readied.contains(i.payload_hash),
    ensures
        i.has_ready(q),
{
    if q != p {
        let m = choose|m: MsgLink<RoundState<T>>| #[trigger]
            arrived(nodes[p].session.stage, m) && m.sender == q && (m.data matches RoundState::Ready(
                h,
                _,
            ) && h == i.payload_hash);
        law_arrived_is_counted(nodes[p].session, i, m);
    }
}

/// Whether `holders` are honest nodes that were sent the content of `hash`.
pub open spec fn hold<T>(
    setting: Setting<T>,
    nodes: Map<PublicKeyBytes, NodeState<T>>,
    hash: HashBytes,
    holders: Set<PublicKeyBytes>,
) -> bool {
    forall|p: PublicKeyBytes| #[trigger]
        holders.contains(p) ==> setting.honest.contains(p) && nodes[p].echoed.contains(hash)
}

/// Where enough nodes are ready for a hash and their Readys are counted, they
/// have delivered its content.
proof fn lemma_ready_holders_deliver<T>(
    setting: Setting<T>,
    nodes: Map<PublicKeyBytes, NodeState<T>>,
    hash: HashBytes,
    holders: Set<PublicKeyBytes>,
    p: PublicKeyBytes,
)
    requires
        setting.valid(),
        inv(setting, nodes),
        hold(setting, nodes, hash, holders),
        holders.len() >= delivery_quorum(setting.n()),
        holders.contains(p),
        at_work(nodes, p),
        readys_arrived(setting, nodes, hash, p),
        forall|q: PublicKeyBytes| #[trigger]
            holders.contains(q) ==> nodes[q].readied.contains(hash),
    ensures
        setting.content.contains_key(hash),
        nodes[p].delivered(setting.content[hash]),
{
    assert(node_inv(setting, nodes, p));
    match nodes[p].session.stage {
        StageState::Done { outcome: Ok(value) } => {
            let h = choose|h: HashBytes| #[trigger] delivers(setting, nodes, p, h, value);
            assert(h == hash);
        },
        StageState::Collect { instance } => {
            assert(instance.payload_hash == hash);
            assert forall|q: PublicKeyBytes| #[trigger]
                holders.contains(q) implies instance.readiers().contains(q) by {
                assert(nodes[q].readied.contains(hash));
                lemma_readys_counted(setting, nodes, p, instance, q);
            }
            instance.lemma_heard_from_finite();
            vstd::set_lib::lemma_len_subset(holders, instance.readiers());
        },
        _ => {},
    }
}

/// Totality: delivery by one honest node guarantees that all honest nodes will
/// eventually deliver.
///
/// Take honest nodes that were sent the content of the same hash, as many as
/// delivery needs; all honest nodes are enough (see
/// [`law_thresholds`](crate::quorum::law_thresholds)). Once any honest node has
/// delivered that content, and the Readys that honest nodes sent have arrived with
/// these nodes, all of them have delivered it too.
pub proof fn law_totality<T>(
    setting: Setting<T>,
    run: Seq<Map<PublicKeyBytes, NodeState<T>>>,
    k: int,
    hash: HashBytes,
    holders: Set<PublicKeyBytes>,
    first: PublicKeyBytes,
)
    requires
        setting.valid(),
        is_run(setting, run),
        0 <= k < run.len(),
        hold(setting, run[k], hash, holders),
        holders.len() >= delivery_quorum(setting.n()),
        forall|p: PublicKeyBytes| #[trigger]
            holders.contains(p) ==> at_work(run[k], p) && readys_arrived(
                setting,
                run[k],
                hash,
                p,
            ),
        setting.honest.contains(first),
        run[k][first].echoed.contains(hash),
        run[k][first].has_delivered(),
    ensures
        setting.content.contains_key(hash),
        forall|p: PublicKeyBytes| #[trigger]
            holders.contains(p) ==> run[k][p].delivered(setting.content[hash]),
{
    let nodes = run[k];
    lemma_run(setting, run, k);
    law_thresholds(setting.n());
    assert(node_inv(setting, nodes, first));
    if let StageState::Done { outcome: Ok(value) } = nodes[first].session.stage {
        let h = choose|h: HashBytes| #[trigger] delivers(setting, nodes, first, h, value);
        assert(h == hash);
    }
    let group = choose|group: Set<PublicKeyBytes>| #[trigger]
        ready_cert(setting, nodes, hash, group);
    vstd::set_lib::lemma_len_subset(group, setting.members());
    lemma_honest_part(group, setting.faulty);
    let sure = group.difference(setting.faulty);
    // the honest Readys behind that delivery are enough to make the others ready
    assert forall|p: PublicKeyBytes| #[trigger]
        holders.contains(p) implies nodes[p].readied.contains(hash) by {
        assert(node_inv(setting, nodes, p));
        match nodes[p].session.stage {
            StageState::Done { outcome: Ok(v) } => {
                let h = choose|h: HashBytes| #[trigger] delivers(setting, nodes, p, h, v);
                assert(h == hash);
            },
            StageState::Collect { instance } => {
                assert(instance.payload_hash == hash);
                assert forall|q: PublicKeyBytes| #[trigger]
                    sure.contains(q) implies instance.readiers().contains(q) by {
                    assert(group.contains(q));
                    assert(setting.members().contains(q));
                    assert(setting.honest.contains(q));
                    assert(nodes[q].readied.contains(hash));
                    lemma_readys_counted(setting, nodes, p, instance, q);
                }
                instance.lemma_heard_from_finite();
                vstd::set_lib::lemma_len_subset(sure, instance.readiers());
                assert(instance.is_ready_msg_sent);
            },
            _ => {},
        }
    }
    assert forall|p: PublicKeyBytes| #[trigger]
        holders.contains(p) implies nodes[p].delivered(setting.content[hash]) by {
        lemma_ready_holders_deliver(setting, nodes, hash, holders, p);
    }
}

/// Validity: a broadcast that reaches the honest nodes is delivered by them,
/// even in the presence of Byzantine faults.
///
/// Take honest nodes that were sent the content of the same hash, as many as it
/// takes to be ready and to deliver; all honest nodes are enough (see
/// [`law_thresholds`](crate::quorum::law_thresholds)). Once the Echos and Readys
/// that honest nodes sent have arrived with these nodes, all of them have delivered
/// that content.
pub proof fn law_validity<T>(
    setting: Setting<T>,
    run: Seq<Map<PublicKeyBytes, NodeState<T>>>,
    k: int,
    hash: HashBytes,
    holders: Set<PublicKeyBytes>,
    p: PublicKeyBytes,
)
    requires
        setting.valid(),
        is_run(setting, run),
        0 <= k < run.len(),
        hold(setting, run[k], hash, holders),
        holders.len() >= echo_quorum(setting.n()),
        holders.len() >= delivery_quorum(setting.n()),
        forall|q: PublicKeyBytes| #[trigger]
            holders.contains(q) ==> at_work(run[k], q) && echos_arrived(setting, run[k], hash, q)
                && readys_arrived(setting, run[k], hash, q),
        holders.contains(p),
    ensures
        setting.content.contains_key(hash),
        run[k][p].delivered(setting.content[hash]),
{
    let nodes = run[k];
    lemma_run(setting, run, k);
    assert forall|q: PublicKeyBytes| #[trigger]
        holders.contains(q) implies nodes[q].readied.contains(hash) by {
        assert(node_inv(setting, nodes, q));
        match nodes[q].session.stage {
            StageState::Done { outcome: Ok(v) } => {
                let h = choose|h: HashBytes| #[trigger] delivers(setting, nodes, q, h, v);
                assert(h == hash);
            },
            StageState::Collect { instance } => {
                assert(instance.payload_hash == hash);
                if !instance.is_ready_msg_sent {
                    assert forall|r: PublicKeyBytes| #[trigger]
                        holders.contains(r) implies instance.echoers().contains(r) by {
                        assert(nodes[r].echoed.contains(hash));
                        lemma_echos_counted(setting, nodes, q, instance, r);
                    }
                    instance.lemma_heard_from_finite();
                    vstd::set_lib::lemma_len_subset(holders, instance.echoers());
                }
            },
            _ => {},
        }
    }
    lemma_ready_holders_deliver(setting, nodes, hash, holders, p);
}

} // verus!
