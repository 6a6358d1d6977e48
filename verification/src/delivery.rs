//! From messages that arrive to values that are delivered.
//!
//! The laws here speak of runs of the system of which it is known what happens at
//! each step (see [`unfolds`]): what was sent, what came in, and what failed.

use vstd::prelude::*;

use crate::guarantees::{
    at_work, echo_arrived, echos_arrived, hold, law_honest_node, law_totality, law_validity,
    ready_arrived, readys_arrived,
};
use crate::identity::{HashBytes, PublicKeyBytes, SignatureBytes};
use crate::laws::{arrived, law_arrival_lasts, law_others, law_received_arrives, refused};
use crate::message::{MsgLink, RoundState};
use crate::quorum::{delivery_quorum, law_thresholds};
use crate::session::{EffectState, EventState, StageState};
use crate::system::{
    failure, incoming, initial, initiated_by, is_run, law_honest_participants, law_unfolded_runs,
    leads, one_init, received_by, sent_to, served, signatures_hold, signs, signs_init, stated,
    to_check, unfolds, NodeState, Occurrence, Setting,
};

verus! {

/// A step changes nothing of a node that it does not happen to, and one that it
/// happens to goes on from where it was.
proof fn lemma_one_step<T>(
    setting: Setting<T>,
    run: Seq<Map<PublicKeyBytes, NodeState<T>>>,
    steps: Seq<Occurrence<T>>,
    k: int,
    p: PublicKeyBytes,
)
    requires
        unfolds(setting, run, steps),
        0 <= k < steps.len(),
    ensures
        is_run(setting, run),
        leads(setting, run[k], steps[k], run[k + 1]),
        steps[k].node != p ==> run[k + 1][p] == run[k][p],
        steps[k].node == p ==> run[k + 1][p] == run[k][p].after(p, steps[k].event),
{
    law_unfolded_runs(setting, run);
    assert(leads(setting, run[k], steps[k], run[k + 1]));
}

/// A message that has arrived with a node in a run is not lost.
proof fn lemma_arrival_lasts<T>(
    setting: Setting<T>,
    run: Seq<Map<PublicKeyBytes, NodeState<T>>>,
    steps: Seq<Occurrence<T>>,
    k: int,
    l: int,
    m: MsgLink<RoundState<T>>,
    p: PublicKeyBytes,
)
    requires
        setting.valid(),
        unfolds(setting, run, steps),
        setting.honest.contains(p),
        0 <= k <= l < run.len(),
        arrived(run[k][p].session.stage, m),
        forall|j: int|
            k <= j < l && steps[j].node == p ==> !(#[trigger] refused(
                run[j][p].session.stage,
                steps[j].event,
                m,
            )),
    ensures
        arrived(run[l][p].session.stage, m),
    decreases l - k,
{
    if k < l {
        let j = l - 1;
        lemma_arrival_lasts(setting, run, steps, k, j, m, p);
        lemma_one_step(setting, run, steps, j, p);
        if steps[j].node == p {
            law_honest_node(setting, run, j, p);
            assert(!refused(run[j][p].session.stage, steps[j].event, m));
            law_arrival_lasts(run[j][p].session, p, steps[j].event, m);
        }
    }
}

/// What an honest node sends is what it has signed: the statement of the message is
/// the one that the node had signed at that very step, under its own key, for this
/// broadcast, and the message carries the signature that was handed over.
pub proof fn law_sent_is_signed<T>(
    setting: Setting<T>,
    run: Seq<Map<PublicKeyBytes, NodeState<T>>>,
    steps: Seq<Occurrence<T>>,
    j: int,
    m: MsgLink<RoundState<T>>,
    p: PublicKeyBytes,
)
    requires
        setting.valid(),
        unfolds(setting, run, steps),
        0 <= j < steps.len(),
        sent_to(run, steps, j, m, p),
    ensures
        setting.honest.contains(m.sender),
        m.msg_link_id == setting.msg_link_id,
        signs(run, steps, j, m.sender, stated(m).0, stated(m).1),
{
    lemma_one_step(setting, run, steps, j, steps[j].node);
    law_honest_node(setting, run, j, steps[j].node);
}

/// The Init of an initiator is the one that it had signed: its data, the list of
/// participants as it stands, and the signature handed over; and it is sent to
/// every other participant.
pub proof fn law_init_is_as_signed<T>(
    setting: Setting<T>,
    run: Seq<Map<PublicKeyBytes, NodeState<T>>>,
    steps: Seq<Occurrence<T>>,
    k: int,
    p: PublicKeyBytes,
    data: T,
    signature: SignatureBytes,
    hash: HashBytes,
    q: PublicKeyBytes,
)
    requires
        setting.valid(),
        unfolds(setting, run, steps),
        0 <= k < steps.len(),
        signs_init(run, steps, k, p, signature, hash),
        run[k][p].session.stage matches StageState::SignInit { data: d, .. } && d == data,
    ensures
        forall|m: MsgLink<RoundState<T>>|
            sent_to(run, steps, k, m, q) <==> setting.participants.contains(q) && q != p && m == (
            MsgLink {
                sender: p,
                msg_link_id: setting.msg_link_id,
                data: RoundState::Init(data, setting.participants, signature),
            }),
{
    lemma_one_step(setting, run, steps, k, p);
    law_honest_node(setting, run, k, p);
    law_others(setting.participants, p, q);
}

/// What an honest node has sent is not taken for forged, where signatures hold.
pub proof fn law_honest_messages_hold<T>(
    setting: Setting<T>,
    run: Seq<Map<PublicKeyBytes, NodeState<T>>>,
    steps: Seq<Occurrence<T>>,
    j: int,
    k: int,
    m: MsgLink<RoundState<T>>,
    p: PublicKeyBytes,
)
    requires
        setting.valid(),
        unfolds(setting, run, steps),
        signatures_hold(run, steps),
        0 <= j < k < steps.len(),
        sent_to(run, steps, j, m, p),
        steps[k].node == p,
    ensures
        !refused(run[k][p].session.stage, steps[k].event, m),
{
    law_sent_is_signed(setting, run, steps, j, m, p);
    lemma_one_step(setting, run, steps, k, p);
    law_honest_node(setting, run, k, p);
    let (statement, signature) = stated(m);
    if refused(run[k][p].session.stage, steps[k].event, m) {
        assert(to_check(run[k][steps[k].node].session) == Some((statement, m.sender, signature)));
        assert(signs(run, steps, j, m.sender, statement, signature));
    }
}

/// What is sent to a node that gets its messages has arrived with it in the end.
pub proof fn law_sent_has_arrived<T>(
    setting: Setting<T>,
    run: Seq<Map<PublicKeyBytes, NodeState<T>>>,
    steps: Seq<Occurrence<T>>,
    j: int,
    m: MsgLink<RoundState<T>>,
    p: PublicKeyBytes,
)
    requires
        setting.valid(),
        unfolds(setting, run, steps),
        setting.honest.contains(p),
        served(run, steps, p),
        signatures_hold(run, steps),
        0 <= j < steps.len(),
        sent_to(run, steps, j, m, p),
    ensures
        arrived(run.last()[p].session.stage, m),
{
    if !(run.last()[p].session.stage is Done) {
        let k = choose|k: int|
            j < k < steps.len() && #[trigger] received_by(run, steps, k, m, p);
        lemma_one_step(setting, run, steps, k, p);
        law_received_arrives(run[k][p].session, p, m);
        assert forall|l: int| k + 1 <= l < run.len() - 1 && steps[l].node == p implies !(
        #[trigger] refused(run[l][p].session.stage, steps[l].event, m)) by {
            law_honest_messages_hold(setting, run, steps, j, l, m, p);
        }
        lemma_arrival_lasts(setting, run, steps, k + 1, run.len() - 1, m, p);
    }
}

/// Whatever a node has echoed, it has sent an Echo for to every other participant.
proof fn lemma_echo_was_sent<T>(
    setting: Setting<T>,
    run: Seq<Map<PublicKeyBytes, NodeState<T>>>,
    steps: Seq<Occurrence<T>>,
    k: int,
    q: PublicKeyBytes,
    hash: HashBytes,
    p: PublicKeyBytes,
) -> (r: (int, MsgLink<RoundState<T>>))
    requires
        setting.valid(),
        unfolds(setting, run, steps),
        0 <= k < run.len(),
        setting.honest.contains(q),
        run[k][q].echoed.contains(hash),
        setting.participants.contains(p),
        p != q,
    ensures
        0 <= r.0 < k,
        sent_to(run, steps, r.0, r.1, p),
        r.1.sender == q,
        r.1.data matches RoundState::Echo(h, _) && h == hash,
    decreases k,
{
    if k == 0 {
        assert(initial(setting, run[0]));
        assert(false);
    }
    let j = k - 1;
    lemma_one_step(setting, run, steps, j, q);
    if run[j][q].echoed.contains(hash) {
        lemma_echo_was_sent(setting, run, steps, j, q, hash, p)
    } else {
        law_honest_node(setting, run, j, q);
        law_others(setting.participants, q, p);
        match run[j][q].session.step(q, steps[j].event).1 {
            EffectState::Send(out) => (j, incoming(out)),
            _ => arbitrary(),
        }
    }
}

/// Whatever a node has sent a Ready for, it has sent to every other participant.
proof fn lemma_ready_was_sent<T>(
    setting: Setting<T>,
    run: Seq<Map<PublicKeyBytes, NodeState<T>>>,
    steps: Seq<Occurrence<T>>,
    k: int,
    q: PublicKeyBytes,
    hash: HashBytes,
    p: PublicKeyBytes,
) -> (r: (int, MsgLink<RoundState<T>>))
    requires
        setting.valid(),
        unfolds(setting, run, steps),
        0 <= k < run.len(),
        setting.honest.contains(q),
        run[k][q].readied.contains(hash),
        setting.participants.contains(p),
        p != q,
    ensures
        0 <= r.0 < k,
        sent_to(run, steps, r.0, r.1, p),
        r.1.sender == q,
        r.1.data matches RoundState::Ready(h, _) && h == hash,
    decreases k,
{
    if k == 0 {
        assert(initial(setting, run[0]));
        assert(false);
    }
    let j = k - 1;
    lemma_one_step(setting, run, steps, j, q);
    if run[j][q].readied.contains(hash) {
        lemma_ready_was_sent(setting, run, steps, j, q, hash, p)
    } else {
        law_honest_node(setting, run, j, q);
        law_others(setting.participants, q, p);
        match run[j][q].session.step(q, steps[j].event).1 {
            EffectState::Send(out) => (j, incoming(out)),
            _ => arbitrary(),
        }
    }
}

/// With a listed node that gets its messages, the Echos and Readys of all other
/// honest nodes have arrived in the end.
pub proof fn law_served_nodes_hear_all<T>(
    setting: Setting<T>,
    run: Seq<Map<PublicKeyBytes, NodeState<T>>>,
    steps: Seq<Occurrence<T>>,
    p: PublicKeyBytes,
    hash: HashBytes,
)
    requires
        setting.valid(),
        unfolds(setting, run, steps),
        setting.honest.contains(p),
        setting.participants.contains(p),
        served(run, steps, p),
        signatures_hold(run, steps),
    ensures
        echos_arrived(setting, run.last(), hash, p),
        readys_arrived(setting, run.last(), hash, p),
{
    let nodes = run.last();
    let end = run.len() - 1;
    assert forall|q: PublicKeyBytes|
        setting.honest.contains(q) && q != p && #[trigger] nodes[q].echoed.contains(
            hash,
        ) implies echo_arrived(nodes[p].session.stage, q, hash) by {
        let (j, m) = lemma_echo_was_sent(setting, run, steps, end, q, hash, p);
        law_sent_has_arrived(setting, run, steps, j, m, p);
    }
    assert forall|q: PublicKeyBytes|
        setting.honest.contains(q) && q != p && #[trigger] nodes[q].readied.contains(
            hash,
        ) implies ready_arrived(nodes[p].session.stage, q, hash) by {
        let (j, m) = lemma_ready_was_sent(setting, run, steps, end, q, hash, p);
        law_sent_has_arrived(setting, run, steps, j, m, p);
    }
}

/// Totality over time: once one honest node has delivered, signatures hold and what
/// honest nodes send arrives, all honest nodes that were sent the same content have delivered
/// it, if they are as many as delivery needs.
pub proof fn law_delivery_spreads<T>(
    setting: Setting<T>,
    run: Seq<Map<PublicKeyBytes, NodeState<T>>>,
    steps: Seq<Occurrence<T>>,
    hash: HashBytes,
    holders: Set<PublicKeyBytes>,
    first: PublicKeyBytes,
)
    requires
        setting.valid(),
        unfolds(setting, run, steps),
        signatures_hold(run, steps),
        hold(setting, run.last(), hash, holders),
        holders.len() >= delivery_quorum(setting.n()),
        forall|p: PublicKeyBytes| #[trigger]
            holders.contains(p) ==> setting.participants.contains(p) && served(run, steps, p)
                && at_work(run.last(), p),
        setting.honest.contains(first),
        run.last()[first].echoed.contains(hash),
        run.last()[first].has_delivered(),
    ensures
        setting.content.contains_key(hash),
        forall|p: PublicKeyBytes| #[trigger]
            holders.contains(p) ==> run.last()[p].delivered(setting.content[hash]),
{
    law_unfolded_runs(setting, run);
    assert forall|p: PublicKeyBytes| #[trigger] holders.contains(p) implies readys_arrived(
        setting,
        run.last(),
        hash,
        p,
    ) by {
        law_served_nodes_hear_all(setting, run, steps, p, hash);
    }
    law_totality(setting, run, run.len() - 1, hash, holders, first);
}

/// Where nothing fails, no session does.
proof fn lemma_no_session_fails<T>(
    setting: Setting<T>,
    run: Seq<Map<PublicKeyBytes, NodeState<T>>>,
    steps: Seq<Occurrence<T>>,
    k: int,
    p: PublicKeyBytes,
)
    requires
        unfolds(setting, run, steps),
        0 <= k < run.len(),
        setting.honest.contains(p),
        forall|j: int| 0 <= j < steps.len() ==> !failure((#[trigger] steps[j]).event),
    ensures
        run[k][p].session.stage is Done ==> run[k][p].has_delivered(),
    decreases k,
{
    if k == 0 {
        assert(initial(setting, run[0]));
    } else {
        lemma_no_session_fails(setting, run, steps, k - 1, p);
        lemma_one_step(setting, run, steps, k - 1, p);
        assert(!failure(steps[k - 1].event));
    }
}

/// Where all Inits have one hash, no other is echoed.
proof fn lemma_one_hash<T>(
    setting: Setting<T>,
    run: Seq<Map<PublicKeyBytes, NodeState<T>>>,
    steps: Seq<Occurrence<T>>,
    hash: HashBytes,
    k: int,
    p: PublicKeyBytes,
)
    requires
        unfolds(setting, run, steps),
        one_init(run, steps, hash),
        0 <= k < run.len(),
        setting.honest.contains(p),
    ensures
        run[k][p].session.stage matches StageState::SignEcho { instance, .. }
            ==> instance.payload_hash == hash,
        forall|h: HashBytes| #[trigger] run[k][p].echoed.contains(h) ==> h == hash,
    decreases k,
{
    if k == 0 {
        assert(initial(setting, run[0]));
    } else {
        lemma_one_hash(setting, run, steps, hash, k - 1, p);
        lemma_one_step(setting, run, steps, k - 1, p);
    }
}

/// A node that does not wait for the signature on its Init never will again.
proof fn lemma_past_init<T>(
    setting: Setting<T>,
    run: Seq<Map<PublicKeyBytes, NodeState<T>>>,
    steps: Seq<Occurrence<T>>,
    k: int,
    l: int,
    p: PublicKeyBytes,
)
    requires
        unfolds(setting, run, steps),
        0 <= k <= l < run.len(),
        !(run[k][p].session.stage is SignInit),
    ensures
        !(run[l][p].session.stage is SignInit),
    decreases l - k,
{
    if k < l {
        lemma_past_init(setting, run, steps, k, l - 1, p);
        lemma_one_step(setting, run, steps, l - 1, p);
    }
}

/// The initiator starts with the signature on its Init, and once it is past that,
/// it has sent the Init. It never waits for one itself. The result is the step at
/// which it sends the Init.
proof fn lemma_initiator<T>(
    setting: Setting<T>,
    run: Seq<Map<PublicKeyBytes, NodeState<T>>>,
    steps: Seq<Occurrence<T>>,
    k: int,
    initiator: PublicKeyBytes,
) -> (r: int)
    requires
        setting.valid(),
        unfolds(setting, run, steps),
        0 <= k < run.len(),
        setting.honest.contains(initiator),
        run[0][initiator].session.stage is SignInit,
        forall|j: int| 0 <= j < steps.len() ==> !failure((#[trigger] steps[j]).event),
    ensures
        match run[k][initiator].session.stage {
            StageState::AwaitInit { .. } => false,
            StageState::VerifyInit { .. } => false,
            StageState::Subscribe { prepared: None } => false,
            StageState::SignInit { .. } => run[k][initiator].session == run[0][initiator].session,
            _ => {
                &&& 0 <= r < k
                &&& steps[r].node == initiator
                &&& steps[r].event is InitSigned
                &&& run[r][initiator].session == run[0][initiator].session
            },
        },
    decreases k,
{
    if k == 0 {
        0
    } else {
        let j = k - 1;
        let r = lemma_initiator(setting, run, steps, j, initiator);
        lemma_one_step(setting, run, steps, j, initiator);
        assert(!failure(steps[j].event));
        if run[j][initiator].session.stage is SignInit {
            j
        } else {
            r
        }
    }
}

/// A broadcast is delivered: where an honest node initiates it, nothing fails,
/// signatures hold, and what honest nodes send arrives, every honest node delivers the initiator's
/// data, even among faulty ones.
///
/// The participants are listed once each. All Inits that are found valid are the
/// same, whoever sent them. The run may stop anywhere, as long as no honest node
/// has anything left to do but to wait for messages.
pub proof fn law_broadcast_delivers<T>(
    setting: Setting<T>,
    run: Seq<Map<PublicKeyBytes, NodeState<T>>>,
    steps: Seq<Occurrence<T>>,
    initiator: PublicKeyBytes,
    data: T,
    hash: HashBytes,
    p: PublicKeyBytes,
)
    requires
        setting.listed_once(),
        unfolds(setting, run, steps),
        setting.honest.contains(initiator),
        run[0][initiator].session.stage matches StageState::SignInit { data: d, .. } && d == data,
        one_init(run, steps, hash),
        signatures_hold(run, steps),
        forall|k: int| 0 <= k < steps.len() ==> !failure((#[trigger] steps[k]).event),
        forall|q: PublicKeyBytes| #[trigger]
            setting.honest.contains(q) ==> served(run, steps, q) && run.last()[q].idle(),
        setting.honest.contains(p),
    ensures
        run.last()[p].delivered(data),
{
    let nodes = run.last();
    let end = run.len() - 1;
    law_honest_participants(setting);
    law_unfolded_runs(setting, run);
    law_thresholds(setting.n());
    // the initiator has sent its Init
    let j = lemma_initiator(setting, run, steps, end, initiator);
    assert(nodes[initiator].idle());
    lemma_one_step(setting, run, steps, j, initiator);
    law_honest_node(setting, run, j, initiator);
    assert(!failure(steps[j].event));
    assert(setting.content.contains_pair(hash, data));
    // it has reached everyone, so everyone has sent an Echo
    assert forall|q: PublicKeyBytes| #[trigger] setting.honest.contains(q) implies at_work(nodes, q)
        && nodes[q].echoed.contains(hash) by {
        assert(served(run, steps, q) && nodes[q].idle());
        lemma_no_session_fails(setting, run, steps, end, q);
        if q != initiator {
            law_others(setting.participants, initiator, q);
            match run[j][initiator].session.step(initiator, steps[j].event).1 {
                EffectState::Send(out) => {
                    assert(sent_to(run, steps, j, incoming(out), q));
                    law_sent_has_arrived(setting, run, steps, j, incoming(out), q);
                },
                _ => {},
            }
        }
        law_honest_node(setting, run, end, q);
        lemma_one_hash(setting, run, steps, hash, end, q);
    }
    assert forall|q: PublicKeyBytes| #[trigger] setting.honest.contains(q) implies echos_arrived(
        setting,
        nodes,
        hash,
        q,
    ) && readys_arrived(setting, nodes, hash, q) by {
        law_served_nodes_hear_all(setting, run, steps, q, hash);
    }
    law_validity(setting, run, end, hash, setting.honest, p);
}

/// A node signs one Init at most.
proof fn lemma_signs_once<T>(
    setting: Setting<T>,
    run: Seq<Map<PublicKeyBytes, NodeState<T>>>,
    steps: Seq<Occurrence<T>>,
    p: PublicKeyBytes,
    k: int,
    l: int,
    a: SignatureBytes,
    b: SignatureBytes,
    g: HashBytes,
    h: HashBytes,
)
    requires
        unfolds(setting, run, steps),
        0 <= k < steps.len(),
        0 <= l < steps.len(),
        signs_init(run, steps, k, p, a, g),
        signs_init(run, steps, l, p, b, h),
    ensures
        g == h,
{
    let (first, then) = if k <= l {
        (k, l)
    } else {
        (l, k)
    };
    if first < then {
        lemma_one_step(setting, run, steps, first, p);
        lemma_past_init(setting, run, steps, first + 1, then, p);
    }
}

/// All honest nodes deliver what an honest node broadcasts: where one node
/// initiates the broadcast and the others take part in it, signing and subscribing
/// succeed, signatures hold, what honest nodes send arrives and nobody's time is up,
/// every honest node ends with the initiator's data as its outcome.
pub proof fn law_initiator_is_heard<T>(
    setting: Setting<T>,
    run: Seq<Map<PublicKeyBytes, NodeState<T>>>,
    steps: Seq<Occurrence<T>>,
    initiator: PublicKeyBytes,
    data: T,
    p: PublicKeyBytes,
)
    requires
        setting.listed_once(),
        unfolds(setting, run, steps),
        setting.honest.contains(initiator),
        run[0][initiator].session.stage matches StageState::SignInit { data: d, .. } && d == data,
        initiated_by(setting, run, steps, initiator),
        signatures_hold(run, steps),
        forall|k: int| 0 <= k < steps.len() ==> !failure((#[trigger] steps[k]).event),
        forall|q: PublicKeyBytes| #[trigger]
            setting.honest.contains(q) ==> served(run, steps, q) && run.last()[q].idle(),
        setting.honest.contains(p),
    ensures
        run.last()[p].delivered(data),
{
    law_honest_participants(setting);
    let end = run.len() - 1;
    let j = lemma_initiator(setting, run, steps, end, initiator);
    assert(run.last()[initiator].idle());
    assert(!failure(steps[j].event));
    if let EventState::InitSigned(Ok((signature, hash))) = steps[j].event {
        assert(signs_init(run, steps, j, initiator, signature, hash));
        assert forall|k: int| 0 <= k < steps.len() implies match (
            run[k][(#[trigger] steps[k]).node].session.stage,
            steps[k].event,
        ) {
            (StageState::SignInit { .. }, EventState::InitSigned(Ok((_, h)))) => h == hash,
            (StageState::VerifyInit { .. }, EventState::InitVerified(Some(h))) => h == hash,
            _ => true,
        } by {
            let q = steps[k].node;
            lemma_one_step(setting, run, steps, k, q);
            match (run[k][q].session.stage, steps[k].event) {
                (StageState::SignInit { .. }, EventState::InitSigned(Ok((a, h)))) => {
                    if q != initiator {
                        lemma_past_init(setting, run, steps, 0, k, q);
                    }
                    assert(signs_init(run, steps, k, q, a, h));
                    lemma_signs_once(setting, run, steps, q, j, k, signature, a, hash, h);
                },
                (StageState::VerifyInit { signature: a, .. }, EventState::InitVerified(Some(h))) => {
                    let l = choose|l: int|
                        0 <= l < k && #[trigger] signs_init(run, steps, l, initiator, a, h);
                    lemma_signs_once(setting, run, steps, initiator, j, l, signature, a, hash, h);
                },
                _ => {},
            }
        }
        law_broadcast_delivers(setting, run, steps, initiator, data, hash, p);
    }
}

} // verus!
