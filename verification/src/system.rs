//! What the protocol achieves when honest nodes run it together.
//!
//! The model: every honest node runs one session of the same broadcast, each by
//! [`SessionState::step`]; the faulty nodes, the network and the clock are the
//! source of all events and may do as they please, within what signatures, the
//! hash and the routing of messages guarantee.

use vstd::prelude::*;

use crate::identity::{HashBytes, PublicKeyBytes, SignatureBytes};
use crate::message::{MsgLink, MsgLinkId, OutgoingState, RoundState};
use crate::quorum::fault_bound;
use crate::session::{EffectState, EventState, SessionState, StageState};

verus! {

/// A broadcast and those who take part in it.
pub struct Setting<T> {
    /// The nodes that follow the protocol.
    pub honest: Set<PublicKeyBytes>,
    /// The other senders of messages that honest nodes may count.
    pub faulty: Set<PublicKeyBytes>,
    /// The participants that the broadcast's Init messages list.
    pub participants: Seq<PublicKeyBytes>,
    /// The broadcast's identifier.
    pub msg_link_id: MsgLinkId,
    /// What each hash is the hash of.
    pub content: Map<HashBytes, T>,
}

impl<T> Setting<T> {
    /// How many participants are listed.
    pub open spec fn n(self) -> nat {
        self.participants.len()
    }

    /// All whose messages may be counted.
    pub open spec fn members(self) -> Set<PublicKeyBytes> {
        self.honest.union(self.faulty)
    }

    /// No more take part than are listed, and of those no more are faulty than
    /// the thresholds allow for. This is so where the members are the listed
    /// participants, fewer than a third of them faulty.
    pub open spec fn valid(self) -> bool {
        &&& self.n() > 0
        &&& self.honest.finite()
        &&& self.faulty.finite()
        &&& self.honest.disjoint(self.faulty)
        &&& self.members().len() <= self.n()
        &&& self.faulty.len() <= fault_bound(self.n())
    }

    /// The members are the listed participants, each listed once, and no more of
    /// them are faulty than the thresholds allow for.
    pub open spec fn listed_once(self) -> bool {
        &&& self.n() > 0
        &&& self.participants.no_duplicates()
        &&& self.members() == self.participants.to_set()
        &&& self.honest.disjoint(self.faulty)
        &&& self.faulty.len() <= fault_bound(self.n())
    }
}

/// A setting is valid where its members are the listed participants and no more
/// of them are faulty than the thresholds allow for; a participant may be listed
/// more than once.
pub proof fn law_listed_members_are_valid<T>(setting: Setting<T>)
    requires
        setting.participants.len() > 0,
        setting.honest.disjoint(setting.faulty),
        setting.members() == setting.participants.to_set(),
        setting.faulty.len() <= fault_bound(setting.n()),
    ensures
        setting.valid(),
{
    setting.participants.lemma_cardinality_of_set();
    vstd::set_lib::lemma_len_subset(setting.honest, setting.members());
    vstd::set_lib::lemma_len_subset(setting.faulty, setting.members());
}

/// Where each participant is listed once, all but the tolerated number of them are
/// honest.
pub proof fn law_honest_participants<T>(setting: Setting<T>)
    requires
        setting.listed_once(),
    ensures
        setting.valid(),
        setting.honest.len() >= setting.n() - fault_bound(setting.n()),
        forall|p: PublicKeyBytes| #[trigger]
            setting.honest.contains(p) ==> setting.participants.contains(p),
{
    law_listed_members_are_valid(setting);
    setting.participants.unique_seq_to_set();
    vstd::set_lib::lemma_set_disjoint_lens(setting.honest, setting.faulty);
    assert forall|p: PublicKeyBytes| #[trigger]
        setting.honest.contains(p) implies setting.participants.contains(p) by {
        assert(setting.members().contains(p));
    }
}

/// An honest node: its session, and which hashes it has sent Echos and Readys
/// for.
#[verifier::ext_equal]
pub struct NodeState<T> {
    pub session: SessionState<T>,
    pub echoed: Set<HashBytes>,
    pub readied: Set<HashBytes>,
}

impl<T> NodeState<T> {
    /// The node `me` once the event has happened.
    pub open spec fn after(self, me: PublicKeyBytes, event: EventState<T>) -> Self {
        let (session, effect) = self.session.step(me, event);
        match effect {
            EffectState::Send(out) => match out.data {
                RoundState::Init(_, _, _) => NodeState { session, ..self },
                RoundState::Echo(hash, _) => NodeState {
                    session,
                    echoed: self.echoed.insert(hash),
                    readied: self.readied,
                },
                RoundState::Ready(hash, _) => NodeState {
                    session,
                    echoed: self.echoed,
                    readied: self.readied.insert(hash),
                },
            },
            _ => NodeState { session, ..self },
        }
    }

    /// Whether the node has not done anything yet in this broadcast.
    pub open spec fn starting(self, setting: Setting<T>) -> bool {
        &&& self.echoed == Set::<HashBytes>::empty()
        &&& self.readied == Set::<HashBytes>::empty()
        &&& match self.session.stage {
            StageState::SignInit { data, .. } => self.session == SessionState::initiating(
                setting.participants,
                data,
                setting.msg_link_id,
                self.session.timeout_secs,
            ),
            _ => self.session == SessionState::<T>::participating(
                setting.msg_link_id,
                self.session.timeout_secs,
            ),
        }
    }

    /// Whether the node has nothing to do: it waits for a message, or is done.
    pub open spec fn idle(self) -> bool {
        self.session.listening() || self.session.stage is Done
    }

    /// Whether the node has delivered `value`.
    pub open spec fn delivered(self, value: T) -> bool {
        self.session.stage == (StageState::Done { outcome: Ok(value) })
    }

    /// Whether the node has delivered anything.
    pub open spec fn has_delivered(self) -> bool {
        match self.session.stage {
            StageState::Done { outcome: Ok(_) } => true,
            _ => false,
        }
    }
}

/// Whether the event can happen to the honest node `p`:
///
/// - messages are routed to the sessions of their own broadcast;
/// - the Init messages of the broadcast list its participants, and a hash
///   belongs to one content;
/// - a signature of an honest node holds only if that node made the statement
///   that it signs, and only members' signatures are at hand.
pub open spec fn possible<T>(
    setting: Setting<T>,
    nodes: Map<PublicKeyBytes, NodeState<T>>,
    p: PublicKeyBytes,
    event: EventState<T>,
) -> bool {
    match (nodes[p].session.stage, event) {
        (_, EventState::Received(Some(m))) => m.msg_link_id == setting.msg_link_id,
        (StageState::SignInit { data, .. }, EventState::InitSigned(Ok((_, hash)))) =>
            setting.content.contains_pair(hash, data),
        (
            StageState::VerifyInit { data, participants, .. },
            EventState::InitVerified(Some(hash)),
        ) => participants == setting.participants && setting.content.contains_pair(hash, data),
        (StageState::VerifyEcho { claim, .. }, EventState::Verified(true)) => {
            ||| setting.faulty.contains(claim.sender)
            ||| setting.honest.contains(claim.sender) && (claim.msg_link_id == setting.msg_link_id
                ==> nodes[claim.sender].echoed.contains(claim.hash))
        },
        (StageState::VerifyReady { claim, .. }, EventState::Verified(true)) => {
            ||| setting.faulty.contains(claim.sender)
            ||| setting.honest.contains(claim.sender) && (claim.msg_link_id == setting.msg_link_id
                ==> nodes[claim.sender].readied.contains(claim.hash))
        },
        _ => true,
    }
}

/// Something that happens to an honest node.
pub struct Occurrence<T> {
    pub node: PublicKeyBytes,
    pub event: EventState<T>,
}

/// Whether this can happen in the one state and leads to the other.
pub open spec fn leads<T>(
    setting: Setting<T>,
    before: Map<PublicKeyBytes, NodeState<T>>,
    step: Occurrence<T>,
    after: Map<PublicKeyBytes, NodeState<T>>,
) -> bool {
    &&& setting.honest.contains(step.node)
    &&& possible(setting, before, step.node, step.event)
    &&& after == before.insert(step.node, before[step.node].after(step.node, step.event))
}

/// One step of the system: something happens to one honest node.
pub open spec fn next<T>(
    setting: Setting<T>,
    before: Map<PublicKeyBytes, NodeState<T>>,
    after: Map<PublicKeyBytes, NodeState<T>>,
) -> bool {
    exists|step: Occurrence<T>| #[trigger] leads(setting, before, step, after)
}

/// Whether all honest nodes are at their start.
pub open spec fn initial<T>(
    setting: Setting<T>,
    nodes: Map<PublicKeyBytes, NodeState<T>>,
) -> bool {
    forall|p: PublicKeyBytes| #[trigger]
        setting.honest.contains(p) ==> nodes.contains_key(p) && nodes[p].starting(setting)
}

/// A run of the system: it starts at the start and goes on step by step.
pub open spec fn is_run<T>(
    setting: Setting<T>,
    run: Seq<Map<PublicKeyBytes, NodeState<T>>>,
) -> bool {
    &&& run.len() > 0
    &&& initial(setting, run[0])
    &&& forall|k: int, l: int| 0 <= k && l == k + 1 && l < run.len() ==> next(
        setting,
        #[trigger] run[k],
        #[trigger] run[l],
    )
}

/// A run of which it is known what happens at each step.
pub open spec fn unfolds<T>(
    setting: Setting<T>,
    run: Seq<Map<PublicKeyBytes, NodeState<T>>>,
    steps: Seq<Occurrence<T>>,
) -> bool {
    &&& run.len() == steps.len() + 1
    &&& initial(setting, run[0])
    &&& forall|k: int, l: int| 0 <= k && l == k + 1 && l < run.len() ==> leads(
        setting,
        #[trigger] run[k],
        steps[k],
        #[trigger] run[l],
    )
}

/// Every run is one in which something happens at each step.
pub proof fn law_unfolded_runs<T>(setting: Setting<T>, run: Seq<Map<PublicKeyBytes, NodeState<T>>>)
    ensures
        is_run(setting, run) <==> exists|steps: Seq<Occurrence<T>>| #[trigger]
            unfolds(setting, run, steps),
{
    if is_run(setting, run) {
        let steps = Seq::new(
            (run.len() - 1) as nat,
            |k: int|
                choose|step: Occurrence<T>| #[trigger] leads(setting, run[k], step, run[k + 1]),
        );
        assert forall|k: int, l: int| 0 <= k && l == k + 1 && l < run.len() implies leads(
            setting,
            #[trigger] run[k],
            steps[k],
            #[trigger] run[l],
        ) by {
            assert(next(setting, run[k], run[l]));
        }
        assert(unfolds(setting, run, steps));
    }
}

/// A message that was sent, as it comes in.
pub open spec fn incoming<T>(out: OutgoingState<T>) -> MsgLink<RoundState<T>> {
    MsgLink { sender: out.sender, msg_link_id: out.msg_link_id, data: out.data }
}

/// Whether the message is sent to `p` at the step number `k`.
pub open spec fn sent_to<T>(
    run: Seq<Map<PublicKeyBytes, NodeState<T>>>,
    steps: Seq<Occurrence<T>>,
    k: int,
    m: MsgLink<RoundState<T>>,
    p: PublicKeyBytes,
) -> bool {
    match run[k][steps[k].node].session.step(steps[k].node, steps[k].event).1 {
        EffectState::Send(out) => incoming(out) == m && out.to.contains(p),
        _ => false,
    }
}

/// Whether the message is handed to `p` at the step number `k`, and `p` waits for
/// one then.
pub open spec fn received_by<T>(
    run: Seq<Map<PublicKeyBytes, NodeState<T>>>,
    steps: Seq<Occurrence<T>>,
    k: int,
    m: MsgLink<RoundState<T>>,
    p: PublicKeyBytes,
) -> bool {
    &&& steps[k].node == p
    &&& steps[k].event == EventState::Received(Some(m))
    &&& run[k][p].session.listening()
}

/// Whether all that honest nodes send to `p` in the run arrives, unless `p` is done
/// before.
pub open spec fn served<T>(
    run: Seq<Map<PublicKeyBytes, NodeState<T>>>,
    steps: Seq<Occurrence<T>>,
    p: PublicKeyBytes,
) -> bool {
    forall|j: int, m: MsgLink<RoundState<T>>|
        0 <= j < steps.len() && #[trigger] sent_to(run, steps, j, m, p) ==> {
            ||| run.last()[p].session.stage is Done
            ||| exists|k: int| j < k < steps.len() && #[trigger] received_by(run, steps, k, m, p)
        }
}

/// What a signature is put under.
pub enum Statement<T> {
    Init { data: T, participants: Seq<PublicKeyBytes>, msg_link_id: MsgLinkId },
    Echo { hash: HashBytes, msg_link_id: MsgLinkId },
    Ready { hash: HashBytes, msg_link_id: MsgLinkId },
}

/// The statement that the session waits to have signed, if it waits for that.
pub open spec fn to_sign<T>(s: SessionState<T>) -> Option<Statement<T>> {
    match s.stage {
        StageState::SignInit { data, recipients } => Some(
            Statement::Init { data, participants: recipients, msg_link_id: s.msg_link_id },
        ),
        StageState::SignEcho { instance, .. } => Some(
            Statement::Echo { hash: instance.payload_hash, msg_link_id: s.msg_link_id },
        ),
        StageState::SignReady { hash, msg_link_id, .. } => Some(
            Statement::Ready { hash, msg_link_id },
        ),
        _ => None,
    }
}

/// The statement that the session waits to have checked, whose it is said to be,
/// and the signature under it.
pub open spec fn to_check<T>(s: SessionState<T>) -> Option<
    (Statement<T>, PublicKeyBytes, SignatureBytes),
> {
    match s.stage {
        StageState::VerifyInit { sender, data, participants, signature, .. } => Some(
            (
                Statement::Init { data, participants, msg_link_id: s.msg_link_id },
                sender,
                signature,
            ),
        ),
        StageState::VerifyEcho { claim, .. } => Some(
            (
                Statement::Echo { hash: claim.hash, msg_link_id: claim.msg_link_id },
                claim.sender,
                claim.signature,
            ),
        ),
        StageState::VerifyReady { claim, .. } => Some(
            (
                Statement::Ready { hash: claim.hash, msg_link_id: claim.msg_link_id },
                claim.sender,
                claim.signature,
            ),
        ),
        _ => None,
    }
}

/// Whether the event hands over this signature under a statement of that kind.
pub open spec fn hands_over<T>(
    event: EventState<T>,
    statement: Statement<T>,
    signature: SignatureBytes,
) -> bool {
    match statement {
        Statement::Init { .. } => event matches EventState::InitSigned(Ok((s, _))) && s
            == signature,
        Statement::Echo { .. } => event matches EventState::EchoSigned(s) && s == signature,
        Statement::Ready { .. } => event matches EventState::ReadySigned(s) && s == signature,
    }
}

/// Whether `p` has the statement signed at the step number `k`, with this signature.
pub open spec fn signs<T>(
    run: Seq<Map<PublicKeyBytes, NodeState<T>>>,
    steps: Seq<Occurrence<T>>,
    k: int,
    p: PublicKeyBytes,
    statement: Statement<T>,
    signature: SignatureBytes,
) -> bool {
    &&& steps[k].node == p
    &&& to_sign(run[k][p].session) == Some(statement)
    &&& hands_over(steps[k].event, statement, signature)
}

/// Whether the signatures that honest nodes make hold when they are checked: where
/// a node has a statement signed, and that very statement is checked later with
/// that very signature as the node's, it is not said to be invalid.
pub open spec fn signatures_hold<T>(
    run: Seq<Map<PublicKeyBytes, NodeState<T>>>,
    steps: Seq<Occurrence<T>>,
) -> bool {
    forall|
        j: int,
        k: int,
        p: PublicKeyBytes,
        statement: Statement<T>,
        signature: SignatureBytes,
    |
        #![trigger signs(run, steps, j, p, statement, signature), steps[k]]
        0 <= j < k < steps.len() && signs(run, steps, j, p, statement, signature) && to_check(
            run[k][steps[k].node].session,
        ) == Some((statement, p, signature)) ==> match statement {
            Statement::Init { .. } => steps[k].event != EventState::<T>::InitVerified(None),
            _ => steps[k].event != EventState::<T>::Verified(false),
        }
}

/// The statement that a message makes, and the signature under it.
pub open spec fn stated<T>(m: MsgLink<RoundState<T>>) -> (Statement<T>, SignatureBytes) {
    match m.data {
        RoundState::Init(data, participants, signature) => (
            Statement::Init { data, participants, msg_link_id: m.msg_link_id },
            signature,
        ),
        RoundState::Echo(hash, signature) => (
            Statement::Echo { hash, msg_link_id: m.msg_link_id },
            signature,
        ),
        RoundState::Ready(hash, signature) => (
            Statement::Ready { hash, msg_link_id: m.msg_link_id },
            signature,
        ),
    }
}

/// Whether the event is a failure: nothing could be signed or subscribed to, no
/// message will come any more, or the time is up.
pub open spec fn failure<T>(event: EventState<T>) -> bool {
    match event {
        EventState::InitSigned(Err(_)) => true,
        EventState::Subscribed(false) => true,
        EventState::Received(None) => true,
        EventState::TimedOut => true,
        _ => false,
    }
}

/// Whether `p` gets its Init signed at the step number `k`, with this signature and
/// this hash.
pub open spec fn signs_init<T>(
    run: Seq<Map<PublicKeyBytes, NodeState<T>>>,
    steps: Seq<Occurrence<T>>,
    k: int,
    p: PublicKeyBytes,
    signature: SignatureBytes,
    hash: HashBytes,
) -> bool {
    &&& steps[k].node == p
    &&& run[k][p].session.stage is SignInit
    &&& steps[k].event == EventState::<T>::InitSigned(Ok((signature, hash)))
}

/// Whether `p` alone initiates the broadcast: the other honest nodes start as
/// recipients, and an Init is found valid only if it is one that `p` has signed,
/// with the hash that it has signed it for.
pub open spec fn initiated_by<T>(
    setting: Setting<T>,
    run: Seq<Map<PublicKeyBytes, NodeState<T>>>,
    steps: Seq<Occurrence<T>>,
    p: PublicKeyBytes,
) -> bool {
    &&& forall|q: PublicKeyBytes| #[trigger]
        setting.honest.contains(q) ==> (run[0][q].session.stage is SignInit <==> q == p)
    &&& forall|k: int|
        0 <= k < steps.len() ==> match (
            run[k][(#[trigger] steps[k]).node].session.stage,
            steps[k].event,
        ) {
            (
                StageState::VerifyInit { sender, signature, .. },
                EventState::InitVerified(Some(hash)),
            ) => sender == p && exists|j: int|
                0 <= j < k && #[trigger] signs_init(run, steps, j, p, signature, hash),
            _ => true,
        }
}

/// Whether every Init that is signed or found valid in the run has this hash.
pub open spec fn one_init<T>(
    run: Seq<Map<PublicKeyBytes, NodeState<T>>>,
    steps: Seq<Occurrence<T>>,
    hash: HashBytes,
) -> bool {
    forall|k: int|
        0 <= k < steps.len() ==> match (
            run[k][(#[trigger] steps[k]).node].session.stage,
            steps[k].event,
        ) {
            (StageState::SignInit { .. }, EventState::InitSigned(Ok((_, h)))) => h == hash,
            (StageState::VerifyInit { .. }, EventState::InitVerified(Some(h))) => h == hash,
            _ => true,
        }
}

} // verus!
