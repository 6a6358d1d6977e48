//! Whole broadcasts, run over a network that delivers messages one at a time.

use std::collections::{HashMap, VecDeque};

use reliable_broadcast::error::BroadcastError;
use reliable_broadcast::identity::{HashBytes, PublicKeyBytes, SignatureBytes};
use reliable_broadcast::message::{BroadcastRound, MsgLink, MsgLinkId, Outgoing};
use reliable_broadcast::node::ProtocolNode;
use reliable_broadcast::session::{Effect, Event, Session, Stage};

/// A digest that is good enough to tell the contents of these tests apart.
fn digest(parts: &[&[u8]], salt: u8) -> [u8; 32] {
    let mut out = [0u8; 32];
    for lane in 0..4u64 {
        let mut h: u64 = 0xcbf2_9ce4_8422_2325 ^ (lane << 8) ^ salt as u64;
        for part in parts {
            for b in part.iter() {
                h = (h ^ *b as u64).wrapping_mul(0x0000_0100_0000_01b3);
            }
            h = (h ^ part.len() as u64).wrapping_mul(0x0000_0100_0000_01b3);
        }
        out[lane as usize * 8..lane as usize * 8 + 8].copy_from_slice(&h.to_le_bytes());
    }
    out
}

/// A signature is a digest of the signer's key and the signed statement.
fn sign(key: PublicKeyBytes, kind: u8, hash: HashBytes, id: MsgLinkId) -> SignatureBytes {
    let mut sig = [kind; 64];
    sig[..32].copy_from_slice(&digest(&[&key.0, &hash.0, &id.0.to_le_bytes()], kind));
    SignatureBytes(sig)
}

const INIT: u8 = 1;
const ECHO: u8 = 2;
const READY: u8 = 3;

fn init_hash(
    data: &str,
    sender: PublicKeyBytes,
    participants: &[PublicKeyBytes],
    id: MsgLinkId,
) -> HashBytes {
    let mut listed: Vec<u8> = Vec::new();
    for p in participants {
        listed.extend_from_slice(&p.0);
    }
    HashBytes(digest(&[data.as_bytes(), &sender.0, &listed, &id.0.to_le_bytes()], 0))
}

fn sign_init(
    key: PublicKeyBytes,
    data: &str,
    participants: &[PublicKeyBytes],
    id: MsgLinkId,
) -> (SignatureBytes, HashBytes) {
    let hash = init_hash(data, key, participants, id);
    (sign(key, INIT, hash, id), hash)
}

fn key(i: u8) -> PublicKeyBytes {
    PublicKeyBytes([i; 32])
}

type Msg = MsgLink<BroadcastRound<String>>;

/// A network of nodes with their sessions, and the messages under way.
struct Net {
    inboxes: HashMap<(PublicKeyBytes, MsgLinkId), VecDeque<Msg>>,
    sessions: Vec<(ProtocolNode<()>, Option<Session<String>>)>,
    sent: Vec<(PublicKeyBytes, u8)>,
}

impl Net {
    fn new() -> Net {
        Net { inboxes: HashMap::new(), sessions: Vec::new(), sent: Vec::new() }
    }

    fn send_msg(
        &mut self,
        to: PublicKeyBytes,
        data: &BroadcastRound<String>,
        id: MsgLinkId,
        sender: PublicKeyBytes,
    ) {
        let msg = MsgLink { sender, msg_link_id: id, data: data.clone() };
        self.inboxes.entry((to, id)).or_default().push_back(msg);
    }

    fn send(&mut self, out: &Outgoing<String>) {
        let kind = match out.data {
            BroadcastRound::Init(..) => INIT,
            BroadcastRound::Echo(..) => ECHO,
            BroadcastRound::Ready(..) => READY,
        };
        self.sent.push((out.sender, kind));
        for to in &out.to {
            assert_ne!(*to, out.sender);
            self.send_msg(*to, &out.data, out.msg_link_id, out.sender);
        }
    }

    fn broadcast_init(
        &mut self,
        me: PublicKeyBytes,
        participants: &[PublicKeyBytes],
        data: &str,
        id: MsgLinkId,
        secs: u64,
    ) -> usize {
        let node = ProtocolNode::new((), me);
        let session = node.broadcast_init(participants.to_vec(), data.to_string(), id, secs);
        self.sessions.push((node, Some(session)));
        self.sessions.len() - 1
    }

    fn participate(&mut self, me: PublicKeyBytes, id: MsgLinkId, secs: u64) -> usize {
        let node = ProtocolNode::new((), me);
        let session = node.participate_in_broadcast(id, secs);
        self.sessions.push((node, Some(session)));
        self.sessions.len() - 1
    }

    /// Does the outside work that one session waits for. Says whether there was
    /// any to do.
    fn turn(&mut self, at: usize) -> bool {
        let me = *self.sessions[at].0.public_key();
        let session = self.sessions[at].1.take().unwrap();
        let id = session.msg_link_id();
        let event = match session.stage() {
            Stage::SignInit { data, recipients } => {
                Some(Event::InitSigned(Ok(sign_init(me, data, recipients, id))))
            }
            Stage::SignEcho { instance, .. } => {
                Some(Event::EchoSigned(sign(me, ECHO, instance.payload_hash(), id)))
            }
            Stage::Subscribe { .. } => Some(Event::Subscribed(true)),
            Stage::VerifyInit { sender, data, participants, signature, .. } => {
                let hash = init_hash(data, *sender, participants, id);
                let valid = sign(*sender, INIT, hash, id) == *signature;
                Some(Event::InitVerified(if valid { Some(hash) } else { None }))
            }
            Stage::Drain { .. } => Some(Event::Continue),
            Stage::AwaitInit { .. } | Stage::Collect { .. } => {
                match self.inboxes.entry((me, id)).or_default().pop_front() {
                    Some(msg) => Some(Event::Received(Some(msg))),
                    None => None,
                }
            }
            Stage::VerifyEcho { claim, .. } => Some(Event::Verified(
                sign(claim.sender, ECHO, claim.hash, claim.msg_link_id) == claim.signature,
            )),
            Stage::VerifyReady { claim, .. } => Some(Event::Verified(
                sign(claim.sender, READY, claim.hash, claim.msg_link_id) == claim.signature,
            )),
            Stage::SignReady { hash, msg_link_id, .. } => {
                Some(Event::ReadySigned(sign(me, READY, *hash, *msg_link_id)))
            }
            Stage::Done { .. } => None,
        };
        match event {
            Some(event) => {
                let (session, effect) = self.sessions[at].0.advance(session, event);
                self.sessions[at].1 = Some(session);
                if let Effect::Send(out) = effect {
                    self.send(&out);
                }
                true
            }
            None => {
                self.sessions[at].1 = Some(session);
                false
            }
        }
    }

    /// Runs until nothing is left to do.
    fn settle(&mut self) {
        let mut busy = true;
        while busy {
            busy = false;
            for at in 0..self.sessions.len() {
                if self.turn(at) {
                    busy = true;
                }
            }
        }
    }

    /// Runs until nothing is left to do, then lets the time run out.
    fn outcomes(mut self) -> Vec<Result<String, BroadcastError>> {
        self.settle();
        let mut outcomes = Vec::new();
        for (node, session) in self.sessions {
            let (session, _) = node.advance(session.unwrap(), Event::TimedOut);
            outcomes.push(session.into_outcome().expect("session should be over"));
        }
        outcomes
    }
}

#[test]
fn test_broadcast_four_honest_nodes() {
    const TIMEOUT_SECS: u64 = 5;
    let participants = vec![key(0), key(1), key(2), key(3)];
    let msg_link_id = MsgLinkId::new(100);
    let broadcast_data = "Important broadcast message".to_string();

    let mut net = Net::new();
    net.broadcast_init(key(0), &participants, &broadcast_data, msg_link_id, TIMEOUT_SECS);
    net.participate(key(1), msg_link_id, TIMEOUT_SECS);
    net.participate(key(2), msg_link_id, TIMEOUT_SECS);
    net.participate(key(3), msg_link_id, TIMEOUT_SECS);

    let results = net.outcomes();
    assert_eq!(*results[0].as_ref().expect("Node 0 broadcast failed"), broadcast_data);
    assert_eq!(*results[1].as_ref().expect("Node 1 broadcast failed"), broadcast_data);
    assert_eq!(*results[2].as_ref().expect("Node 2 broadcast failed"), broadcast_data);
    assert_eq!(*results[3].as_ref().expect("Node 3 broadcast failed"), broadcast_data);
}

#[test]
fn test_broadcast_messages_arrive_out_of_order() {
    const TIMEOUT_SECS: u64 = 5;
    let participants = vec![key(0), key(1), key(2), key(3)];
    let msg_link_id = MsgLinkId::new(200);
    let broadcast_data = "Out of order test".to_string();

    let mut net = Net::new();
    net.participate(key(1), msg_link_id, TIMEOUT_SECS);
    net.participate(key(2), msg_link_id, TIMEOUT_SECS);
    net.participate(key(3), msg_link_id, TIMEOUT_SECS);
    net.settle();
    net.broadcast_init(key(0), &participants, &broadcast_data, msg_link_id, TIMEOUT_SECS);

    let results = net.outcomes();
    assert_eq!(*results[3].as_ref().expect("Node 0 failed"), broadcast_data);
    assert_eq!(*results[0].as_ref().expect("Node 1 failed"), broadcast_data);
    assert_eq!(*results[1].as_ref().expect("Node 2 failed"), broadcast_data);
    assert_eq!(*results[2].as_ref().expect("Node 3 failed"), broadcast_data);
}

#[test]
fn test_broadcast_multiple_concurrent_broadcasts() {
    const NUM_NODES: usize = 10;
    const TIMEOUT_SECS: u64 = 10;
    let pubkeys: Vec<PublicKeyBytes> = (0..NUM_NODES).map(|i| key(i as u8)).collect();

    let mut net = Net::new();
    let mut ids = Vec::new();
    for (initiator_idx, initiator) in pubkeys.iter().enumerate() {
        let msg_link_id = MsgLinkId::new(initiator_idx as u128);
        let broadcast_data = format!("Message from node {}", initiator_idx);
        net.broadcast_init(*initiator, &pubkeys, &broadcast_data, msg_link_id, TIMEOUT_SECS);
        ids.push(msg_link_id);
        for (participant_idx, participant) in pubkeys.iter().enumerate() {
            if participant_idx == initiator_idx {
                continue;
            }
            net.participate(*participant, msg_link_id, TIMEOUT_SECS);
            ids.push(msg_link_id);
        }
    }

    let mut results_by_msg_id: HashMap<MsgLinkId, Vec<String>> = HashMap::new();
    for (msg_id, outcome) in ids.into_iter().zip(net.outcomes()) {
        match outcome {
            Ok(data) => results_by_msg_id.entry(msg_id).or_default().push(data),
            Err(e) => panic!("Task failed: {:?}", e),
        }
    }

    assert_eq!(results_by_msg_id.len(), NUM_NODES);
    for (msg_id, results) in results_by_msg_id.iter() {
        assert_eq!(results.len(), NUM_NODES);
        let first = &results[0];
        assert!(
            results.iter().all(|r| r == first),
            "All nodes should agree on broadcast {:?}",
            msg_id
        );
        assert_eq!(*first, format!("Message from node {}", msg_id.0));
    }
}

#[test]
fn test_broadcast_with_byzantine_node_sending_invalid_signatures() {
    const TIMEOUT_SECS: u64 = 5;
    let byzantine = key(9);
    let participants = vec![key(0), key(1), key(2), byzantine];
    let msg_link_id = MsgLinkId::new(300);
    let broadcast_data = "Broadcast with Byzantine node".to_string();

    let mut net = Net::new();
    net.broadcast_init(key(0), &participants, &broadcast_data, msg_link_id, TIMEOUT_SECS);
    net.participate(key(1), msg_link_id, TIMEOUT_SECS);
    net.participate(key(2), msg_link_id, TIMEOUT_SECS);

    // The Byzantine node sends an Echo with a wrong signature to all honest nodes
    let hash = init_hash(&broadcast_data, key(0), &participants, msg_link_id);
    let wrong_key = key(77);
    let bad_echo = BroadcastRound::Echo(hash, sign(wrong_key, ECHO, hash, msg_link_id));
    for participant in participants.iter() {
        if *participant == byzantine {
            continue;
        }
        net.send_msg(*participant, &bad_echo, msg_link_id, byzantine);
    }

    let results = net.outcomes();
    assert_eq!(*results[0].as_ref().expect("Node 0 broadcast failed"), broadcast_data);
    assert_eq!(*results[1].as_ref().expect("Node 1 broadcast failed"), broadcast_data);
    assert_eq!(*results[2].as_ref().expect("Node 2 broadcast failed"), broadcast_data);
}

#[test]
fn test_byzantine_initiator_equivocates_to_one_node() {
    const TIMEOUT_SECS: u64 = 3;
    let byz = key(9);
    let msg_link_id = MsgLinkId::new(500);
    let data_a = "Legitimate message".to_string();
    let data_b = "Equivocating message".to_string();
    let participants = vec![byz, key(1), key(2), key(3)];

    let (sig_a, hash_a) = sign_init(byz, &data_a, &participants, msg_link_id);
    let (sig_b, _) = sign_init(byz, &data_b, &participants, msg_link_id);
    let init_a = BroadcastRound::Init(data_a.clone(), participants.clone(), sig_a);
    let init_b = BroadcastRound::Init(data_b.clone(), participants.clone(), sig_b);

    // Send data_a to node1 + node2, data_b to node3
    let mut net = Net::new();
    net.send_msg(key(1), &init_a, msg_link_id, byz);
    net.send_msg(key(2), &init_a, msg_link_id, byz);
    net.send_msg(key(3), &init_b, msg_link_id, byz);

    let echo_msg = BroadcastRound::Echo(hash_a, sign(byz, ECHO, hash_a, msg_link_id));
    for pk in [key(1), key(2), key(3)] {
        net.send_msg(pk, &echo_msg, msg_link_id, byz);
    }
    let ready_msg = BroadcastRound::Ready(hash_a, sign(byz, READY, hash_a, msg_link_id));
    for pk in [key(1), key(2)] {
        net.send_msg(pk, &ready_msg, msg_link_id, byz);
    }

    net.participate(key(1), msg_link_id, TIMEOUT_SECS);
    net.participate(key(2), msg_link_id, TIMEOUT_SECS);
    net.participate(key(3), msg_link_id, TIMEOUT_SECS);

    let results = net.outcomes();
    // node1 and node2 deliver data_a successfully
    assert_eq!(*results[0].as_ref().expect("node1 should deliver"), data_a);
    assert_eq!(*results[1].as_ref().expect("node2 should deliver"), data_a);
    // node3 received data_b but never reaches echo threshold, so it times out
    assert!(
        matches!(results[2], Err(BroadcastError::Timeout(TIMEOUT_SECS))),
        "node3 should time out waiting on stalled hash_b, got {:?}",
        results[2]
    );
}

#[test]
fn test_byzantine_initiator_equivocates_to_majority() {
    const TIMEOUT_SECS: u64 = 1;
    let byz = key(9);
    let msg_link_id = MsgLinkId::new(600);
    let data_a = "Message A".to_string();
    let data_b = "Message B".to_string();
    let participants = vec![byz, key(1), key(2), key(3)];

    let (sig_a, hash_a) = sign_init(byz, &data_a, &participants, msg_link_id);
    let (sig_b, _) = sign_init(byz, &data_b, &participants, msg_link_id);
    let init_a = BroadcastRound::Init(data_a.clone(), participants.clone(), sig_a);
    let init_b = BroadcastRound::Init(data_b.clone(), participants.clone(), sig_b);

    // Send data_a to node1 only, data_b to node2 and node3
    let mut net = Net::new();
    net.send_msg(key(1), &init_a, msg_link_id, byz);
    net.send_msg(key(2), &init_b, msg_link_id, byz);
    net.send_msg(key(3), &init_b, msg_link_id, byz);

    // The Byzantine node echoes hash_a: brings its count to 2, below threshold of 3
    let echo_msg = BroadcastRound::Echo(hash_a, sign(byz, ECHO, hash_a, msg_link_id));
    for pk in [key(1), key(2), key(3)] {
        net.send_msg(pk, &echo_msg, msg_link_id, byz);
    }

    net.participate(key(1), msg_link_id, TIMEOUT_SECS);
    net.participate(key(2), msg_link_id, TIMEOUT_SECS);
    net.participate(key(3), msg_link_id, TIMEOUT_SECS);

    let results = net.outcomes();
    assert!(
        matches!(results[0], Err(BroadcastError::Timeout(TIMEOUT_SECS))),
        "node1 should time out, got {:?}",
        results[0]
    );
    assert!(
        matches!(results[1], Err(BroadcastError::Timeout(TIMEOUT_SECS))),
        "node2 should time out, got {:?}",
        results[1]
    );
    assert!(
        matches!(results[2], Err(BroadcastError::Timeout(TIMEOUT_SECS))),
        "node3 should time out, got {:?}",
        results[2]
    );
}

#[test]
fn test_participant_times_out_waiting_for_init() {
    const TIMEOUT_SECS: u64 = 1;
    let msg_link_id = MsgLinkId::new(800);
    let mut net = Net::new();
    net.participate(key(0), msg_link_id, TIMEOUT_SECS);
    let results = net.outcomes();
    assert!(
        matches!(results[0], Err(BroadcastError::Timeout(TIMEOUT_SECS))),
        "expected Timeout waiting for Init that never arrived, got {:?}",
        results[0]
    );
}

#[test]
fn test_initiator_times_out_when_no_echoes_return() {
    const TIMEOUT_SECS: u64 = 1;
    let msg_link_id = MsgLinkId::new(900);
    let participants = vec![key(0), key(1), key(2), key(3)];
    let mut net = Net::new();
    net.broadcast_init(key(0), &participants, "hello", msg_link_id, TIMEOUT_SECS);
    let results = net.outcomes();
    assert!(
        matches!(results[0], Err(BroadcastError::Timeout(TIMEOUT_SECS))),
        "expected initiator to time out with no echoes returning, got {:?}",
        results[0]
    );
}

/// The sizes for which all honest nodes of a broadcast deliver, with as many
/// silent nodes as are allowed for.
#[test]
fn all_honest_nodes_deliver_beside_silent_ones() {
    for n in 1..14u8 {
        let silent = (n - 1) / 3;
        let participants: Vec<PublicKeyBytes> = (0..n).map(key).collect();
        let id = MsgLinkId::new(n as u128);
        let mut net = Net::new();
        net.broadcast_init(key(0), &participants, "value", id, 1);
        for p in 1..n - silent {
            net.participate(key(p), id, 1);
        }
        for outcome in net.outcomes() {
            assert_eq!(outcome.expect("honest node should deliver"), "value");
        }
    }
}

/// A broadcast among the initiator alone is delivered at once: its own Echo and
/// its own Ready are all that it takes.
#[test]
fn lone_participant_delivers() {
    let mut net = Net::new();
    net.broadcast_init(key(0), &[key(0)], "value", MsgLinkId::new(1), 4);
    net.settle();
    assert_eq!(net.sent, vec![(key(0), INIT), (key(0), ECHO), (key(0), READY)]);
    assert_eq!(net.outcomes()[0].as_ref().unwrap(), "value");
}

/// The same for a recipient that is the only participant listed.
#[test]
fn lone_recipient_delivers() {
    let id = MsgLinkId::new(1);
    let (sig, _) = sign_init(key(9), "value", &[key(1)], id);
    let init = BroadcastRound::Init("value".to_string(), vec![key(1)], sig);
    let mut net = Net::new();
    net.send_msg(key(1), &init, id, key(9));
    net.participate(key(1), id, 4);
    net.settle();
    assert_eq!(net.sent, vec![(key(1), ECHO), (key(1), READY)]);
    assert_eq!(net.outcomes()[0].as_ref().unwrap(), "value");
}

/// Runs an initiator that sends one value to the first honest nodes and another
/// to the rest, and backs both.
fn equivocate(n: u8, first: u8) -> Vec<Result<String, BroadcastError>> {
    let byz = key(0);
    let participants: Vec<PublicKeyBytes> = (0..n).map(key).collect();
    let id = MsgLinkId::new(1);
    let mut net = Net::new();
    for p in 1..n {
        let data = if p <= first { "A" } else { "B" };
        let (sig, hash) = sign_init(byz, data, &participants, id);
        let init = BroadcastRound::Init(data.to_string(), participants.clone(), sig);
        net.send_msg(key(p), &init, id, byz);
        let echo = BroadcastRound::Echo(hash, sign(byz, ECHO, hash, id));
        net.send_msg(key(p), &echo, id, byz);
        let ready = BroadcastRound::Ready(hash, sign(byz, READY, hash, id));
        net.send_msg(key(p), &ready, id, byz);
        net.participate(key(p), id, 1);
    }
    net.outcomes()
}

/// An equivocating initiator never makes two honest nodes deliver different
/// values, whatever the number of participants and however it divides them.
#[test]
fn equivocation_never_splits_the_honest_nodes() {
    for n in 4..15u8 {
        for first in 0..n {
            let outcomes = equivocate(n, first);
            let delivered: Vec<&String> = outcomes.iter().filter_map(|o| o.as_ref().ok()).collect();
            assert!(delivered.windows(2).all(|w| w[0] == w[1]));
        }
    }
}

/// Five participants divided evenly around a faulty one: neither side has enough
/// Echos, so nobody delivers.
#[test]
fn equivocation_stalls_five_participants() {
    for outcome in equivocate(5, 2) {
        assert!(matches!(outcome, Err(BroadcastError::Timeout(1))));
    }
    // with all but one on a side, that side delivers
    let outcomes = equivocate(5, 3);
    assert_eq!(outcomes[0].as_ref().unwrap(), "A");
    assert_eq!(outcomes[1].as_ref().unwrap(), "A");
    assert_eq!(outcomes[2].as_ref().unwrap(), "A");
    assert!(matches!(outcomes[3], Err(BroadcastError::Timeout(1))));
}

/// One delivery makes all the others follow, though they see too few Echos.
#[test]
fn delivery_spreads_by_readys_alone() {
    let participants: Vec<PublicKeyBytes> = (0..4).map(key).collect();
    let id = MsgLinkId::new(1);
    let (sig, hash) = sign_init(key(0), "value", &participants, id);
    let init = BroadcastRound::Init("value".to_string(), participants.clone(), sig);
    let mut net = Net::new();
    // node 3 gets its Init and the Readys of the others, and no Echo at all
    net.send_msg(key(3), &init, id, key(0));
    for p in 0..3 {
        let ready = BroadcastRound::Ready(hash, sign(key(p), READY, hash, id));
        net.send_msg(key(3), &ready, id, key(p));
    }
    net.participate(key(3), id, 1);
    net.settle();
    assert_eq!(net.sent, vec![(key(3), ECHO), (key(3), READY)]);
    assert_eq!(net.outcomes()[0].as_ref().unwrap(), "value");
}

/// Each honest node sends each kind of message once.
#[test]
fn each_phase_is_sent_once() {
    let participants: Vec<PublicKeyBytes> = (0..4).map(key).collect();
    let id = MsgLinkId::new(1);
    let mut net = Net::new();
    net.broadcast_init(key(0), &participants, "value", id, 1);
    for p in 1..4 {
        net.participate(key(p), id, 1);
    }
    net.settle();
    net.sent.sort_by_key(|(p, kind)| (p.0, *kind));
    assert_eq!(
        net.sent,
        vec![
            (key(0), INIT),
            (key(0), ECHO),
            (key(0), READY),
            (key(1), ECHO),
            (key(1), READY),
            (key(2), ECHO),
            (key(2), READY),
            (key(3), ECHO),
            (key(3), READY),
        ]
    );
}

/// Echos and Readys that overtake their Init are not lost.
#[test]
fn messages_before_init_count() {
    let participants: Vec<PublicKeyBytes> = (0..4).map(key).collect();
    let id = MsgLinkId::new(1);
    let (sig, hash) = sign_init(key(0), "value", &participants, id);
    let mut net = Net::new();
    for p in 0..3 {
        let ready = BroadcastRound::Ready(hash, sign(key(p), READY, hash, id));
        net.send_msg(key(3), &ready, id, key(p));
    }
    let init = BroadcastRound::Init("value".to_string(), participants.clone(), sig);
    net.send_msg(key(3), &init, id, key(0));
    net.participate(key(3), id, 1);
    assert_eq!(net.outcomes()[0].as_ref().unwrap(), "value");
}

/// Nor are they when invalid Inits come in between.
#[test]
fn messages_before_init_outlast_invalid_inits() {
    let participants: Vec<PublicKeyBytes> = (0..4).map(key).collect();
    let id = MsgLinkId::new(1);
    let (sig, hash) = sign_init(key(0), "value", &participants, id);
    let forged = BroadcastRound::Init("forged".to_string(), participants.clone(), sig);
    let mut net = Net::new();
    for p in 0..3 {
        let ready = BroadcastRound::Ready(hash, sign(key(p), READY, hash, id));
        net.send_msg(key(3), &ready, id, key(p));
        net.send_msg(key(3), &forged, id, key(p));
    }
    let init = BroadcastRound::Init("value".to_string(), participants.clone(), sig);
    net.send_msg(key(3), &init, id, key(0));
    net.participate(key(3), id, 1);
    assert_eq!(net.outcomes()[0].as_ref().unwrap(), "value");
}

/// All honest nodes deliver in whatever order their messages arrive.
#[test]
fn all_honest_nodes_deliver_in_any_order_of_arrival() {
    for n in 1..8u8 {
        for shift in 0..5usize {
            let participants: Vec<PublicKeyBytes> = (0..n).map(key).collect();
            let id = MsgLinkId::new(n as u128);
            let mut net = Net::new();
            net.broadcast_init(key(0), &participants, "value", id, 1);
            for p in 1..n {
                net.participate(key(p), id, 1);
            }
            let mut busy = true;
            while busy {
                busy = false;
                for at in 0..net.sessions.len() {
                    for inbox in net.inboxes.values_mut() {
                        if inbox.len() > 0 {
                            let by = (shift + at) % inbox.len();
                            inbox.rotate_left(by);
                        }
                    }
                    busy = net.turn(at) || busy;
                }
            }
            for outcome in net.outcomes() {
                assert_eq!(outcome.expect("honest node should deliver"), "value");
            }
        }
    }
}
