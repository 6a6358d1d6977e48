//! The parts of the protocol, one at a time.

use reliable_broadcast::error::BroadcastError;
use reliable_broadcast::identity::{HashBytes, Key, PublicKeyBytes, SignatureBytes};
use reliable_broadcast::instance::BcastInstance;
use reliable_broadcast::message::{BroadcastRound, MsgLink, MsgLinkId};
use reliable_broadcast::node::{Claim, Handling, Ignored, ProtocolNode};
use reliable_broadcast::session::{Effect, Event, Session, Stage};
use reliable_broadcast::table::Table;

const SIG: SignatureBytes = SignatureBytes([7; 64]);
const HASH: HashBytes = HashBytes([1; 32]);
const OTHER_HASH: HashBytes = HashBytes([2; 32]);
const ID: MsgLinkId = MsgLinkId(42);

fn key(i: u8) -> PublicKeyBytes {
    PublicKeyBytes([i; 32])
}

fn keys(n: u8) -> Vec<PublicKeyBytes> {
    (0..n).map(key).collect()
}

fn node(i: u8) -> ProtocolNode<()> {
    ProtocolNode::new((), key(i))
}

fn msg(sender: u8, data: BroadcastRound<u32>) -> MsgLink<BroadcastRound<u32>> {
    MsgLink { sender: key(sender), msg_link_id: ID, data }
}

fn echo(sender: u8) -> MsgLink<BroadcastRound<u32>> {
    msg(sender, BroadcastRound::Echo(HASH, SIG))
}

fn ready(sender: u8) -> MsgLink<BroadcastRound<u32>> {
    msg(sender, BroadcastRound::Ready(HASH, SIG))
}

fn step(me: &ProtocolNode<()>, s: Session<u32>, e: Event<u32>) -> Session<u32> {
    me.advance(s, e).0
}

/// A recipient among `n` participants that has sent its Echo, after the messages
/// `early` came in before Init.
fn recipient(
    me: &ProtocolNode<()>,
    n: u8,
    early: Vec<MsgLink<BroadcastRound<u32>>>,
) -> Session<u32> {
    let mut s = me.participate_in_broadcast(ID, 9);
    s = step(me, s, Event::Subscribed(true));
    for m in early {
        s = step(me, s, Event::Received(Some(m)));
    }
    s = step(me, s, Event::Received(Some(msg(0, BroadcastRound::Init(5, keys(n), SIG)))));
    s = step(me, s, Event::InitVerified(Some(HASH)));
    step(me, s, Event::EchoSigned(SIG))
}

fn ignored(e: Effect<u32>) -> Option<(Ignored, PublicKeyBytes)> {
    match e {
        Effect::Ignored { reason, sender } => Some((reason, sender)),
        _ => None,
    }
}

#[test]
fn keys_and_hashes_compare_by_all_bytes() {
    let mut last = [3u8; 32];
    last[31] = 4;
    let mut first = [3u8; 32];
    first[0] = 4;
    assert!(PublicKeyBytes([3; 32]) == key(3));
    assert!(PublicKeyBytes(last) != key(3));
    assert!(PublicKeyBytes(first) != key(3));
    assert!(HashBytes([3; 32]) == HashBytes([3; 32]));
    assert!(HashBytes(last) != HashBytes([3; 32]));
    assert!(key(1).same(&key(1)));
    assert!(!HASH.same(&OTHER_HASH));
}

#[test]
fn table_binds_and_rebinds() {
    let mut t: Table<PublicKeyBytes, u8> = Table::new();
    assert_eq!(t.get(key(1)), None);
    t.insert(key(1), 10);
    t.insert(key(2), 20);
    assert_eq!(t.get(key(1)), Some(10));
    t.insert(key(1), 11);
    assert_eq!(t.get(key(1)), Some(11));
    assert_eq!(t.get(key(2)), Some(20));
    assert_eq!(t.get(key(3)), None);
}

#[test]
fn thresholds_by_number_of_participants() {
    // participants, Echos to be ready, Readys to amplify, Readys to deliver
    let expected = [
        (1, 1, 1, 1),
        (2, 2, 1, 1),
        (3, 2, 1, 1),
        (4, 3, 2, 3),
        (5, 4, 2, 3),
        (6, 4, 2, 3),
        (7, 5, 3, 5),
        (8, 6, 3, 5),
        (9, 6, 3, 5),
        (10, 7, 4, 7),
        (11, 8, 4, 7),
        (100, 67, 34, 67),
    ];
    for (n, echos, amp, delivery) in expected {
        let i = BcastInstance::new((), HASH, keys(n));
        assert_eq!(i.echo_to_ready_threshold(), echos);
        assert_eq!(i.ready_amp_threshold(), amp);
        assert_eq!(i.delivery_threshold(), delivery);
    }
}

#[test]
fn senders_are_remembered_by_kind() {
    let mut i = BcastInstance::new((), HASH, keys(4));
    assert!(!i.has_sent_echo(key(1)) && !i.has_sent_ready(key(1)));
    i.sent_echo(key(1));
    assert!(i.has_sent_echo(key(1)) && !i.has_sent_ready(key(1)));
    i.sent_ready(key(1));
    assert!(i.has_sent_echo(key(1)) && i.has_sent_ready(key(1)));
    i.sent_ready(key(2));
    assert!(!i.has_sent_echo(key(2)) && i.has_sent_ready(key(2)));
    assert!(!i.has_sent_echo(key(3)) && !i.has_sent_ready(key(3)));
}

#[test]
fn echos_are_counted_by_hash() {
    let mut i = BcastInstance::new((), HASH, keys(4));
    i.count_echo(HASH, key(0));
    i.count_echo(OTHER_HASH, key(1));
    i.count_echo(HASH, key(2));
    assert!(!i.echo_threshold_reached());
    i.count_echo(HASH, key(3));
    assert!(i.echo_threshold_reached());
    assert!(i.has_sent_echo(key(1)));
    // what was reached stays reached
    i.count_echo(OTHER_HASH, key(4));
    assert!(i.echo_threshold_reached());
}

#[test]
fn readys_reach_amplification_then_delivery() {
    let mut i = BcastInstance::new((), HASH, keys(4));
    i.count_ready(HASH, key(0));
    i.count_ready(OTHER_HASH, key(1));
    assert!(!i.ready_amp_threshold_reached());
    i.count_ready(HASH, key(2));
    assert!(i.ready_amp_threshold_reached() && !i.delivery_threshold_reached());
    i.count_ready(HASH, key(3));
    assert!(i.delivery_threshold_reached());
}

#[test]
fn node_gives_back_key_and_registry() {
    let n = ProtocolNode::new("registry", key(3));
    assert_eq!(*n.public_key(), key(3));
    assert_eq!(*n.registry(), "registry");
}

#[test]
fn messages_go_to_the_others_in_order() {
    assert_eq!(node(1).others(&keys(4)), vec![key(0), key(2), key(3)]);
    assert_eq!(node(9).others(&keys(3)), keys(3));
    assert_eq!(node(1).others(&vec![key(1), key(1)]), vec![]);
    assert_eq!(node(1).others(&vec![key(2), key(1), key(2)]), vec![key(2), key(2)]);
}

#[test]
fn echo_and_ready_of_the_node_are_counted_when_sent() {
    let me = node(1);
    let mut i: BcastInstance<u32> = BcastInstance::new(5, HASH, keys(4));
    let out = me.send_echo(&mut i, HASH, ID, SIG);
    assert_eq!(out.to, vec![key(0), key(2), key(3)]);
    assert_eq!(out.sender, key(1));
    assert_eq!(out.msg_link_id, ID);
    assert!(matches!(out.data, BroadcastRound::Echo(h, s) if h == HASH && s == SIG));
    assert!(i.has_sent_echo(key(1)) && !i.is_ready_msg_sent());

    let out = me.send_ready(&mut i, HASH, ID, SIG);
    assert_eq!(out.to, vec![key(0), key(2), key(3)]);
    assert!(matches!(out.data, BroadcastRound::Ready(h, s) if h == HASH && s == SIG));
    assert!(i.has_sent_ready(key(1)) && i.is_ready_msg_sent());
}

#[test]
fn messages_are_sorted_out_before_signatures_are_checked() {
    let me = node(1);
    let mut i: BcastInstance<u32> = BcastInstance::new(5, HASH, keys(4));
    i.count_echo(HASH, key(2));
    i.count_ready(HASH, key(3));

    let init = msg(0, BroadcastRound::Init(5, keys(4), SIG));
    assert!(matches!(me.handle_message(&init, &i), Handling::Ignore(Ignored::RepeatedInit)));

    let stray = msg(0, BroadcastRound::Echo(OTHER_HASH, SIG));
    assert!(matches!(me.handle_message(&stray, &i), Handling::Ignore(Ignored::EchoHashMismatch)));
    assert!(matches!(me.handle_message(&echo(2), &i), Handling::Ignore(Ignored::DuplicateEcho)));
    match me.handle_message(&echo(3), &i) {
        Handling::VerifyEcho(c) => {
            assert_eq!(c.sender, key(3));
            assert_eq!(c.hash, HASH);
            assert_eq!(c.msg_link_id, ID);
            assert_eq!(c.signature, SIG);
        }
        other => panic!("unexpected {:?}", other),
    }

    let stray = msg(0, BroadcastRound::Ready(OTHER_HASH, SIG));
    assert!(matches!(me.handle_message(&stray, &i), Handling::Ignore(Ignored::ReadyHashMismatch)));
    assert!(matches!(me.handle_message(&ready(3), &i), Handling::Ignore(Ignored::DuplicateReady)));
    assert!(matches!(me.handle_message(&ready(2), &i), Handling::VerifyReady(_)));

    me.send_ready(&mut i, HASH, ID, SIG);
    assert!(matches!(me.handle_message(&echo(3), &i), Handling::Ignore(Ignored::ReadyAlreadySent)));
    assert!(matches!(me.handle_message(&ready(2), &i), Handling::VerifyReady(_)));
}

#[test]
fn init_that_cannot_be_signed_ends_the_session() {
    let me = node(0);
    // whoever the recipients are, none included
    for n in [0, 1, 4] {
        let s = me.broadcast_init(keys(n), 5, ID, 9);
        let (s, effect) = me.advance(s, Event::InitSigned(Err("no key".to_string())));
        assert!(matches!(effect, Effect::Quiet));
        match s.into_outcome() {
            Some(Err(BroadcastError::SigningFailed(reason))) => assert_eq!(reason, "no key"),
            other => panic!("unexpected {:?}", other),
        }
    }
}

#[test]
fn initiator_sends_init_then_echo_then_subscribes() {
    let me = node(0);
    let s = me.broadcast_init(keys(4), 5, ID, 9);
    assert_eq!(s.msg_link_id(), ID);
    assert_eq!(s.timeout_secs(), 9);
    let (s, effect) = me.advance(s, Event::InitSigned(Ok((SIG, HASH))));
    match effect {
        Effect::Send(out) => {
            assert_eq!(out.to, vec![key(1), key(2), key(3)]);
            assert_eq!(out.sender, key(0));
            match out.data {
                BroadcastRound::Init(data, participants, sig) => {
                    assert_eq!(data, 5);
                    assert_eq!(participants, keys(4));
                    assert_eq!(sig, SIG);
                }
                other => panic!("unexpected {:?}", other),
            }
        }
        _ => panic!("Init should be sent"),
    }
    let (s, effect) = me.advance(s, Event::EchoSigned(SIG));
    assert!(matches!(effect, Effect::Send(out) if matches!(out.data, BroadcastRound::Echo(h, _) if h == HASH)));
    assert!(matches!(s.stage(), Stage::Subscribe { prepared: Some(_) }));
    let s = step(&me, s, Event::Subscribed(false));
    assert!(matches!(s.into_outcome(), Some(Err(BroadcastError::SubscriptionFailed(ID)))));
}

#[test]
fn recipient_that_cannot_subscribe_fails() {
    let me = node(1);
    let s: Session<u32> = me.participate_in_broadcast(ID, 9);
    let s = step(&me, s, Event::Subscribed(false));
    assert!(matches!(s.into_outcome(), Some(Err(BroadcastError::SubscriptionFailed(ID)))));
}

#[test]
fn closed_channel_before_init() {
    let me = node(1);
    let s: Session<u32> = me.participate_in_broadcast(ID, 9);
    let s = step(&me, s, Event::Subscribed(true));
    let s = step(&me, s, Event::Received(None));
    assert!(matches!(s.into_outcome(), Some(Err(BroadcastError::InitMessageNotReceived))));
}

#[test]
fn closed_channel_before_delivery() {
    let me = node(1);
    let s = recipient(&me, 4, vec![]);
    let s = step(&me, s, Event::Received(None));
    assert!(matches!(s.into_outcome(), Some(Err(BroadcastError::DeliveryThresholdNotMet))));
}

#[test]
fn time_runs_only_from_the_subscription_on() {
    let me = node(0);
    let s = step(&me, me.broadcast_init(keys(4), 5, ID, 9), Event::TimedOut);
    assert!(matches!(s.stage(), Stage::SignInit { .. }));
    let s = step(&me, s, Event::InitSigned(Ok((SIG, HASH))));
    let s = step(&me, s, Event::TimedOut);
    assert!(matches!(s.stage(), Stage::SignEcho { .. }));
    let s = step(&me, s, Event::EchoSigned(SIG));
    let s = step(&me, s, Event::TimedOut);
    assert!(matches!(s.stage(), Stage::Subscribe { .. }));
    let s = step(&me, s, Event::Subscribed(true));
    let s = step(&me, s, Event::TimedOut);
    assert!(matches!(s.into_outcome(), Some(Err(BroadcastError::Timeout(9)))));
}

#[test]
fn invalid_init_is_passed_over() {
    let me = node(1);
    let s: Session<u32> = me.participate_in_broadcast(ID, 9);
    let s = step(&me, s, Event::Subscribed(true));
    let s = step(&me, s, Event::Received(Some(echo(2))));
    let s = step(&me, s, Event::Received(Some(msg(0, BroadcastRound::Init(6, keys(4), SIG)))));
    let (s, effect) = me.advance(s, Event::InitVerified(None));
    assert_eq!(ignored(effect), Some((Ignored::InvalidInit, key(0))));
    // what came before is still there
    match s.stage() {
        Stage::AwaitInit { msg_queue } => {
            assert_eq!(msg_queue.len(), 1);
            assert_eq!(msg_queue[0].sender, key(2));
        }
        _ => panic!("should still wait for Init"),
    }
}

#[test]
fn queued_messages_are_handled_last_first() {
    let me = node(1);
    let s = recipient(&me, 7, vec![echo(2), ready(3), echo(4)]);
    let s = step(&me, s, Event::Continue);
    match s.stage() {
        Stage::VerifyEcho { claim, .. } => assert_eq!(claim.sender, key(4)),
        _ => panic!("the last message comes first"),
    }
    let s = step(&me, s, Event::Verified(true));
    let s = step(&me, s, Event::Continue);
    match s.stage() {
        Stage::VerifyReady { claim, .. } => assert_eq!(claim.sender, key(3)),
        _ => panic!("then the one before it"),
    }
    let s = step(&me, s, Event::Verified(true));
    let s = step(&me, s, Event::Continue);
    match s.stage() {
        Stage::VerifyEcho { claim, .. } => assert_eq!(claim.sender, key(2)),
        _ => panic!("and the first one last"),
    }
    let s = step(&me, s, Event::Verified(true));
    assert!(matches!(s.stage(), Stage::Collect { .. }));
}

#[test]
fn enough_echos_make_a_node_ready() {
    let me = node(1);
    let s = recipient(&me, 4, vec![]);
    let s = step(&me, s, Event::Received(Some(echo(2))));
    let s = step(&me, s, Event::Verified(true));
    assert!(matches!(s.stage(), Stage::Collect { .. }));
    let s = step(&me, s, Event::Received(Some(echo(3))));
    let s = step(&me, s, Event::Verified(true));
    assert!(matches!(s.stage(), Stage::SignReady { .. }));
    let (s, effect) = me.advance(s, Event::ReadySigned(SIG));
    assert!(matches!(effect, Effect::Send(out) if matches!(out.data, BroadcastRound::Ready(h, _) if h == HASH)));
    // its own Ready and two more are enough to deliver
    let s = step(&me, s, Event::Received(Some(ready(2))));
    let s = step(&me, s, Event::Verified(true));
    assert!(matches!(s.stage(), Stage::Collect { .. }));
    let s = step(&me, s, Event::Received(Some(ready(3))));
    let s = step(&me, s, Event::Verified(true));
    assert!(matches!(s.into_outcome(), Some(Ok(5))));
}

#[test]
fn enough_readys_make_a_node_ready() {
    let me = node(1);
    let s = recipient(&me, 4, vec![]);
    let s = step(&me, s, Event::Received(Some(ready(2))));
    let s = step(&me, s, Event::Verified(true));
    assert!(matches!(s.stage(), Stage::Collect { .. }));
    let s = step(&me, s, Event::Received(Some(ready(3))));
    let s = step(&me, s, Event::Verified(true));
    assert!(matches!(s.stage(), Stage::SignReady { .. }));
    let s = step(&me, s, Event::ReadySigned(SIG));
    assert!(matches!(s.into_outcome(), Some(Ok(5))));
}

#[test]
fn invalid_signatures_do_not_count() {
    let me = node(1);
    let s = recipient(&me, 4, vec![]);
    let s = step(&me, s, Event::Received(Some(echo(2))));
    let (s, effect) = me.advance(s, Event::Verified(false));
    assert_eq!(ignored(effect), Some((Ignored::InvalidEcho, key(2))));
    let s = step(&me, s, Event::Received(Some(ready(2))));
    let (s, effect) = me.advance(s, Event::Verified(false));
    assert_eq!(ignored(effect), Some((Ignored::InvalidReady, key(2))));
    match s.stage() {
        Stage::Collect { instance } => {
            assert!(!instance.has_sent_echo(key(2)) && !instance.has_sent_ready(key(2)));
        }
        _ => panic!("should wait for messages"),
    }
    // a valid one of the same sender still does
    let s = step(&me, s, Event::Received(Some(echo(2))));
    let s = step(&me, s, Event::Verified(true));
    let (_, effect) = me.advance(s, Event::Received(Some(echo(2))));
    assert_eq!(ignored(effect), Some((Ignored::DuplicateEcho, key(2))));
}

#[test]
fn outcome_is_final_and_stray_events_change_nothing() {
    let me = node(1);
    let s = recipient(&me, 4, vec![]);
    let (s, effect) = me.advance(s, Event::EchoSigned(SIG));
    assert!(matches!(s.stage(), Stage::Collect { .. }));
    assert!(matches!(effect, Effect::Quiet));
    let s = step(&me, s, Event::TimedOut);
    let s = step(&me, s, Event::Received(Some(ready(2))));
    let s = step(&me, s, Event::Received(None));
    assert!(matches!(s.into_outcome(), Some(Err(BroadcastError::Timeout(9)))));

    let s = recipient(&me, 4, vec![]);
    assert!(s.into_outcome().is_none());
}

/// As many faulty nodes as are allowed for cannot make an honest one ready.
#[test]
fn faulty_nodes_alone_make_nobody_ready() {
    let me = node(1);
    let mut s = recipient(&me, 7, vec![]);
    for m in [echo(5), echo(6), ready(5), ready(6)] {
        s = step(&me, s, Event::Received(Some(m)));
        s = step(&me, s, Event::Verified(true));
        assert!(matches!(s.stage(), Stage::Collect { .. }));
    }
    // one honest Ready tips the balance
    s = step(&me, s, Event::Received(Some(ready(2))));
    s = step(&me, s, Event::Verified(true));
    assert!(matches!(s.stage(), Stage::SignReady { .. }));
}

#[test]
fn messages_that_arrived_are_counted_in_the_end() {
    let me = node(1);
    // what was queued, what is refused and what comes later do not get in each
    // other's way
    let s = recipient(&me, 7, vec![echo(2), ready(3)]);
    let s = step(&me, s, Event::Continue);
    let s = step(&me, s, Event::Verified(false));
    let s = step(&me, s, Event::Continue);
    let s = step(&me, s, Event::Verified(true));
    let s = step(&me, s, Event::Received(Some(ready(4))));
    let s = step(&me, s, Event::Verified(true));
    match s.stage() {
        Stage::Collect { instance } => {
            assert!(instance.has_sent_echo(key(2)));
            assert!(!instance.has_sent_ready(key(3)));
            assert!(instance.has_sent_ready(key(4)));
        }
        _ => panic!("should wait for messages"),
    }
}

#[test]
fn accepted_claims_are_counted_whoever_was_heard_from() {
    let me = node(1);
    let claim = Claim { sender: key(2), hash: HASH, msg_link_id: ID, signature: SIG };
    let mut instance: BcastInstance<u32> = BcastInstance::new(5, HASH, keys(4));
    instance.count_echo(HASH, key(2));
    instance.count_echo(HASH, key(2));
    match me.accept_echo(instance, claim) {
        Stage::SignReady { instance, hash, msg_link_id } => {
            assert!(instance.echo_threshold_reached() && instance.has_sent_echo(key(2)));
            assert_eq!(hash, HASH);
            assert_eq!(msg_link_id, ID);
        }
        _ => panic!("three Echos are enough"),
    }
    let mut instance: BcastInstance<u32> = BcastInstance::new(5, HASH, keys(4));
    instance.count_ready(HASH, key(2));
    match me.accept_ready(instance, claim) {
        Stage::SignReady { instance, hash, msg_link_id } => {
            assert!(instance.ready_amp_threshold_reached() && instance.has_sent_ready(key(2)));
            assert_eq!(hash, HASH);
            assert_eq!(msg_link_id, ID);
        }
        _ => panic!("two Readys are enough"),
    }
}
