//! One node's part in one broadcast, from its start to its outcome.
//!
//! A [`Session`] alternates with the world outside. Its [`Stage`] says what it
//! waits for: a signature, the check of a signature, a subscription, a message.
//! Whoever runs the session does that work and reports it as an [`Event`];
//! [`ProtocolNode::advance`] then takes the session to its next stage and says
//! what is to be sent, until the stage is [`Stage::Done`].

use vstd::prelude::*;

use crate::error::BroadcastError;
use crate::identity::{HashBytes, PublicKeyBytes, SignatureBytes};
use crate::instance::{queue_state, BcastInstance, InstanceState};
use crate::message::{
    BroadcastRound, MsgLink, MsgLinkId, Outgoing, OutgoingState, RoundState,
};
use crate::node::{handling, to_others, Claim, Handling, Ignored, ProtocolNode};

verus! {

/// What a session waits for.
pub enum Stage<T> {
    /// The initiator waits for the signature on its Init message.
    SignInit { data: T, recipients: Vec<PublicKeyBytes> },
    /// The node waits for the signature on its Echo.
    SignEcho { instance: BcastInstance<T>, initiator: bool },
    /// The node waits to be subscribed to the messages of the broadcast. The
    /// initiator has an instance by then, a recipient has none.
    Subscribe { prepared: Option<BcastInstance<T>> },
    /// A recipient waits for an Init message and queues whatever else comes.
    AwaitInit { msg_queue: Vec<MsgLink<BroadcastRound<T>>> },
    /// A recipient waits for an Init message to be checked.
    VerifyInit {
        msg_queue: Vec<MsgLink<BroadcastRound<T>>>,
        sender: PublicKeyBytes,
        data: T,
        participants: Vec<PublicKeyBytes>,
        signature: SignatureBytes,
    },
    /// Queued messages are to be handled; nothing is waited for.
    Drain { instance: BcastInstance<T> },
    /// The node waits for the next message.
    Collect { instance: BcastInstance<T> },
    /// The node waits for the signature of an Echo to be checked.
    VerifyEcho { instance: BcastInstance<T>, claim: Claim },
    /// The node waits for the signature of a Ready to be checked.
    VerifyReady { instance: BcastInstance<T>, claim: Claim },
    /// The node waits for the signature on its own Ready.
    SignReady { instance: BcastInstance<T>, hash: HashBytes, msg_link_id: MsgLinkId },
    /// The session is over.
    Done { outcome: Result<T, BroadcastError> },
}

/// One node's part in one broadcast.
pub struct Session<T> {
    msg_link_id: MsgLinkId,
    timeout_secs: u64,
    stage: Stage<T>,
}

/// Something that happened outside.
pub enum Event<T> {
    /// The Init message was signed, or could not be.
    InitSigned(Result<(SignatureBytes, HashBytes), String>),
    /// The node's Echo was signed.
    EchoSigned(SignatureBytes),
    /// The node's Ready was signed.
    ReadySigned(SignatureBytes),
    /// Whether the subscription came about.
    Subscribed(bool),
    /// The Init message was checked; it has this hash if it is valid.
    InitVerified(Option<HashBytes>),
    /// Whether the signature of the Echo or Ready at hand holds.
    Verified(bool),
    /// The next message came in, or none will come any more.
    Received(Option<MsgLink<BroadcastRound<T>>>),
    /// Nothing; the session may go on.
    Continue,
    /// The time allowed for the broadcast is up.
    TimedOut,
}

/// What a step of a session asks for.
pub enum Effect<T> {
    /// Nothing.
    Quiet,
    /// This message is to be sent.
    Send(Outgoing<T>),
    /// Nothing: a message of `sender` was passed over.
    Ignored { reason: Ignored, sender: PublicKeyBytes },
}

/// The model of a [`Stage`].
#[verifier::ext_equal]
pub enum StageState<T> {
    SignInit { data: T, recipients: Seq<PublicKeyBytes> },
    SignEcho { instance: InstanceState<T>, initiator: bool },
    Subscribe { prepared: Option<InstanceState<T>> },
    AwaitInit { msg_queue: Seq<MsgLink<RoundState<T>>> },
    VerifyInit {
        msg_queue: Seq<MsgLink<RoundState<T>>>,
        sender: PublicKeyBytes,
        data: T,
        participants: Seq<PublicKeyBytes>,
        signature: SignatureBytes,
    },
    Drain { instance: InstanceState<T> },
    Collect { instance: InstanceState<T> },
    VerifyEcho { instance: InstanceState<T>, claim: Claim },
    VerifyReady { instance: InstanceState<T>, claim: Claim },
    SignReady { instance: InstanceState<T>, hash: HashBytes, msg_link_id: MsgLinkId },
    Done { outcome: Result<T, BroadcastError> },
}

/// The model of a [`Session`].
#[verifier::ext_equal]
pub struct SessionState<T> {
    pub msg_link_id: MsgLinkId,
    pub timeout_secs: u64,
    pub stage: StageState<T>,
}

/// The model of an [`Event`].
#[verifier::ext_equal]
pub enum EventState<T> {
    InitSigned(Result<(SignatureBytes, HashBytes), String>),
    EchoSigned(SignatureBytes),
    ReadySigned(SignatureBytes),
    Subscribed(bool),
    InitVerified(Option<HashBytes>),
    Verified(bool),
    Received(Option<MsgLink<RoundState<T>>>),
    Continue,
    TimedOut,
}

/// The model of an [`Effect`].
#[verifier::ext_equal]
pub enum EffectState<T> {
    Quiet,
    Send(OutgoingState<T>),
    Ignored { reason: Ignored, sender: PublicKeyBytes },
}

impl<T> View for Stage<T> {
    type V = StageState<T>;

    open spec fn view(&self) -> StageState<T> {
        match self {
            Stage::SignInit { data, recipients } => StageState::SignInit {
                data: *data,
                recipients: recipients@,
            },
            Stage::SignEcho { instance, initiator } => StageState::SignEcho {
                instance: instance@,
                initiator: *initiator,
            },
            Stage::Subscribe { prepared } => StageState::Subscribe {
                prepared: match prepared {
                    Some(i) => Some(i@),
                    None => None,
                },
            },
            Stage::AwaitInit { msg_queue } => StageState::AwaitInit {
                msg_queue: queue_state(msg_queue@),
            },
            Stage::VerifyInit { msg_queue, sender, data, participants, signature } =>
                StageState::VerifyInit {
                msg_queue: queue_state(msg_queue@),
                sender: *sender,
                data: *data,
                participants: participants@,
                signature: *signature,
            },
            Stage::Drain { instance } => StageState::Drain { instance: instance@ },
            Stage::Collect { instance } => StageState::Collect { instance: instance@ },
            Stage::VerifyEcho { instance, claim } => StageState::VerifyEcho {
                instance: instance@,
                claim: *claim,
            },
            Stage::VerifyReady { instance, claim } => StageState::VerifyReady {
                instance: instance@,
                claim: *claim,
            },
            Stage::SignReady { instance, hash, msg_link_id } => StageState::SignReady {
                instance: instance@,
                hash: *hash,
                msg_link_id: *msg_link_id,
            },
            Stage::Done { outcome } => StageState::Done { outcome: *outcome },
        }
    }
}

impl<T> View for Session<T> {
    type V = SessionState<T>;

    closed spec fn view(&self) -> SessionState<T> {
        SessionState {
            msg_link_id: self.msg_link_id,
            timeout_secs: self.timeout_secs,
            stage: self.stage@,
        }
    }
}

impl<T> View for Event<T> {
    type V = EventState<T>;

    open spec fn view(&self) -> EventState<T> {
        match self {
            Event::InitSigned(r) => EventState::InitSigned(*r),
            Event::EchoSigned(signature) => EventState::EchoSigned(*signature),
            Event::ReadySigned(signature) => EventState::ReadySigned(*signature),
            Event::Subscribed(subscribed) => EventState::Subscribed(*subscribed),
            Event::InitVerified(hash) => EventState::InitVerified(*hash),
            Event::Verified(valid) => EventState::Verified(*valid),
            Event::Received(msg) => EventState::Received(msg_state(*msg)),
            Event::Continue => EventState::Continue,
            Event::TimedOut => EventState::TimedOut,
        }
    }
}

impl<T: Clone> Effect<T> {
    /// Whether this is the effect that the model describes. It is so to the
    /// letter, but for the data in an Init message, which is a clone.
    pub open spec fn realises(self, model: EffectState<T>) -> bool {
        match (self, model) {
            (Effect::Quiet, EffectState::Quiet) => true,
            (Effect::Send(out), EffectState::Send(want)) => {
                &&& out.to@ == want.to
                &&& out.msg_link_id == want.msg_link_id
                &&& out.sender == want.sender
                &&& match (out.data, want.data) {
                    (
                        BroadcastRound::Init(data, participants, signature),
                        RoundState::Init(want_data, want_participants, want_signature),
                    ) => {
                        &&& cloned(want_data, data)
                        &&& participants@ == want_participants
                        &&& signature == want_signature
                    },
                    _ => out.data@ == want.data,
                }
            },
            (
                Effect::Ignored { reason, sender },
                EffectState::Ignored { reason: want_reason, sender: want_sender },
            ) => reason == want_reason && sender == want_sender,
            _ => false,
        }
    }
}

/// The message, if there is one, by its model.
pub open spec fn msg_state<T>(msg: Option<MsgLink<BroadcastRound<T>>>) -> Option<
    MsgLink<RoundState<T>>,
> {
    match msg {
        Some(m) => Some(m@),
        None => None,
    }
}

/// Where a node goes that has an instance and owes nothing to any message:
/// first the queued messages, then the ones that come in.
pub open spec fn resumed<T>(i: InstanceState<T>) -> StageState<T> {
    if i.msg_queue.len() > 0 {
        StageState::Drain { instance: i }
    } else {
        StageState::Collect { instance: i }
    }
}

/// Where a node goes that has sent its Echo and is subscribed: on to the
/// messages, unless its own Echo is all that it takes to send Ready.
pub open spec fn started<T>(i: InstanceState<T>, msg_link_id: MsgLinkId) -> StageState<T> {
    if i.echo_threshold_reached {
        StageState::SignReady { instance: i, hash: i.payload_hash, msg_link_id }
    } else {
        resumed(i)
    }
}

/// Where a node goes after a message: it delivers, once it can.
pub open spec fn settled<T>(i: InstanceState<T>) -> StageState<T> {
    if i.delivery_threshold_reached {
        StageState::Done { outcome: Ok(i.payload) }
    } else {
        resumed(i)
    }
}

/// What a waiting recipient makes of the next message: an Init is to be
/// checked, anything else is queued.
pub open spec fn awaited<T>(
    msg_queue: Seq<MsgLink<RoundState<T>>>,
    msg: Option<MsgLink<RoundState<T>>>,
) -> StageState<T> {
    match msg {
        None => StageState::Done { outcome: Err(BroadcastError::InitMessageNotReceived) },
        Some(m) => match m.data {
            RoundState::Init(data, participants, signature) => StageState::VerifyInit {
                msg_queue,
                sender: m.sender,
                data,
                participants,
                signature,
            },
            _ => StageState::AwaitInit { msg_queue: msg_queue.push(m) },
        },
    }
}

/// What a node with an instance makes of the next message.
pub open spec fn taken<T>(i: InstanceState<T>, msg: Option<MsgLink<RoundState<T>>>) -> (
    StageState<T>,
    EffectState<T>,
) {
    match msg {
        None => (
            StageState::Done { outcome: Err(BroadcastError::DeliveryThresholdNotMet) },
            EffectState::Quiet,
        ),
        Some(m) => match handling(i, m) {
            Handling::Ignore(reason) => (
                settled(i),
                EffectState::Ignored { reason, sender: m.sender },
            ),
            Handling::VerifyEcho(claim) => (
                StageState::VerifyEcho { instance: i, claim },
                EffectState::Quiet,
            ),
            Handling::VerifyReady(claim) => (
                StageState::VerifyReady { instance: i, claim },
                EffectState::Quiet,
            ),
        },
    }
}

/// Where a node goes once a valid Echo is counted.
pub open spec fn echo_accepted<T>(i: InstanceState<T>, claim: Claim) -> StageState<T> {
    let next = i.counted_echo(claim.hash, claim.sender);
    if next.echo_threshold_reached {
        StageState::SignReady {
            instance: next,
            hash: claim.hash,
            msg_link_id: claim.msg_link_id,
        }
    } else {
        settled(next)
    }
}

/// Where a node goes once a valid Ready is counted.
pub open spec fn ready_accepted<T>(i: InstanceState<T>, claim: Claim) -> StageState<T> {
    let next = i.counted_ready(claim.hash, claim.sender);
    if next.ready_amp_threshold_reached && !next.is_ready_msg_sent {
        StageState::SignReady {
            instance: next,
            hash: claim.hash,
            msg_link_id: claim.msg_link_id,
        }
    } else {
        settled(next)
    }
}

impl<T> SessionState<T> {
    /// The start of a session that initiates a broadcast.
    pub open spec fn initiating(
        recipients: Seq<PublicKeyBytes>,
        data: T,
        msg_link_id: MsgLinkId,
        timeout_secs: u64,
    ) -> Self {
        SessionState {
            msg_link_id,
            timeout_secs,
            stage: StageState::SignInit { data, recipients },
        }
    }

    /// The start of a session that takes part in another's broadcast.
    pub open spec fn participating(msg_link_id: MsgLinkId, timeout_secs: u64) -> Self {
        SessionState {
            msg_link_id,
            timeout_secs,
            stage: StageState::Subscribe { prepared: None },
        }
    }

    /// Whether the time allowed for the broadcast is running: from the
    /// subscription on, until the session is over.
    pub open spec fn timed(self) -> bool {
        match self.stage {
            StageState::SignInit { .. } => false,
            StageState::SignEcho { initiator, .. } => !initiator,
            StageState::Subscribe { .. } => false,
            StageState::Done { .. } => false,
            _ => true,
        }
    }

    /// Whether the session waits for a message.
    pub open spec fn listening(self) -> bool {
        self.stage is AwaitInit || self.stage is Collect
    }

    /// What every session keeps from its start on.
    pub open spec fn sound(self) -> bool {
        match self.stage {
            StageState::SignEcho { instance, initiator } => {
                &&& instance.sound()
                &&& initiator ==> instance.msg_queue.len() == 0
                &&& instance == (InstanceState {
                    msg_queue: instance.msg_queue,
                    ..InstanceState::fresh(
                        instance.payload,
                        instance.payload_hash,
                        instance.participants,
                    )
                })
            },
            StageState::Subscribe { prepared } => match prepared {
                Some(i) => i.sound() && i.msg_queue.len() == 0 && !i.is_ready_msg_sent,
                None => true,
            },
            StageState::Drain { instance } => instance.sound() && instance.msg_queue.len() > 0,
            StageState::Collect { instance } => instance.sound() && instance.msg_queue.len() == 0,
            StageState::VerifyEcho { instance, claim } => {
                &&& instance.sound()
                &&& !instance.is_ready_msg_sent
                &&& !instance.has_echo(claim.sender)
                &&& claim.hash == instance.payload_hash
            },
            StageState::VerifyReady { instance, claim } => {
                &&& instance.sound()
                &&& !instance.has_ready(claim.sender)
                &&& claim.hash == instance.payload_hash
            },
            StageState::SignReady { instance, hash, .. } => {
                &&& instance.sound()
                &&& !instance.is_ready_msg_sent
                &&& hash == instance.payload_hash
            },
            _ => true,
        }
    }

    /// Whether the event can be taken: an Init that was signed or is found valid
    /// lists at least one participant.
    pub open spec fn admits(self, event: EventState<T>) -> bool {
        match (self.stage, event) {
            (StageState::SignInit { recipients, .. }, EventState::InitSigned(Ok(_))) =>
                recipients.len() > 0,
            (
                StageState::VerifyInit { participants, .. },
                EventState::InitVerified(Some(_)),
            ) => participants.len() > 0,
            _ => true,
        }
    }

    /// The same session at another stage.
    pub open spec fn at(self, stage: StageState<T>) -> Self {
        SessionState { stage, ..self }
    }

    /// What the event does to the session of the node `me`, and what is to be
    /// done then. An event that the stage does not wait for changes nothing.
    pub open spec fn step(self, me: PublicKeyBytes, event: EventState<T>) -> (
        Self,
        EffectState<T>,
    ) {
        match (self.stage, event) {
            (
                StageState::SignInit { data, recipients },
                EventState::InitSigned(Ok((signature, hash))),
            ) => (
                self.at(
                    StageState::SignEcho {
                        instance: InstanceState::fresh(data, hash, recipients),
                        initiator: true,
                    },
                ),
                EffectState::Send(
                    to_others(
                        me,
                        recipients,
                        RoundState::Init(data, recipients, signature),
                        self.msg_link_id,
                    ),
                ),
            ),
            (StageState::SignInit { .. }, EventState::InitSigned(Err(reason))) => (
                self.at(StageState::Done { outcome: Err(BroadcastError::SigningFailed(reason)) }),
                EffectState::Quiet,
            ),
            (StageState::SignEcho { instance, initiator }, EventState::EchoSigned(signature)) => {
                let next = instance.counted_echo(instance.payload_hash, me);
                (
                    self.at(
                        if initiator {
                            StageState::Subscribe { prepared: Some(next) }
                        } else {
                            started(next, self.msg_link_id)
                        },
                    ),
                    EffectState::Send(
                        to_others(
                            me,
                            instance.participants,
                            RoundState::Echo(instance.payload_hash, signature),
                            self.msg_link_id,
                        ),
                    ),
                )
            },
            (StageState::Subscribe { .. }, EventState::Subscribed(false)) => (
                self.at(
                    StageState::Done {
                        outcome: Err(BroadcastError::SubscriptionFailed(self.msg_link_id)),
                    },
                ),
                EffectState::Quiet,
            ),
            (StageState::Subscribe { prepared: None }, EventState::Subscribed(true)) => (
                self.at(StageState::AwaitInit { msg_queue: Seq::empty() }),
                EffectState::Quiet,
            ),
            (StageState::Subscribe { prepared: Some(i) }, EventState::Subscribed(true)) => (
                self.at(started(i, self.msg_link_id)),
                EffectState::Quiet,
            ),
            (StageState::AwaitInit { msg_queue }, EventState::Received(msg)) => (
                self.at(awaited(msg_queue, msg)),
                EffectState::Quiet,
            ),
            (
                StageState::VerifyInit { msg_queue, data, participants, .. },
                EventState::InitVerified(Some(hash)),
            ) => (
                self.at(
                    StageState::SignEcho {
                        instance: InstanceState {
                            msg_queue,
                            ..InstanceState::fresh(data, hash, participants)
                        },
                        initiator: false,
                    },
                ),
                EffectState::Quiet,
            ),
            (StageState::VerifyInit { msg_queue, sender, .. }, EventState::InitVerified(None)) => (
                self.at(StageState::AwaitInit { msg_queue }),
                EffectState::Ignored { reason: Ignored::InvalidInit, sender },
            ),
            (StageState::Drain { instance }, EventState::Continue) => {
                let rest = InstanceState { msg_queue: instance.msg_queue.drop_last(), ..instance };
                let (stage, effect) = taken(rest, Some(instance.msg_queue.last()));
                (self.at(stage), effect)
            },
            (StageState::Collect { instance }, EventState::Received(msg)) => {
                let (stage, effect) = taken(instance, msg);
                (self.at(stage), effect)
            },
            (StageState::VerifyEcho { instance, claim }, EventState::Verified(valid)) => {
                if valid {
                    (self.at(echo_accepted(instance, claim)), EffectState::Quiet)
                } else {
                    (
                        self.at(settled(instance)),
                        EffectState::Ignored {
                            reason: Ignored::InvalidEcho,
                            sender: claim.sender,
                        },
                    )
                }
            },
            (StageState::VerifyReady { instance, claim }, EventState::Verified(valid)) => {
                if valid {
                    (self.at(ready_accepted(instance, claim)), EffectState::Quiet)
                } else {
                    (
                        self.at(settled(instance)),
                        EffectState::Ignored {
                            reason: Ignored::InvalidReady,
                            sender: claim.sender,
                        },
                    )
                }
            },
            (
                StageState::SignReady { instance, hash, msg_link_id },
                EventState::ReadySigned(signature),
            ) => (
                self.at(settled(instance.readied(hash, me))),
                EffectState::Send(
                    to_others(
                        me,
                        instance.participants,
                        RoundState::Ready(hash, signature),
                        msg_link_id,
                    ),
                ),
            ),
            (_, EventState::TimedOut) => if self.timed() {
                (
                    self.at(
                        StageState::Done {
                            outcome: Err(BroadcastError::Timeout(self.timeout_secs)),
                        },
                    ),
                    EffectState::Quiet,
                )
            } else {
                (self, EffectState::Quiet)
            },
            _ => (self, EffectState::Quiet),
        }
    }

    /// A sound session stays sound, whatever happens.
    pub proof fn lemma_step_sound(self, me: PublicKeyBytes, event: EventState<T>)
        requires
            self.sound(),
            self.admits(event),
        ensures
            self.step(me, event).0.sound(),
    {
        match (self.stage, event) {
            (
                StageState::SignInit { data, recipients },
                EventState::InitSigned(Ok((_, hash))),
            ) => {
                InstanceState::lemma_fresh(data, hash, recipients);
            },
            (StageState::SignEcho { instance, .. }, EventState::EchoSigned(_)) => {
                instance.lemma_counted_echo(instance.payload_hash, me);
                assert(!instance.has_echo(me));
            },
            (
                StageState::VerifyInit { data, participants, msg_queue, .. },
                EventState::InitVerified(Some(hash)),
            ) => {
                InstanceState::lemma_fresh(data, hash, participants);
                lemma_queue_keeps_sound(InstanceState::fresh(data, hash, participants), msg_queue);
            },
            (StageState::Drain { instance }, EventState::Continue) => {
                lemma_queue_keeps_sound(instance, instance.msg_queue.drop_last());
            },
            (StageState::VerifyEcho { instance, claim }, EventState::Verified(_)) => {
                instance.lemma_counted_echo(claim.hash, claim.sender);
            },
            (StageState::VerifyReady { instance, claim }, EventState::Verified(_)) => {
                instance.lemma_counted_ready(claim.hash, claim.sender);
            },
            (StageState::SignReady { instance, hash, .. }, EventState::ReadySigned(_)) => {
                instance.lemma_readied(hash, me);
            },
            _ => {},
        }
    }
}

/// The queue has no part in whether an instance is sound, nor in who was heard
/// from.
pub proof fn lemma_queue_keeps_sound<T>(i: InstanceState<T>, msg_queue: Seq<MsgLink<RoundState<T>>>)
    ensures
        i.sound() ==> (InstanceState { msg_queue, ..i }).sound(),
        (InstanceState { msg_queue, ..i }).echoers() == i.echoers(),
        (InstanceState { msg_queue, ..i }).readiers() == i.readiers(),
{
    let j = InstanceState { msg_queue, ..i };
    assert(j.echoers() =~= i.echoers());
    assert(j.readiers() =~= i.readiers());
    if i.sound() {
        assert forall|h: HashBytes| #[trigger] j.echo_tally(h) <= j.echoers().len() by {
            assert(j.echo_tally(h) == i.echo_tally(h));
        }
        assert forall|h: HashBytes| #[trigger]
            j.ready_tally(h) <= j.readiers().len() + (if j.is_ready_msg_sent {
                1nat
            } else {
                0nat
            }) by {
            assert(j.ready_tally(h) == i.ready_tally(h));
        }
    }
}

impl<T> Session<T> {
    /// What the session waits for.
    pub fn stage(&self) -> (r: &Stage<T>)
        ensures
            r@ == self@.stage,
    {
        &self.stage
    }

    /// The broadcast that the session is part of.
    pub fn msg_link_id(&self) -> (r: MsgLinkId)
        ensures
            r == self@.msg_link_id,
    {
        self.msg_link_id
    }

    /// How many seconds the broadcast may take.
    pub fn timeout_secs(&self) -> (r: u64)
        ensures
            r == self@.timeout_secs,
    {
        self.timeout_secs
    }

    /// How the session ended, if it is over.
    pub fn into_outcome(self) -> (r: Option<Result<T, BroadcastError>>)
        ensures
            r == (match self@.stage {
                StageState::Done { outcome } => Some(outcome),
                _ => None,
            }),
    {
        match self.stage {
            Stage::Done { outcome } => Some(outcome),
            _ => None,
        }
    }
}

/// On to the queued messages, or else to those that come in.
fn resume<T>(instance: BcastInstance<T>) -> (r: Stage<T>)
    ensures
        r@ == resumed(instance@),
{
    if instance.has_queued() {
        Stage::Drain { instance }
    } else {
        Stage::Collect { instance }
    }
}

/// On to the messages, unless the node's own Echo is all that it takes to send
/// Ready.
fn start<T>(instance: BcastInstance<T>, msg_link_id: MsgLinkId) -> (r: Stage<T>)
    ensures
        r@ == started(instance@, msg_link_id),
{
    if instance.echo_threshold_reached() {
        let hash = instance.payload_hash();
        Stage::SignReady { instance, hash, msg_link_id }
    } else {
        resume(instance)
    }
}

/// Delivers the payload if it can be, and goes on otherwise.
fn settle<T>(instance: BcastInstance<T>) -> (r: Stage<T>)
    ensures
        r@ == settled(instance@),
{
    if instance.delivery_threshold_reached() {
        Stage::Done { outcome: Ok(instance.into_payload()) }
    } else {
        resume(instance)
    }
}

impl<R> ProtocolNode<R> {
    /// Start a reliable broadcast and participate in it.
    pub fn broadcast_init<T>(
        &self,
        recipients: Vec<PublicKeyBytes>,
        data: T,
        msg_link_id: MsgLinkId,
        timeout_secs: u64,
    ) -> (r: Session<T>)
        ensures
            r@ == SessionState::initiating(recipients@, data, msg_link_id, timeout_secs),
            r@.msg_link_id == msg_link_id,
            r@.timeout_secs == timeout_secs,
            r@.stage == (StageState::SignInit { data, recipients: recipients@ }),
            r@.sound(),
    {
        Session { msg_link_id, timeout_secs, stage: Stage::SignInit { data, recipients } }
    }

    /// Participate as a recipient of a reliable broadcast.
    pub fn participate_in_broadcast<T>(&self, msg_link_id: MsgLinkId, timeout_secs: u64) -> (r:
        Session<T>)
        ensures
            r@ == SessionState::<T>::participating(msg_link_id, timeout_secs),
            r@.msg_link_id == msg_link_id,
            r@.timeout_secs == timeout_secs,
            r@.stage == (StageState::<T>::Subscribe { prepared: None }),
            r@.sound(),
    {
        Session { msg_link_id, timeout_secs, stage: Stage::Subscribe { prepared: None } }
    }

    /// One turn of waiting for an Init message: an Init is to be checked, and
    /// messages that arrive before it are buffered.
    pub fn wait_for_init<T>(
        &self,
        msg_queue: Vec<MsgLink<BroadcastRound<T>>>,
        msg: Option<MsgLink<BroadcastRound<T>>>,
    ) -> (r: Stage<T>)
        ensures
            r@ == awaited(queue_state(msg_queue@), msg_state(msg)),
    {
        let mut msg_queue = msg_queue;
        match msg {
            None => Stage::Done { outcome: Err(BroadcastError::InitMessageNotReceived) },
            Some(m) => {
                let sender = m.sender;
                let msg_link_id = m.msg_link_id;
                match m.data {
                    BroadcastRound::Init(data, participants, signature) => {
                        Stage::VerifyInit { msg_queue, sender, data, participants, signature }
                    },
                    data => {
                        let ghost before = msg_queue@;
                        let early = MsgLink { sender, msg_link_id, data };
                        msg_queue.push(early);
                        assert(queue_state(msg_queue@) =~= queue_state(before).push(early@));
                        Stage::AwaitInit { msg_queue }
                    },
                }
            },
        }
    }

    /// One turn of collecting Echos and Readys: decides what is to be done about
    /// the message, or gives up when no more will come.
    pub fn participate_in_broadcast_inner<T: Clone>(
        &self,
        instance: BcastInstance<T>,
        msg: Option<MsgLink<BroadcastRound<T>>>,
    ) -> (r: (Stage<T>, Effect<T>))
        ensures
            r.0@ == taken(instance@, msg_state(msg)).0,
            r.1.realises(taken(instance@, msg_state(msg)).1),
    {
        match msg {
            None => (
                Stage::Done { outcome: Err(BroadcastError::DeliveryThresholdNotMet) },
                Effect::Quiet,
            ),
            Some(m) => match self.handle_message(&m, &instance) {
                Handling::Ignore(reason) => (
                    settle(instance),
                    Effect::Ignored { reason, sender: m.sender },
                ),
                Handling::VerifyEcho(claim) => (
                    Stage::VerifyEcho { instance, claim },
                    Effect::Quiet,
                ),
                Handling::VerifyReady(claim) => (
                    Stage::VerifyReady { instance, claim },
                    Effect::Quiet,
                ),
            },
        }
    }

    /// Counts an Echo whose signature holds; enough of them make the node ready.
    pub fn accept_echo<T>(&self, instance: BcastInstance<T>, claim: Claim) -> (r: Stage<T>)
        requires
            instance@.n() > 0,
            instance@.echo_tally(claim.hash) < u128::MAX,
        ensures
            r@ == echo_accepted(instance@, claim),
    {
        let mut instance = instance;
        instance.count_echo(claim.hash, claim.sender);
        if instance.echo_threshold_reached() {
            Stage::SignReady { instance, hash: claim.hash, msg_link_id: claim.msg_link_id }
        } else {
            settle(instance)
        }
    }

    /// Counts a Ready whose signature holds; enough of them make the node ready,
    /// if it is not yet.
    pub fn accept_ready<T>(&self, instance: BcastInstance<T>, claim: Claim) -> (r: Stage<T>)
        requires
            instance@.n() > 0,
            instance@.ready_tally(claim.hash) < u128::MAX,
        ensures
            r@ == ready_accepted(instance@, claim),
    {
        let mut instance = instance;
        instance.count_ready(claim.hash, claim.sender);
        // Ready amplification: if we see f+1 Readys, we send our own
        if instance.ready_amp_threshold_reached() && !instance.is_ready_msg_sent() {
            Stage::SignReady { instance, hash: claim.hash, msg_link_id: claim.msg_link_id }
        } else {
            settle(instance)
        }
    }

    /// Takes the session to its next stage, given what happened outside, and
    /// says what is to be done then.
    pub fn advance<T: Clone>(&self, session: Session<T>, event: Event<T>) -> (r: (
        Session<T>,
        Effect<T>,
    ))
        requires
            session@.sound(),
            session@.admits(event@),
        ensures
            r.0@ == session@.step(self.key(), event@).0,
            r.0@.sound(),
            r.1.realises(session@.step(self.key(), event@).1),
            // the session stays the one that was started
            r.0@.msg_link_id == session@.msg_link_id,
            r.0@.timeout_secs == session@.timeout_secs,
            // whatever is sent is sent by this node, under the signature handed over
            r.1 matches Effect::Send(out) ==> out.sender == self.key() && match out.data {
                BroadcastRound::Init(_, _, t) => event matches Event::InitSigned(Ok((s, _)))
                    && s == t,
                BroadcastRound::Echo(_, t) => event matches Event::EchoSigned(s) && s == t,
                BroadcastRound::Ready(_, t) => event matches Event::ReadySigned(s) && s == t,
            },
    {
        proof {
            session@.lemma_step_sound(self.key(), event@);
        }
        let Session { msg_link_id, timeout_secs, stage } = session;
        let (stage, effect) = match (stage, event) {
            (Stage::SignInit { data, recipients }, Event::InitSigned(signed)) => match signed {
                Ok((signature, hash)) => {
                    let out = Outgoing {
                        to: self.others(&recipients),
                        msg_link_id,
                        sender: *self.public_key(),
                        data: BroadcastRound::Init(data.clone(), recipients.clone(), signature),
                    };
                    // As initiator, we skip waiting for Init and immediately send Echo
                    let instance = BcastInstance::new(data, hash, recipients);
                    (Stage::SignEcho { instance, initiator: true }, Effect::Send(out))
                },
                Err(reason) => (
                    Stage::Done { outcome: Err(BroadcastError::SigningFailed(reason)) },
                    Effect::Quiet,
                ),
            },
            (Stage::SignEcho { instance, initiator }, Event::EchoSigned(signature)) => {
                let mut instance = instance;
                let hash = instance.payload_hash();
                let out = self.send_echo(&mut instance, hash, msg_link_id, signature);
                if initiator {
                    (Stage::Subscribe { prepared: Some(instance) }, Effect::Send(out))
                } else {
                    (start(instance, msg_link_id), Effect::Send(out))
                }
            },
            (Stage::Subscribe { prepared }, Event::Subscribed(subscribed)) => if !subscribed {
                (
                    Stage::Done { outcome: Err(BroadcastError::SubscriptionFailed(msg_link_id)) },
                    Effect::Quiet,
                )
            } else {
                match prepared {
                    Some(instance) => (start(instance, msg_link_id), Effect::Quiet),
                    None => (Stage::AwaitInit { msg_queue: Vec::new() }, Effect::Quiet),
                }
            },
            (Stage::AwaitInit { msg_queue }, Event::Received(msg)) => (
                self.wait_for_init(msg_queue, msg),
                Effect::Quiet,
            ),
            (
                Stage::VerifyInit { msg_queue, sender, data, participants, signature: _ },
                Event::InitVerified(verified),
            ) => match verified {
                Some(hash) => {
                    let mut instance = BcastInstance::new(data, hash, participants);
                    instance.set_msg_queue(msg_queue);
                    (Stage::SignEcho { instance, initiator: false }, Effect::Quiet)
                },
                None => (
                    Stage::AwaitInit { msg_queue },
                    Effect::Ignored { reason: Ignored::InvalidInit, sender },
                ),
            },
            (Stage::Drain { instance }, Event::Continue) => {
                // Process any messages that arrived before Init (they were buffered)
                let mut instance = instance;
                let msg = instance.pop_queued();
                self.participate_in_broadcast_inner(instance, msg)
            },
            (Stage::Collect { instance }, Event::Received(msg)) => {
                // Process incoming messages until we reach delivery threshold
                self.participate_in_broadcast_inner(instance, msg)
            },
            (Stage::VerifyEcho { instance, claim }, Event::Verified(valid)) => if valid {
                proof {
                    instance.lemma_room();
                }
                (self.accept_echo(instance, claim), Effect::Quiet)
            } else {
                (
                    settle(instance),
                    Effect::Ignored { reason: Ignored::InvalidEcho, sender: claim.sender },
                )
            },
            (Stage::VerifyReady { instance, claim }, Event::Verified(valid)) => if valid {
                proof {
                    instance.lemma_room();
                }
                (self.accept_ready(instance, claim), Effect::Quiet)
            } else {
                (
                    settle(instance),
                    Effect::Ignored { reason: Ignored::InvalidReady, sender: claim.sender },
                )
            },
            (
                Stage::SignReady { instance, hash, msg_link_id: of_claim },
                Event::ReadySigned(signature),
            ) => {
                let mut instance = instance;
                proof {
                    instance.lemma_room();
                }
                let out = self.send_ready(&mut instance, hash, of_claim, signature);
                (settle(instance), Effect::Send(out))
            },
            (stage, Event::TimedOut) => {
                let timed = match &stage {
                    Stage::SignInit { .. } => false,
                    Stage::SignEcho { instance: _, initiator } => !*initiator,
                    Stage::Subscribe { .. } => false,
                    Stage::Done { .. } => false,
                    _ => true,
                };
                if timed {
                    (
                        Stage::Done { outcome: Err(BroadcastError::Timeout(timeout_secs)) },
                        Effect::Quiet,
                    )
                } else {
                    (stage, Effect::Quiet)
                }
            },
            (stage, _) => (stage, Effect::Quiet),
        };
        (Session { msg_link_id, timeout_secs, stage }, effect)
    }
}

} // verus!
