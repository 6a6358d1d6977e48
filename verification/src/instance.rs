//! What one node knows about one broadcast: whom it has heard from, how often
//! each hash was echoed and readied, and which thresholds were reached.

use vstd::prelude::*;

use crate::identity::{HashBytes, PublicKeyBytes};
use crate::message::{BroadcastRound, MsgLink, RoundState};
use crate::quorum::{amplification_quorum, delivery_quorum, echo_quorum};
use crate::table::Table;

verus! {

/// The model of a [`BcastInstance`].
#[verifier::ext_equal]
pub struct InstanceState<T> {
    /// How many Echos were counted for each hash.
    pub hash_echo_count: Map<HashBytes, nat>,
    /// How many Readys were counted for each hash.
    pub hash_ready_count: Map<HashBytes, nat>,
    /// Who was heard from: whether an Echo and whether a Ready was counted.
    pub senders: Map<PublicKeyBytes, (bool, bool)>,
    pub is_ready_msg_sent: bool,
    pub echo_threshold_reached: bool,
    pub ready_amp_threshold_reached: bool,
    pub delivery_threshold_reached: bool,
    pub participants: Seq<PublicKeyBytes>,
    /// Messages that came in before Init; the last one is handled first.
    pub msg_queue: Seq<MsgLink<RoundState<T>>>,
    pub payload: T,
    pub payload_hash: HashBytes,
}

impl<T> InstanceState<T> {
    /// An instance that has heard from nobody.
    pub open spec fn fresh(
        payload: T,
        payload_hash: HashBytes,
        participants: Seq<PublicKeyBytes>,
    ) -> Self {
        InstanceState {
            hash_echo_count: Map::empty(),
            hash_ready_count: Map::empty(),
            senders: Map::empty(),
            is_ready_msg_sent: false,
            echo_threshold_reached: false,
            ready_amp_threshold_reached: false,
            delivery_threshold_reached: false,
            participants,
            msg_queue: Seq::empty(),
            payload,
            payload_hash,
        }
    }

    /// How many participants there are.
    pub open spec fn n(self) -> nat {
        self.participants.len()
    }

    /// How many Echos were counted for `hash`.
    pub open spec fn echo_tally(self, hash: HashBytes) -> nat {
        if self.hash_echo_count.contains_key(hash) {
            self.hash_echo_count[hash]
        } else {
            0
        }
    }

    /// How many Readys were counted for `hash`.
    pub open spec fn ready_tally(self, hash: HashBytes) -> nat {
        if self.hash_ready_count.contains_key(hash) {
            self.hash_ready_count[hash]
        } else {
            0
        }
    }

    /// Whether an Echo of `pubkey` was counted.
    pub open spec fn has_echo(self, pubkey: PublicKeyBytes) -> bool {
        self.senders.contains_key(pubkey) && self.senders[pubkey].0
    }

    /// Whether a Ready of `pubkey` was counted.
    pub open spec fn has_ready(self, pubkey: PublicKeyBytes) -> bool {
        self.senders.contains_key(pubkey) && self.senders[pubkey].1
    }

    /// Those whose Echo was counted.
    pub open spec fn echoers(self) -> Set<PublicKeyBytes> {
        Set::new(|p: PublicKeyBytes| self.has_echo(p))
    }

    /// Those whose Ready was counted.
    pub open spec fn readiers(self) -> Set<PublicKeyBytes> {
        Set::new(|p: PublicKeyBytes| self.has_ready(p))
    }

    /// The instance with `pubkey` marked as having sent an Echo.
    pub open spec fn marked_echo(self, pubkey: PublicKeyBytes) -> Self {
        InstanceState {
            senders: self.senders.insert(pubkey, (true, self.has_ready(pubkey))),
            ..self
        }
    }

    /// The instance with `pubkey` marked as having sent a Ready.
    pub open spec fn marked_ready(self, pubkey: PublicKeyBytes) -> Self {
        InstanceState {
            senders: self.senders.insert(pubkey, (self.has_echo(pubkey), true)),
            ..self
        }
    }

    /// The instance once an Echo of `sender` for `hash` is counted.
    pub open spec fn counted_echo(self, hash: HashBytes, sender: PublicKeyBytes) -> Self {
        let tally = self.echo_tally(hash) + 1;
        InstanceState {
            hash_echo_count: self.hash_echo_count.insert(hash, tally),
            echo_threshold_reached: self.echo_threshold_reached || tally >= echo_quorum(self.n()),
            ..self.marked_echo(sender)
        }
    }

    /// The instance once a Ready of `sender` for `hash` is counted.
    pub open spec fn counted_ready(self, hash: HashBytes, sender: PublicKeyBytes) -> Self {
        let tally = self.ready_tally(hash) + 1;
        InstanceState {
            hash_ready_count: self.hash_ready_count.insert(hash, tally),
            ready_amp_threshold_reached: self.ready_amp_threshold_reached || tally
                >= amplification_quorum(self.n()),
            delivery_threshold_reached: self.delivery_threshold_reached || tally >= delivery_quorum(
                self.n(),
            ),
            ..self.marked_ready(sender)
        }
    }

    /// The instance once the node `me` has sent, and counted, its own Ready.
    pub open spec fn readied(self, hash: HashBytes, me: PublicKeyBytes) -> Self {
        InstanceState { is_ready_msg_sent: true, ..self.counted_ready(hash, me) }
    }

    /// The counters never run ahead of the senders: no hash has more Echos than
    /// there are senders of Echos, nor more Readys than there are senders of
    /// Readys, but for the node's own Ready, which is counted when it is sent
    /// whether or not one under the node's key was counted before.
    pub open spec fn sound(self) -> bool {
        &&& self.participants.len() > 0
        &&& self.senders.dom().finite()
        &&& forall|h: HashBytes| #[trigger] self.echo_tally(h) <= self.echoers().len()
        &&& forall|h: HashBytes| #[trigger]
            self.ready_tally(h) <= self.readiers().len() + (if self.is_ready_msg_sent {
                1nat
            } else {
                0nat
            })
    }

    /// Only finitely many were heard from, no more than have an entry.
    pub proof fn lemma_heard_from_finite(self)
        requires
            self.senders.dom().finite(),
        ensures
            self.echoers().finite(),
            self.readiers().finite(),
            self.echoers().len() <= self.senders.dom().len(),
            self.readiers().len() <= self.senders.dom().len(),
    {
        vstd::set_lib::lemma_len_subset(self.echoers(), self.senders.dom());
        vstd::set_lib::lemma_len_subset(self.readiers(), self.senders.dom());
    }

    /// Counting an Echo adds its sender to those who echoed, and nobody else.
    pub proof fn lemma_counted_echo(self, hash: HashBytes, sender: PublicKeyBytes)
        requires
            self.senders.dom().finite(),
        ensures
            self.counted_echo(hash, sender).senders.dom().finite(),
            self.counted_echo(hash, sender).echoers() == self.echoers().insert(sender),
            self.counted_echo(hash, sender).readiers() == self.readiers(),
            self.sound() && !self.has_echo(sender) ==> self.counted_echo(hash, sender).sound(),
    {
        let next = self.counted_echo(hash, sender);
        assert(next.echoers() =~= self.echoers().insert(sender));
        assert(next.readiers() =~= self.readiers());
        self.lemma_heard_from_finite();
        if self.sound() && !self.has_echo(sender) {
            assert forall|h: HashBytes| #[trigger] next.echo_tally(h) <= next.echoers().len() by {
                assert(self.echo_tally(h) <= self.echoers().len());
            }
            assert forall|h: HashBytes| #[trigger]
                next.ready_tally(h) <= next.readiers().len() + (if next.is_ready_msg_sent {
                    1nat
                } else {
                    0nat
                }) by {
                assert(next.ready_tally(h) == self.ready_tally(h));
            }
        }
    }

    /// Counting a Ready adds its sender to those who are ready, and nobody else.
    pub proof fn lemma_counted_ready(self, hash: HashBytes, sender: PublicKeyBytes)
        requires
            self.senders.dom().finite(),
        ensures
            self.counted_ready(hash, sender).senders.dom().finite(),
            self.counted_ready(hash, sender).readiers() == self.readiers().insert(sender),
            self.counted_ready(hash, sender).echoers() == self.echoers(),
            self.sound() && !self.has_ready(sender) ==> self.counted_ready(hash, sender).sound(),
    {
        let next = self.counted_ready(hash, sender);
        assert(next.echoers() =~= self.echoers());
        assert(next.readiers() =~= self.readiers().insert(sender));
        self.lemma_heard_from_finite();
        if self.sound() && !self.has_ready(sender) {
            assert forall|h: HashBytes| #[trigger] next.echo_tally(h) <= next.echoers().len() by {
                assert(next.echo_tally(h) == self.echo_tally(h));
            }
            assert forall|h: HashBytes| #[trigger]
                next.ready_tally(h) <= next.readiers().len() + (if next.is_ready_msg_sent {
                    1nat
                } else {
                    0nat
                }) by {
                assert(self.ready_tally(h) <= self.readiers().len() + (if self.is_ready_msg_sent {
                    1nat
                } else {
                    0nat
                }));
            }
        }
    }

    /// A node's first Ready of its own keeps the counters sound.
    pub proof fn lemma_readied(self, hash: HashBytes, me: PublicKeyBytes)
        requires
            self.sound(),
            !self.is_ready_msg_sent,
        ensures
            self.readied(hash, me).sound(),
            self.readied(hash, me).readiers() == self.readiers().insert(me),
            self.readied(hash, me).echoers() == self.echoers(),
    {
        let next = self.readied(hash, me);
        assert(next.echoers() =~= self.echoers());
        assert(next.readiers() =~= self.readiers().insert(me));
        self.lemma_heard_from_finite();
        assert forall|h: HashBytes| #[trigger] next.echo_tally(h) <= next.echoers().len() by {
            assert(next.echo_tally(h) == self.echo_tally(h));
        }
        assert forall|h: HashBytes| #[trigger]
            next.ready_tally(h) <= next.readiers().len() + 1 by {
            assert(self.ready_tally(h) <= self.readiers().len());
        }
    }

    /// An instance that has heard from nobody is sound.
    pub proof fn lemma_fresh(
        payload: T,
        payload_hash: HashBytes,
        participants: Seq<PublicKeyBytes>,
    )
        requires
            participants.len() > 0,
        ensures
            Self::fresh(payload, payload_hash, participants).sound(),
            Self::fresh(payload, payload_hash, participants).echoers() == Set::<
                PublicKeyBytes,
            >::empty(),
            Self::fresh(payload, payload_hash, participants).readiers() == Set::<
                PublicKeyBytes,
            >::empty(),
    {
        let fresh = Self::fresh(payload, payload_hash, participants);
        assert(fresh.echoers() =~= Set::<PublicKeyBytes>::empty());
        assert(fresh.readiers() =~= Set::<PublicKeyBytes>::empty());
    }
}

/// State for a single broadcast instance.
pub struct BcastInstance<T> {
    hash_echo_count: Table<HashBytes, u128>,
    hash_ready_count: Table<HashBytes, u128>,
    senders: Table<PublicKeyBytes, (bool, bool)>,
    is_ready_msg_sent: bool,
    echo_threshold_reached: bool,
    ready_amp_threshold_reached: bool,
    delivery_threshold_reached: bool,
    participants: Vec<PublicKeyBytes>,
    msg_queue: Vec<MsgLink<BroadcastRound<T>>>,
    payload: T,
    payload_hash: HashBytes,
}

/// The numbers that a table of counters holds.
spec fn counters(table: Map<HashBytes, u128>) -> Map<HashBytes, nat> {
    table.map_values(|c: u128| c as nat)
}

/// The messages of a queue, each by its model.
pub open spec fn queue_state<T>(queue: Seq<MsgLink<BroadcastRound<T>>>) -> Seq<
    MsgLink<RoundState<T>>,
> {
    queue.map_values(|m: MsgLink<BroadcastRound<T>>| m@)
}

impl<T> View for BcastInstance<T> {
    type V = InstanceState<T>;

    closed spec fn view(&self) -> InstanceState<T> {
        InstanceState {
            hash_echo_count: counters(self.hash_echo_count@),
            hash_ready_count: counters(self.hash_ready_count@),
            senders: self.senders@,
            is_ready_msg_sent: self.is_ready_msg_sent,
            echo_threshold_reached: self.echo_threshold_reached,
            ready_amp_threshold_reached: self.ready_amp_threshold_reached,
            delivery_threshold_reached: self.delivery_threshold_reached,
            participants: self.participants@,
            msg_queue: queue_state(self.msg_queue@),
            payload: self.payload,
            payload_hash: self.payload_hash,
        }
    }
}

impl<T> BcastInstance<T> {
    /// An instance for this payload that has heard from nobody yet.
    pub fn new(payload: T, payload_hash: HashBytes, participants: Vec<PublicKeyBytes>) -> (r: Self)
        ensures
            r@ == InstanceState::fresh(payload, payload_hash, participants@),
            r@.payload == payload,
            r@.payload_hash == payload_hash,
            r@.participants == participants@,
    {
        let r = Self {
            hash_echo_count: Table::new(),
            hash_ready_count: Table::new(),
            senders: Table::new(),
            is_ready_msg_sent: false,
            echo_threshold_reached: false,
            ready_amp_threshold_reached: false,
            delivery_threshold_reached: false,
            participants,
            payload,
            payload_hash,
            msg_queue: Vec::new(),
        };
        assert(r@ =~= InstanceState::fresh(payload, payload_hash, participants@));
        r
    }

    // Byzantine fault tolerance thresholds - assuming up to f = (n-1)/3 Byzantine nodes

    /// Echos needed before sending Ready: guarantees at least one honest node echoed.
    pub fn echo_to_ready_threshold(&self) -> (r: usize)
        requires
            self@.n() > 0,
        ensures
            r == echo_quorum(self@.n()),
            self@.participants.len() + (self@.participants.len() - 1) / 3 < 2 * r,
            2 * r <= self@.participants.len() + (self@.participants.len() - 1) / 3 + 2,
    {
        let n: usize = self.participants.len();
        // More than half of `n + f`, without forming the sum.
        (n - 1) / 3 + (n - (n - 1) / 3) / 2 + 1
    }

    /// Readys that trigger amplification: f+1 means at least one honest node is ready.
    pub fn ready_amp_threshold(&self) -> (r: usize)
        requires
            self@.n() > 0,
        ensures
            r == amplification_quorum(self@.n()),
            3 * (r - 1) < self@.participants.len() <= 3 * (r - 1) + 3,
    {
        let n: usize = self.participants.len();
        ((n - 1) / 3) + 1
    }

    /// Readys needed for delivery: 2f+1 guarantees all honest nodes will eventually deliver.
    pub fn delivery_threshold(&self) -> (r: usize)
        requires
            self@.n() > 0,
        ensures
            r == delivery_quorum(self@.n()),
            r % 2 == 1,
            3 * ((r - 1) / 2) < self@.participants.len() <= 3 * ((r - 1) / 2) + 3,
    {
        let n: usize = self.participants.len();
        (((n - 1) / 3) * 2) + 1
    }

    /// Whether an Echo of `pubkey` was counted.
    pub fn has_sent_echo(&self, pubkey: PublicKeyBytes) -> (r: bool)
        ensures
            r == self@.has_echo(pubkey),
    {
        match self.senders.get(pubkey) {
            Some(sent) => sent.0,
            None => false,
        }
    }

    /// Whether a Ready of `pubkey` was counted.
    pub fn has_sent_ready(&self, pubkey: PublicKeyBytes) -> (r: bool)
        ensures
            r == self@.has_ready(pubkey),
    {
        match self.senders.get(pubkey) {
            Some(sent) => sent.1,
            None => false,
        }
    }

    /// Marks `pubkey` as having sent an Echo.
    pub fn sent_echo(&mut self, pubkey: PublicKeyBytes)
        ensures
            final(self)@ == old(self)@.marked_echo(pubkey),
    {
        let has_sent_ready: bool = self.has_sent_ready(pubkey);
        self.senders.insert(pubkey, (true, has_sent_ready));
    }

    /// Marks `pubkey` as having sent a Ready.
    pub fn sent_ready(&mut self, pubkey: PublicKeyBytes)
        ensures
            final(self)@ == old(self)@.marked_ready(pubkey),
    {
        let has_sent_echo: bool = self.has_sent_echo(pubkey);
        self.senders.insert(pubkey, (has_sent_echo, true));
    }

    /// Counts an Echo of `sender` for `hash`.
    pub fn count_echo(&mut self, hash: HashBytes, sender: PublicKeyBytes)
        requires
            old(self)@.n() > 0,
            old(self)@.echo_tally(hash) < u128::MAX,
        ensures
            final(self)@ == old(self)@.counted_echo(hash, sender),
    {
        let so_far: u128 = match self.hash_echo_count.get(hash) {
            Some(c) => c,
            None => 0,
        };
        let count: u128 = so_far + 1;
        self.hash_echo_count.insert(hash, count);
        self.sent_echo(sender);
        if count >= self.echo_to_ready_threshold() as u128 {
            self.echo_threshold_reached = true;
        }
        assert(self@ =~= old(self)@.counted_echo(hash, sender));
    }

    /// Counts a Ready of `sender` for `hash`.
    pub fn count_ready(&mut self, hash: HashBytes, sender: PublicKeyBytes)
        requires
            old(self)@.n() > 0,
            old(self)@.ready_tally(hash) < u128::MAX,
        ensures
            final(self)@ == old(self)@.counted_ready(hash, sender),
    {
        let so_far: u128 = match self.hash_ready_count.get(hash) {
            Some(c) => c,
            None => 0,
        };
        let count: u128 = so_far + 1;
        self.hash_ready_count.insert(hash, count);
        self.sent_ready(sender);
        if count >= self.ready_amp_threshold() as u128 {
            self.ready_amp_threshold_reached = true;
        }
        if count >= self.delivery_threshold() as u128 {
            self.delivery_threshold_reached = true;
        }
        assert(self@ =~= old(self)@.counted_ready(hash, sender));
    }

    /// The node has sent its own Ready for this payload.
    pub(crate) fn mark_ready_msg_sent(&mut self)
        ensures
            final(self)@ == (InstanceState { is_ready_msg_sent: true, ..old(self)@ }),
    {
        self.is_ready_msg_sent = true;
    }

    /// Puts `msg_queue` in place of the queued messages.
    pub(crate) fn set_msg_queue(&mut self, msg_queue: Vec<MsgLink<BroadcastRound<T>>>)
        ensures
            final(self)@ == (InstanceState { msg_queue: queue_state(msg_queue@), ..old(self)@ }),
    {
        self.msg_queue = msg_queue;
    }

    /// Takes the message that was queued last, if any is queued.
    pub(crate) fn pop_queued(&mut self) -> (r: Option<MsgLink<BroadcastRound<T>>>)
        ensures
            match r {
                Some(msg) => old(self)@.msg_queue.len() > 0 && msg@ == old(self)@.msg_queue.last()
                    && final(self)@ == (InstanceState {
                    msg_queue: old(self)@.msg_queue.drop_last(),
                    ..old(self)@
                }),
                None => old(self)@.msg_queue.len() == 0 && final(self)@ == old(self)@,
            },
    {
        let r = self.msg_queue.pop();
        proof {
            if r is Some {
                assert(queue_state(self.msg_queue@) =~= queue_state(
                    old(self).msg_queue@,
                ).drop_last());
            }
        }
        r
    }

    /// Whether messages that came in before Init are still to be handled.
    pub(crate) fn has_queued(&self) -> (r: bool)
        ensures
            r == (self@.msg_queue.len() > 0),
    {
        self.msg_queue.len() > 0
    }

    /// Whether the node has sent its own Ready.
    pub fn is_ready_msg_sent(&self) -> (r: bool)
        ensures
            r == self@.is_ready_msg_sent,
    {
        self.is_ready_msg_sent
    }

    /// Whether enough Echos were counted for the node to send Ready.
    pub fn echo_threshold_reached(&self) -> (r: bool)
        ensures
            r == self@.echo_threshold_reached,
    {
        self.echo_threshold_reached
    }

    /// Whether enough Readys were counted for the node to send its own.
    pub fn ready_amp_threshold_reached(&self) -> (r: bool)
        ensures
            r == self@.ready_amp_threshold_reached,
    {
        self.ready_amp_threshold_reached
    }

    /// Whether enough Readys were counted to deliver the payload.
    pub fn delivery_threshold_reached(&self) -> (r: bool)
        ensures
            r == self@.delivery_threshold_reached,
    {
        self.delivery_threshold_reached
    }

    /// The participants, as the Init message lists them.
    pub fn participants(&self) -> (r: &Vec<PublicKeyBytes>)
        ensures
            r@ == self@.participants,
    {
        &self.participants
    }

    /// The hash that Echos and Readys must carry to count.
    pub fn payload_hash(&self) -> (r: HashBytes)
        ensures
            r == self@.payload_hash,
    {
        self.payload_hash
    }

    /// The value being broadcast.
    pub fn into_payload(self) -> (r: T)
        ensures
            r == self@.payload,
    {
        self.payload
    }

    /// In a sound instance there is room to count one more Echo and Ready.
    pub proof fn lemma_room(&self)
        requires
            self@.sound(),
        ensures
            forall|h: HashBytes| #[trigger] self@.echo_tally(h) < u128::MAX,
            forall|h: HashBytes| #[trigger] self@.ready_tally(h) < u128::MAX,
    {
        self.senders.lemma_size();
        self@.lemma_heard_from_finite();
    }
}

} // verus!
