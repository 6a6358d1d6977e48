//! What counting does to what a node knows, said of what can be asked of it.

use vstd::prelude::*;

use crate::identity::{HashBytes, PublicKeyBytes};
use crate::instance::InstanceState;

verus! {

/// What can be asked of an instance comes from its records: who was heard from, and
/// how often a hash was; where there is no record, nobody and never.
pub proof fn law_records<T>(i: InstanceState<T>, q: PublicKeyBytes, h: HashBytes)
    ensures
        i.has_echo(q) <==> exists|ready: bool| i.senders.contains_pair(q, (true, ready)),
        i.has_ready(q) <==> exists|echo: bool| i.senders.contains_pair(q, (echo, true)),
        i.hash_echo_count.contains_key(h) ==> i.hash_echo_count[h] == i.echo_tally(h),
        !i.hash_echo_count.contains_key(h) ==> i.echo_tally(h) == 0,
        i.hash_ready_count.contains_key(h) ==> i.hash_ready_count[h] == i.ready_tally(h),
        !i.hash_ready_count.contains_key(h) ==> i.ready_tally(h) == 0,
        i.echoers().contains(q) <==> i.has_echo(q),
        i.readiers().contains(q) <==> i.has_ready(q),
        i.n() == i.participants.len(),
{
    if i.senders.contains_key(q) {
        let (echo, ready) = i.senders[q];
        assert(i.senders.contains_pair(q, (echo, ready)));
    }
}

/// A new instance is about what it was made for and has heard from nobody.
pub proof fn law_new_instance<T>(
    payload: T,
    payload_hash: HashBytes,
    participants: Seq<PublicKeyBytes>,
    q: PublicKeyBytes,
    h: HashBytes,
)
    ensures
        ({
            let i = InstanceState::fresh(payload, payload_hash, participants);
            &&& i.payload == payload
            &&& i.payload_hash == payload_hash
            &&& i.participants == participants
            &&& i.msg_queue.len() == 0
            &&& !i.has_echo(q) && !i.has_ready(q)
            &&& i.echo_tally(h) == 0 && i.ready_tally(h) == 0
            &&& !i.senders.contains_key(q)
            &&& !i.hash_echo_count.contains_key(h) && !i.hash_ready_count.contains_key(h)
            &&& !i.is_ready_msg_sent
            &&& !i.echo_threshold_reached
            &&& !i.ready_amp_threshold_reached
            &&& !i.delivery_threshold_reached
        }),
{
}

/// Whether the two instances are about the same broadcast, with the same messages
/// queued.
pub open spec fn same_matter<T>(i: InstanceState<T>, j: InstanceState<T>) -> bool {
    &&& j.payload == i.payload
    &&& j.payload_hash == i.payload_hash
    &&& j.participants == i.participants
    &&& j.msg_queue == i.msg_queue
}

/// To mark somebody as having sent an Echo is to remember that and nothing else, and
/// the same for a Ready.
pub proof fn law_marked<T>(i: InstanceState<T>, sender: PublicKeyBytes, q: PublicKeyBytes)
    ensures
        ({
            let j = i.marked_echo(sender);
            &&& j.has_echo(q) <==> i.has_echo(q) || q == sender
            &&& j.has_ready(q) <==> i.has_ready(q)
            &&& j == (InstanceState { senders: j.senders, ..i })
            &&& j.senders.dom() == i.senders.dom().insert(sender)
            &&& q != sender && i.senders.contains_key(q) ==> j.senders[q] == i.senders[q]
        }),
        ({
            let j = i.marked_ready(sender);
            &&& j.has_ready(q) <==> i.has_ready(q) || q == sender
            &&& j.has_echo(q) <==> i.has_echo(q)
            &&& j == (InstanceState { senders: j.senders, ..i })
            &&& j.senders.dom() == i.senders.dom().insert(sender)
            &&& q != sender && i.senders.contains_key(q) ==> j.senders[q] == i.senders[q]
        }),
{
}

/// To count an Echo is to remember its sender and to add one for its hash. The node
/// has enough Echos once those for a hash are more than half of the participants
/// and the tolerated faults together.
pub proof fn law_echo_counted<T>(
    i: InstanceState<T>,
    hash: HashBytes,
    sender: PublicKeyBytes,
    q: PublicKeyBytes,
    h: HashBytes,
    f: nat,
)
    requires
        3 * f < i.participants.len() <= 3 * f + 3,
    ensures
        ({
            let j = i.counted_echo(hash, sender);
            &&& same_matter(i, j)
            &&& j.has_echo(q) <==> i.has_echo(q) || q == sender
            &&& j.has_ready(q) <==> i.has_ready(q)
            &&& j.senders == i.marked_echo(sender).senders
            &&& j.echo_tally(h) == i.echo_tally(h) + (if h == hash {
                1int
            } else {
                0
            })
            &&& j.hash_echo_count.contains_key(h) <==> i.hash_echo_count.contains_key(h) || h
                == hash
            &&& j.hash_ready_count == i.hash_ready_count
            &&& j.ready_tally(h) == i.ready_tally(h)
            &&& j.echo_threshold_reached <==> i.echo_threshold_reached || 2 * j.echo_tally(hash)
                > i.participants.len() + f
            &&& j.ready_amp_threshold_reached == i.ready_amp_threshold_reached
            &&& j.delivery_threshold_reached == i.delivery_threshold_reached
            &&& j.is_ready_msg_sent == i.is_ready_msg_sent
        }),
{
}

/// To count a Ready is to remember its sender and to add one for its hash. The node
/// has enough Readys to send its own once those for a hash are more than the
/// tolerated faults, and enough to deliver once they are more than twice as many.
pub proof fn law_ready_counted<T>(
    i: InstanceState<T>,
    hash: HashBytes,
    sender: PublicKeyBytes,
    q: PublicKeyBytes,
    h: HashBytes,
    f: nat,
)
    requires
        3 * f < i.participants.len() <= 3 * f + 3,
    ensures
        ({
            let j = i.counted_ready(hash, sender);
            &&& same_matter(i, j)
            &&& j.has_ready(q) <==> i.has_ready(q) || q == sender
            &&& j.has_echo(q) <==> i.has_echo(q)
            &&& j.senders == i.marked_ready(sender).senders
            &&& j.ready_tally(h) == i.ready_tally(h) + (if h == hash {
                1int
            } else {
                0
            })
            &&& j.hash_ready_count.contains_key(h) <==> i.hash_ready_count.contains_key(h) || h
                == hash
            &&& j.hash_echo_count == i.hash_echo_count
            &&& j.echo_tally(h) == i.echo_tally(h)
            &&& j.ready_amp_threshold_reached <==> i.ready_amp_threshold_reached || j.ready_tally(
                hash,
            ) > f
            &&& j.delivery_threshold_reached <==> i.delivery_threshold_reached || j.ready_tally(
                hash,
            ) > 2 * f
            &&& j.echo_threshold_reached == i.echo_threshold_reached
            &&& j.is_ready_msg_sent == i.is_ready_msg_sent
        }),
{
}

/// A node that sends its own Ready counts it like anybody's, and remembers that it
/// is sent.
pub proof fn law_own_ready<T>(i: InstanceState<T>, hash: HashBytes, me: PublicKeyBytes)
    ensures
        i.readied(hash, me).is_ready_msg_sent,
        i.counted_ready(hash, me) == (InstanceState {
            is_ready_msg_sent: i.is_ready_msg_sent,
            ..i.readied(hash, me)
        }),
{
}

/// In which order an Echo and a Ready are counted makes no difference, nor does it
/// for two Echos or two Readys.
pub proof fn law_order_of_counting<T>(
    i: InstanceState<T>,
    g: HashBytes,
    p: PublicKeyBytes,
    h: HashBytes,
    q: PublicKeyBytes,
)
    ensures
        i.counted_echo(g, p).counted_ready(h, q) == i.counted_ready(h, q).counted_echo(g, p),
        i.counted_echo(g, p).counted_echo(h, q) == i.counted_echo(h, q).counted_echo(g, p),
        i.counted_ready(g, p).counted_ready(h, q) == i.counted_ready(h, q).counted_ready(g, p),
{
    assert(i.counted_echo(g, p).counted_ready(h, q) =~= i.counted_ready(h, q).counted_echo(g, p));
    assert(i.counted_echo(g, p).counted_echo(h, q) =~= i.counted_echo(h, q).counted_echo(g, p));
    assert(i.counted_ready(g, p).counted_ready(h, q) =~= i.counted_ready(h, q).counted_ready(g, p));
}

} // verus!
