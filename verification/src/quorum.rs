//! The fault bound, the thresholds, and the arithmetic that makes them work.

use vstd::prelude::*;

verus! {

/// How many of `n` participants may be Byzantine: the largest `f` with `3 f < n`.
pub open spec fn fault_bound(n: nat) -> nat
    recommends
        n > 0,
{
    ((n - 1) / 3) as nat
}

/// Echos needed before a node sends Ready: more than half of `n + f`, so that any
/// two such groups of Echos have more than `f` senders in common.
pub open spec fn echo_quorum(n: nat) -> nat
    recommends
        n > 0,
{
    (n + fault_bound(n)) / 2 + 1
}

/// Readys that make a node send its own: one more than the faulty can forge.
pub open spec fn amplification_quorum(n: nat) -> nat
    recommends
        n > 0,
{
    fault_bound(n) + 1
}

/// Readys needed for delivery.
pub open spec fn delivery_quorum(n: nat) -> nat
    recommends
        n > 0,
{
    2 * fault_bound(n) + 1
}

/// Whether any two groups that could each make a node ready share an honest
/// member, when `members` nodes take part and `faulty` of them are faulty.
pub open spec fn quorums_overlap(n: nat, members: nat, faulty: nat) -> bool {
    2 * echo_quorum(n) > members + faulty
}

/// Within the fault bound, quorums always overlap.
pub proof fn law_overlap(n: nat, members: nat, faulty: nat)
    requires
        n > 0,
        members <= n,
        faulty <= fault_bound(n),
    ensures
        quorums_overlap(n, members, faulty),
{
}

/// As many faults are tolerated as can be: the bound is the largest number that is
/// less than a third of the participants.
pub proof fn law_fault_bound(n: nat, faults: nat)
    requires
        n > 0,
    ensures
        faults <= fault_bound(n) <==> 3 * faults < n,
        3 * fault_bound(n) < n <= 3 * fault_bound(n) + 3,
{
}

/// No threshold is higher than it has to be: one Echo less than are needed is no
/// majority of `n + f`, one Ready less than amplification needs may come from
/// faulty nodes alone, and one Ready less than delivery needs may leave no more
/// honest ones than that.
pub proof fn law_thresholds_are_least(n: nat)
    requires
        n > 0,
    ensures
        2 * echo_quorum(n) > n + fault_bound(n),
        2 * (echo_quorum(n) - 1) <= n + fault_bound(n),
        amplification_quorum(n) > fault_bound(n),
        amplification_quorum(n) - 1 <= fault_bound(n),
        delivery_quorum(n) - fault_bound(n) > fault_bound(n),
        delivery_quorum(n) - 1 - fault_bound(n) <= fault_bound(n),
{
}

/// How the thresholds lie: fewer than a third of the participants are faulty, and
/// one more would be a third or above; every threshold is above the fault bound
/// and can be met by the honest alone; and a node that can deliver is past
/// amplification.
pub proof fn law_thresholds(n: nat)
    requires
        n > 0,
    ensures
        3 * fault_bound(n) < n <= 3 * fault_bound(n) + 3,
        fault_bound(n) < echo_quorum(n) <= n - fault_bound(n),
        fault_bound(n) < amplification_quorum(n) <= delivery_quorum(n),
        delivery_quorum(n) <= n - fault_bound(n),
        delivery_quorum(n) - fault_bound(n) == amplification_quorum(n),
{
}

/// A group with more members than there are faulty nodes has an honest one.
pub proof fn law_honest_member<K>(group: Set<K>, faulty: Set<K>)
    requires
        faulty.finite(),
        group.len() > faulty.len(),
    ensures
        exists|p: K| #[trigger] group.contains(p) && !faulty.contains(p),
{
    if forall|p: K| #[trigger] group.contains(p) ==> faulty.contains(p) {
        vstd::set_lib::lemma_len_subset(group, faulty);
    }
}

/// The honest part of a group is at least as large as the group less the number
/// of faulty nodes.
pub proof fn lemma_honest_part<K>(group: Set<K>, faulty: Set<K>)
    requires
        group.finite(),
        faulty.finite(),
    ensures
        group.difference(faulty).finite(),
        group.difference(faulty).len() >= group.len() - faulty.len(),
{
    vstd::set_lib::lemma_set_difference_len(group, faulty);
    vstd::set_lib::lemma_len_intersect(faulty, group);
    assert(faulty.intersect(group) =~= group.intersect(faulty));
}

/// Where quorums overlap, two groups that could each make a node ready have an
/// honest member in common.
pub proof fn law_quorums_meet<K>(a: Set<K>, b: Set<K>, members: Set<K>, faulty: Set<K>, n: nat)
    requires
        members.finite(),
        faulty.finite(),
        quorums_overlap(n, members.len(), faulty.len()),
        a.subset_of(members),
        b.subset_of(members),
        a.len() >= echo_quorum(n),
        b.len() >= echo_quorum(n),
    ensures
        exists|p: K| #[trigger] a.contains(p) && b.contains(p) && !faulty.contains(p),
{
    vstd::set_lib::lemma_len_subset(a, members);
    vstd::set_lib::lemma_len_subset(b, members);
    vstd::set_lib::lemma_set_intersect_union_lens(a, b);
    vstd::set_lib::lemma_len_subset(a + b, members);
    law_honest_member(a.intersect(b), faulty);
    let p = choose|p: K| #[trigger] a.intersect(b).contains(p) && !faulty.contains(p);
    assert(a.contains(p));
}

} // verus!
