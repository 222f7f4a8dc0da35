//! The numeric-identifier allocator used at account creation: draw the next
//! value of an atomic server-side sequence, then check the users relation for
//! a row that already carries it (a safety net against sequence/table
//! divergence), and re-draw until a free value is found.
//!
//! The sequence only ever moves forward, so concurrent callers, which each
//! see disjoint draws, can never be handed the same value.

use vstd::prelude::*;
use crate::account::{User, UserTable, contains_pid};

verus! {

/// The server-side sequence the allocator draws from.
pub struct PidAllocator {
    pub next: i32,
}

/// How many rows carry a pid at or above the given bound.
pub open spec fn count_ge(s: Seq<User>, c: int) -> nat
    decreases s.len(),
{
    if s.len() == 0 {
        0
    } else {
        count_ge(s.drop_last(), c) + if s.last().pid >= c {
            1nat
        } else {
            0nat
        }
    }
}

proof fn lemma_count_ge_monotone(s: Seq<User>, c1: int, c2: int)
    requires
        c1 <= c2,
    ensures
        count_ge(s, c2) <= count_ge(s, c1),
    decreases s.len(),
{
    if s.len() > 0 {
        lemma_count_ge_monotone(s.drop_last(), c1, c2);
    }
}

/// Where some row carries exactly the bound, raising the bound past it loses
/// at least that row.
proof fn lemma_count_ge_found(s: Seq<User>, c: int)
    requires
        contains_pid(s, c),
    ensures
        count_ge(s, c + 1) < count_ge(s, c),
    decreases s.len(),
{
    if s.last().pid == c {
        lemma_count_ge_monotone(s.drop_last(), c, c + 1);
    } else {
        let i = choose|i: int| 0 <= i < s.len() && s[i].pid == c;
        assert(s.drop_last()[i] == s[i]);
        lemma_count_ge_found(s.drop_last(), c);
    }
}

/// Draw identifiers from the sequence until one is free in the users
/// relation; the sequence is advanced past every draw, taken or not.
///
/// The result is free at the moment of allocation, no free value below it was
/// skipped, and the sequence ends up past the result — so no later call (from
/// this state) can return the same value.
pub fn next_pid(alloc: &mut PidAllocator, users: &UserTable) -> (r: i32)
    requires
        old(alloc).next as int + count_ge(users.users@, old(alloc).next as int)
            < i32::MAX as int,
    ensures
        !contains_pid(users.users@, r as int),
        old(alloc).next <= r,
        final(alloc).next == r + 1,
        forall|c: int| old(alloc).next <= c < r ==> contains_pid(users.users@, c),
{
    loop
        invariant
            old(alloc).next <= alloc.next,
            alloc.next as int + count_ge(users.users@, alloc.next as int) <= old(
                alloc,
            ).next as int + count_ge(users.users@, old(alloc).next as int),
            old(alloc).next as int + count_ge(users.users@, old(alloc).next as int)
                < i32::MAX as int,
            forall|c: int| old(alloc).next <= c < alloc.next ==> contains_pid(users.users@, c),
        decreases count_ge(users.users@, alloc.next as int),
    {
        let candidate = alloc.next;
        let taken = users.pid_exists(candidate);
        if !taken {
            proof {
                crate::account::lemma_find_by_pid_contains(users.users@, candidate as int);
            }
            alloc.next = candidate + 1;
            return candidate;
        }
        proof {
            lemma_count_ge_found(users.users@, candidate as int);
        }
        alloc.next = candidate + 1;
    }
}

/// Identifier uniqueness across calls: one call returns a value below the
/// sequence position it leaves behind, and every later call returns a value
/// at or above the position it starts from — so no two draws from a
/// forward-moving sequence coincide.
pub proof fn lemma_next_pid_distinct(r1: int, after_first: int, before_second: int, r2: int)
    requires
        r1 < after_first,
        after_first <= before_second,
        before_second <= r2,
    ensures
        r1 != r2,
{
}

} // verus!
