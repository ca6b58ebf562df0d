//! The arithmetic of the ring protocol: burst sizing, stripe arithmetic,
//! and the mathematical step function of the headless consumer.
//!
//! Everything here is stated over unbounded integers; the executable
//! producer and consumer operations promise in their contracts that they
//! follow these functions exactly, and the channel laws are proved about
//! them.

use vstd::prelude::*;
use vstd::arithmetic::div_mod::{
    lemma_add_mod_noop, lemma_fundamental_div_mod, lemma_mod_division_less_than_divisor,
    lemma_mod_multiples_vanish, lemma_small_mod,
};

verus! {

/// How many writes (or reads, in lossless mode) a side may accumulate
/// before it must publish its counter: `max(1, n / 4)`.
pub open spec fn spec_burst(n: int) -> int {
    if n / 4 == 0 {
        1
    } else {
        n / 4
    }
}

/// The width of the window behind the published tail that is safe to
/// read: `n - BURST`. A consumer lagging by more than this may be
/// overrun by an in-flight burst.
pub open spec fn spec_safe_window(n: int) -> int {
    n - spec_burst(n)
}

/// A counter increment with the wrap-around of a machine word, as the
/// shared heartbeat counters use.
pub open spec fn wrap_inc(x: int) -> int {
    if x == usize::MAX {
        0
    } else {
        x + 1
    }
}

/// `n` is a positive power of two.
pub open spec fn is_pow2(n: int) -> bool
    decreases n,
{
    if n <= 0 {
        false
    } else if n == 1 {
        true
    } else {
        n % 2 == 0 && is_pow2(n / 2)
    }
}

/// The smallest position `p >= head` with `p % k == target` (for
/// `0 <= target < k`).
pub open spec fn spec_next_modulo(head: int, target: int, k: int) -> int {
    head + (target + k - head % k) % k
}

/// The head position from which the consumer will read, after the
/// overrun check: unchanged when the producer is within the safe
/// window, otherwise skipped forward to the oldest still-safe position
/// of the consumer's own stripe.
pub open spec fn pop_target_head(t: int, h: int, n: int, idx: int, k: int) -> int {
    if t > h + spec_safe_window(n) {
        spec_next_modulo(t - spec_safe_window(n), idx, k)
    } else {
        h
    }
}

/// The logical position a pop delivers, if any: the target head when it
/// still lies before the published tail, and nothing otherwise.
pub open spec fn pop_pos(t: int, h: int, n: int, idx: int, k: int) -> Option<int> {
    let h1 = pop_target_head(t, h, n, idx, k);
    if t > h1 {
        Some(h1)
    } else {
        None
    }
}

/// The consumer's head after a pop: advanced one stride past a
/// delivered position, or parked at the target head when nothing was
/// delivered.
pub open spec fn pop_new_head(t: int, h: int, n: int, idx: int, k: int) -> int {
    let h1 = pop_target_head(t, h, n, idx, k);
    if t > h1 {
        h1 + k
    } else {
        h1
    }
}

/// The positions a consumer delivers when it pops until the channel
/// reports empty, with the published tail fixed at `t`.
pub open spec fn drained_positions(t: int, h: int, n: int, idx: int, k: int) -> Seq<int>
    decreases (if t - h >= 0 { t - h } else { 0 }) when 1 <= k && 1 <= n
{
    match pop_pos(t, h, n, idx, k) {
        Some(p) => seq![p] + drained_positions(t, pop_new_head(t, h, n, idx, k), n, idx, k),
        None => Seq::empty(),
    }
}

/// Where a single consumer's deliveries start, given the published tail
/// and its head: at its head, unless the producer has lapped into the
/// safe window, in which case at the oldest still-safe position.
pub open spec fn fifo_start(t: int, h: int, n: int) -> int {
    if t > h + spec_safe_window(n) {
        t - spec_safe_window(n)
    } else {
        h
    }
}

/// The lossless producer's fullness test: the local write position is a
/// whole ring ahead of the consumer-published head, so the next slot
/// still holds an unacknowledged record.
pub open spec fn lossless_is_full(tail: int, head: int, n: int) -> bool {
    tail == head + n
}

/// `BURST = max(1, n / 4)`.
pub fn burst_amount(n: usize) -> (r: usize)
    requires
        1 <= n,
    ensures
        r as int == spec_burst(n as int),
        1 <= r <= n,
{
    let x = n / 4;
    if x == 0 {
        1
    } else {
        x
    }
}

/// The smallest `r >= head` with `r % mod_value == target_mod`; the
/// position a striped consumer resets to after an overrun.
pub fn next_modulo(head: usize, target_mod: usize, mod_value: usize) -> (r: usize)
    requires
        1 <= mod_value,
        target_mod < mod_value,
        head + mod_value <= usize::MAX,
        target_mod + mod_value <= usize::MAX,
    ensures
        r as int == spec_next_modulo(head as int, target_mod as int, mod_value as int),
        head <= r < head + mod_value,
        r as int % mod_value as int == target_mod as int,
{
    let head_mod = head % mod_value;
    let add_value = (target_mod + mod_value - head_mod) % mod_value;
    proof {
        lemma_next_modulo(head as int, target_mod as int, mod_value as int);
    }
    head + add_value
}

/// The burst is at least one record and at most the whole ring, so the
/// safe window is never negative and never the whole ring.
pub proof fn lemma_burst_bounds(n: int)
    requires
        1 <= n,
    ensures
        1 <= spec_burst(n) <= n,
        0 <= spec_safe_window(n) < n,
{
    vstd::arithmetic::div_mod::lemma_div_nonincreasing(n, 4);
    vstd::arithmetic::div_mod::lemma_div_pos_is_pos(n, 4);
}

/// `spec_next_modulo` indeed lands on the first position of the stripe
/// at or after `head`.
pub proof fn lemma_next_modulo(head: int, target: int, k: int)
    requires
        0 <= head,
        1 <= k,
        0 <= target < k,
    ensures
        head <= spec_next_modulo(head, target, k) < head + k,
        spec_next_modulo(head, target, k) % k == target,
{
    let hm = head % k;
    let add = (target + k - hm) % k;
    lemma_mod_division_less_than_divisor(head, k);
    lemma_mod_division_less_than_divisor(target + k - hm, k);
    assert(0 <= add < k);
    // add == target - hm (mod k), so head + add == target (mod k).
    if target >= hm {
        lemma_small_mod((target - hm) as nat, k as nat);
        lemma_mod_multiples_vanish(1, target - hm, k);
        assert(add == target - hm);
    } else {
        lemma_small_mod((target + k - hm) as nat, k as nat);
        assert(add == target + k - hm);
    }
    lemma_add_mod_noop(head, add, k);
    if target >= hm {
        lemma_mod_division_less_than_divisor(hm + (target - hm), k);
        lemma_small_mod(target as nat, k as nat);
        assert((head + add) % k == target);
    } else {
        lemma_mod_multiples_vanish(1, target, k);
        lemma_small_mod(target as nat, k as nat);
        assert((hm + add) % k == (target + k) % k);
        assert((head + add) % k == target);
    }
}

/// Two distinct logical positions less than `n` apart occupy distinct
/// slots of a ring of `n` slots.
pub proof fn lemma_distinct_slots(i: int, j: int, n: int)
    requires
        0 <= i < j,
        j < i + n,
    ensures
        i % n != j % n,
{
    lemma_fundamental_div_mod(i, n);
    lemma_fundamental_div_mod(j, n);
    if i % n == j % n {
        let d = j / n - i / n;
        assert(j - i == n * d) by (nonlinear_arith)
            requires
                i == n * (i / n) + i % n,
                j == n * (j / n) + j % n,
                i % n == j % n,
                d == j / n - i / n,
        ;
        assert(false) by (nonlinear_arith)
            requires
                j - i == n * d,
                0 < j - i < n,
        ;
    }
}

} // verus!
