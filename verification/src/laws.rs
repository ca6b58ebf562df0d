//! The channel laws: what the protocol guarantees across whole runs, not
//! just across one call. Each law is proved from the same spec functions
//! that the executable operations promise to follow, so it holds of every
//! sequence of verified pushes and pops.

use vstd::prelude::*;

use crate::ring::{
    drained_positions, fifo_start, lemma_burst_bounds, lemma_distinct_slots, lemma_next_modulo,
    lossless_is_full, pop_new_head, pop_pos, pop_target_head, spec_next_modulo, spec_safe_window,
};
use crate::{headless_spmc, lossless, Channel, MAGIC};
use vstd::arithmetic::div_mod::{
    lemma_mod_add_multiples_vanish, lemma_mod_division_less_than_divisor,
};

verus! {

/// Initialization atomicity: any observer that sees the magic sentinel
/// in a well-formed region also sees a consistent record — the capacity
/// word equals the slot count and is a positive power of two, and the
/// counters are ordered. The sentinel is written last, so a region is
/// never seen half-initialized.
pub proof fn lemma_initialized_region_consistent<T>(ch: &Channel<T>)
    requires
        ch.inv(),
        ch.magic == MAGIC,
    ensures
        ch.capacity == ch.buffer@.len(),
        0 < ch.capacity,
        crate::ring::is_pow2(ch.capacity as int),
        ch.head <= ch.tail,
        ch.tail <= ch.history@.len(),
{
}

/// FIFO delivery for a single consumer (`interval == 1`): popping until
/// the channel reports empty delivers exactly the contiguous positions
/// from `fifo_start(t, h, n)` up to the published tail `t`, in order.
/// The start is the consumer's own head unless the producer has lapped
/// into the safe window, in which case it is the oldest still-safe
/// position `t - (n - BURST)`: the omitted prefix is exactly the records
/// that were overwritten while the consumer was behind by more than
/// `n - BURST`.
pub proof fn lemma_fifo_suffix(t: int, h: int, n: int)
    requires
        0 <= h,
        0 <= t,
        1 <= n,
    ensures
        h <= fifo_start(t, h, n),
        drained_positions(t, h, n, 0, 1) =~= Seq::new(
            (if t >= fifo_start(t, h, n) {
                t - fifo_start(t, h, n)
            } else {
                0
            }) as nat,
            |j: int| fifo_start(t, h, n) + j,
        ),
    decreases (if t - h >= 0 {
        t - h
    } else {
        0
    }),
{
    lemma_burst_bounds(n);
    let safe = spec_safe_window(n);
    if t <= h {
        // Nothing published past the head: nothing is delivered.
        assert(pop_target_head(t, h, n, 0, 1) == h);
        assert(pop_pos(t, h, n, 0, 1) is None);
        assert(drained_positions(t, h, n, 0, 1) =~= Seq::<int>::empty());
    } else if t > h + safe {
        // Overrun: the first pop skips to the oldest still-safe
        // position; with a stride of one that is the base itself.
        let base = t - safe;
        lemma_next_modulo(base, 0, 1);
        lemma_mod_division_less_than_divisor(base, 1);
        assert(spec_next_modulo(base, 0, 1) == base);
        assert(pop_target_head(t, h, n, 0, 1) == base);
        if t <= base {
            // A ring of one slot has an empty safe window: everything
            // was overwritten and nothing is delivered.
            assert(drained_positions(t, h, n, 0, 1) =~= Seq::<int>::empty());
        } else {
            assert(pop_pos(t, h, n, 0, 1) == Some(base));
            assert(pop_new_head(t, h, n, 0, 1) == base + 1);
            lemma_fifo_suffix(t, base + 1, n);
            assert(fifo_start(t, base + 1, n) == base + 1);
            assert(drained_positions(t, h, n, 0, 1) =~= Seq::new(
                (t - base) as nat,
                |j: int| base + j,
            ));
        }
    } else {
        // Within the safe window: the head itself is delivered and the
        // rest follows from one position further on.
        assert(pop_target_head(t, h, n, 0, 1) == h);
        assert(pop_pos(t, h, n, 0, 1) == Some(h));
        assert(pop_new_head(t, h, n, 0, 1) == h + 1);
        lemma_fifo_suffix(t, h + 1, n);
        assert(fifo_start(t, h + 1, n) == h + 1);
        assert(drained_positions(t, h, n, 0, 1) =~= Seq::new((t - h) as nat, |j: int| h + j));
    }
}

/// The value form of the FIFO law: mapped through the write history, the
/// drained positions give exactly the suffix of the published records
/// that starts at `fifo_start`; together with the split equation this
/// says a single consumer returns a suffix of the pushed sequence, in
/// the pushed order.
pub proof fn lemma_fifo_suffix_values<T>(hist: Seq<T>, t: int, h: int, n: int)
    requires
        0 <= h,
        0 <= t <= hist.len(),
        1 <= n,
    ensures
        t >= fifo_start(t, h, n) ==> drained_positions(t, h, n, 0, 1).map(
            |j: int, p: int| hist[p],
        ) =~= hist.subrange(fifo_start(t, h, n), t),
        t >= fifo_start(t, h, n) ==> hist.take(t) =~= hist.subrange(0, fifo_start(t, h, n))
            + hist.subrange(fifo_start(t, h, n), t),
        t < fifo_start(t, h, n) ==> drained_positions(t, h, n, 0, 1) =~= Seq::<int>::empty(),
{
    lemma_fifo_suffix(t, h, n);
    let s = fifo_start(t, h, n);
    if t >= s {
        assert(0 <= s) by {
            lemma_burst_bounds(n);
        }
        assert(drained_positions(t, h, n, 0, 1).map(|j: int, p: int| hist[p]) =~= hist.subrange(
            s,
            t,
        ));
        assert(hist.take(t) =~= hist.subrange(0, s) + hist.subrange(s, t));
    }
}

/// Stripe partition: whatever the published tail, a consumer of stripe
/// `idx` out of `k` only ever delivers positions of its own residue
/// class, taken from between its head and the tail — so the union of all
/// stripes' deliveries is drawn from producer order.
pub proof fn lemma_stripe_partition(t: int, h: int, n: int, idx: int, k: int)
    requires
        1 <= n,
        1 <= k,
        0 <= idx < k,
        0 <= h,
        h % k == idx,
        0 <= t,
    ensures
        pop_pos(t, h, n, idx, k) matches Some(p) ==> p % k == idx && h <= p < t,
{
    lemma_burst_bounds(n);
    let safe = spec_safe_window(n);
    if t > h + safe {
        lemma_next_modulo(t - safe, idx, k);
    }
}

/// Distinct stripes never deliver the same record: their positions lie
/// in distinct residue classes, so the union of all stripes' deliveries
/// contains each produced record at most once, each delivered under its
/// own position of producer order.
pub proof fn lemma_stripes_disjoint(
    t1: int,
    t2: int,
    h1: int,
    h2: int,
    n: int,
    idx1: int,
    idx2: int,
    k: int,
)
    requires
        1 <= n,
        1 <= k,
        0 <= idx1 < k,
        0 <= idx2 < k,
        idx1 != idx2,
        0 <= h1,
        0 <= h2,
        h1 % k == idx1,
        h2 % k == idx2,
        0 <= t1,
        0 <= t2,
        pop_pos(t1, h1, n, idx1, k) is Some,
        pop_pos(t2, h2, n, idx2, k) is Some,
    ensures
        pop_pos(t1, h1, n, idx1, k)->Some_0 != pop_pos(t2, h2, n, idx2, k)->Some_0,
{
    lemma_stripe_partition(t1, h1, n, idx1, k);
    lemma_stripe_partition(t2, h2, n, idx2, k);
}

/// No double-delivery and no reordering within a stripe: across two
/// deliveries of the same handle, with the published tail only having
/// moved forward in between, the second position is at least one whole
/// stride past the first, and both lie on the handle's stripe.
pub proof fn lemma_stripe_monotone(t1: int, t2: int, h: int, n: int, idx: int, k: int)
    requires
        1 <= n,
        1 <= k,
        0 <= idx < k,
        0 <= h,
        h % k == idx,
        0 <= t1 <= t2,
        pop_pos(t1, h, n, idx, k) is Some,
        pop_pos(t2, pop_new_head(t1, h, n, idx, k), n, idx, k) is Some,
    ensures
        pop_pos(t2, pop_new_head(t1, h, n, idx, k), n, idx, k)->Some_0 >= pop_pos(
            t1,
            h,
            n,
            idx,
            k,
        )->Some_0 + k,
        pop_pos(t1, h, n, idx, k)->Some_0 % k == idx,
        pop_pos(t2, pop_new_head(t1, h, n, idx, k), n, idx, k)->Some_0 % k == idx,
{
    lemma_burst_bounds(n);
    let safe = spec_safe_window(n);
    let p1 = pop_pos(t1, h, n, idx, k)->Some_0;
    let h2 = pop_new_head(t1, h, n, idx, k);
    lemma_stripe_partition(t1, h, n, idx, k);
    assert(h2 == p1 + k);
    assert(h2 % k == idx) by {
        lemma_mod_add_multiples_vanish(p1, k);
    }
    lemma_stripe_partition(t2, h2, n, idx, k);
}

/// Back-pressure: while the ring holds a whole capacity of
/// unacknowledged records, the push is refused; one pop advances the
/// consumer's head past the producer's window, so once that head is
/// published the same push is no longer refused.
pub proof fn lemma_backpressure(tail: int, published_head: int, local_head: int, n: int)
    requires
        1 <= n,
        published_head <= local_head < tail,
        tail == published_head + n,
    ensures
        lossless_is_full(tail, published_head, n),
        !lossless_is_full(tail, local_head + 1, n),
{
}

/// A successful lossless push leaves every record the consumer has not
/// yet read intact: while the write frontier is within one ring of the
/// published head — which the fullness check enforces — the new record
/// lands a whole ring away from every unread slot. This is what lets
/// pushes and pops be interleaved on one channel without the producer
/// ever clobbering an unacknowledged record.
pub proof fn lemma_push_preserves_unread<T>(
    c: &lossless::consumer::Consumer,
    pre: &Channel<T>,
    post: &Channel<T>,
    value: T,
)
    requires
        c.wf(pre),
        pre.history@.len() < pre.head + pre.capacity,
        post.capacity == pre.capacity,
        post.head == pre.head,
        post.history@ == pre.history@.push(value),
        post.buffer@ == pre.buffer@.update(
            pre.history@.len() as int % pre.capacity as int,
            value,
        ),
    ensures
        c.unread_intact(post),
{
    let n = pre.capacity as int;
    let frontier = pre.history@.len() as int;
    assert forall|p: int|
        c.head <= p < post.history@.len() implies post.buffer@[p % n] == #[trigger] post.history@[p] by {
        if p < frontier {
            assert(pre.buffer@[p % n] == pre.history@[p]);
            lemma_distinct_slots(p, frontier, n);
        }
    }
}

/// Heartbeat law, first half: a poll stores the counter value it saw,
/// so a second poll that finds the counterparty's counter unchanged
/// reports no liveness — `true` comes at most once per increment.
pub proof fn lemma_heartbeat_at_most_once(shared: int, last: int, r1: bool, snap1: int, r2: bool)
    requires
        r1 == (shared != last),
        snap1 == shared,
        r2 == (shared != snap1),
    ensures
        r2 == false,
{
}

/// Heartbeat law, second half: the first poll after an increment by the
/// counterparty reports liveness.
pub proof fn lemma_heartbeat_detects_increment(shared: int, incremented: int, r: bool)
    requires
        incremented != shared,
        r == (incremented != shared),
    ensures
        r == true,
{
}

/// Restart preservation: a producer that has published everything
/// (`written == 0`) can be dropped, and any new producer joining the
/// same region adopts the published tail — which is exactly the old
/// handle's position, while the join contract leaves the slots and the
/// history of the region untouched.
pub proof fn lemma_restart_preserves_tail<T>(
    p_old: &headless_spmc::producer::Producer,
    ch: &Channel<T>,
    adopted_tail: usize,
)
    requires
        p_old.wf(ch),
        p_old.written == 0,
        adopted_tail == ch.tail,
    ensures
        adopted_tail == p_old.tail,
{
}

} // verus!
