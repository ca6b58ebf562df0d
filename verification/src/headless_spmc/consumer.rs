//! The lossy consumer: reads records behind the published tail, detects
//! being overrun, and supports striped multi-consumer fan-out, in which
//! consumer `k` of `interval` delivers exactly the logical positions
//! congruent to `k` modulo `interval`.

use vstd::prelude::*;

use crate::error::QueError;
use crate::ring::{
    burst_amount, is_pow2, lemma_next_modulo, next_modulo, pop_new_head, pop_pos,
    spec_next_modulo, wrap_inc,
};
use crate::{Channel, MAGIC};
use vstd::arithmetic::div_mod::{lemma_mod_add_multiples_vanish, lemma_small_mod};

verus! {

/// Private per-consumer state: the local read position, the stripe this
/// handle serves, and the last producer-heartbeat value seen.
#[derive(Debug)]
pub struct Consumer {
    /// The next logical position this consumer will try to read; always
    /// on this consumer's stripe.
    pub head: usize,
    /// The stride of the striping discipline: this channel is served by
    /// `interval` cooperating consumers.
    pub interval: usize,
    /// Which stripe this handle delivers: positions congruent to
    /// `consumer_index` modulo `interval`.
    pub consumer_index: usize,
    /// Snapshot of the channel's producer heartbeat at the last poll.
    pub last_producer_heartbeat: usize,
}

impl Consumer {
    /// The handle's own stripe discipline: a stride in `[1, 64]`, an
    /// index within the stride, and a head parked on its own stripe.
    pub open spec fn wf_handle(&self) -> bool {
        &&& 1 <= self.interval <= 64
        &&& self.consumer_index < self.interval
        &&& self.head as int % self.interval as int == self.consumer_index
    }

    /// The handle agrees with the channel it reads from.
    pub open spec fn wf<T>(&self, ch: &Channel<T>) -> bool {
        &&& ch.inv()
        &&& ch.initialized()
        &&& self.wf_handle()
    }

    /// Joins an existing channel as the single consumer
    /// (`interval == 1`).
    pub fn join<T>(ch: &mut Channel<T>, n: usize) -> (r: Result<Consumer, QueError>)
        requires
            old(ch).inv(),
            1 <= n,
            is_pow2(n as int),
            old(ch).tail < usize::MAX,
        ensures
            final(ch).inv(),
            final(ch).tail == old(ch).tail,
            final(ch).head == old(ch).head,
            final(ch).producer_heartbeat == old(ch).producer_heartbeat,
            final(ch).capacity == old(ch).capacity,
            final(ch).magic == old(ch).magic,
            final(ch).buffer@ == old(ch).buffer@,
            final(ch).metadata@ == old(ch).metadata@,
            final(ch).history@ == old(ch).history@,
            old(ch).magic == MAGIC && old(ch).capacity != n ==> r == Err::<Consumer, QueError>(
                QueError::IncorrectCapacity(old(ch).capacity),
            ) && final(ch).consumer_heartbeat == old(ch).consumer_heartbeat,
            old(ch).magic == MAGIC && old(ch).capacity == n ==> {
                &&& r is Ok
                &&& r->Ok_0.wf(final(ch))
                &&& r->Ok_0.head == old(ch).tail
                &&& r->Ok_0.interval == 1
                &&& r->Ok_0.consumer_index == 0
                &&& r->Ok_0.last_producer_heartbeat == old(ch).producer_heartbeat
                &&& final(ch).consumer_heartbeat as int == wrap_inc(
                    old(ch).consumer_heartbeat as int,
                )
            },
            old(ch).magic == 0 ==> r == Err::<Consumer, QueError>(QueError::Uninitialized)
                && final(ch).consumer_heartbeat == old(ch).consumer_heartbeat,
            old(ch).magic != MAGIC && old(ch).magic != 0 ==> r == Err::<Consumer, QueError>(
                QueError::CorruptionDetected,
            ) && final(ch).consumer_heartbeat == old(ch).consumer_heartbeat,
    {
        let r = Self::join_multi(ch, n, 1);
        proof {
            if old(ch).magic == MAGIC && old(ch).capacity == n {
                lemma_next_modulo(old(ch).tail as int, 0, 1);
                lemma_small_mod(0nat, 1nat);
            }
        }
        r
    }

    /// Joins an existing channel as the primary of `interval` striped
    /// consumers (`consumer_index == 0`); further stripes are served by
    /// handles from [`Consumer::next_multi`]. The head starts at the
    /// first position of this stripe at or after the current tail: the
    /// channel is taken to be empty at the moment of joining.
    pub fn join_multi<T>(ch: &mut Channel<T>, n: usize, interval: usize) -> (r: Result<
        Consumer,
        QueError,
    >)
        requires
            old(ch).inv(),
            1 <= n,
            is_pow2(n as int),
            1 <= interval <= 64,
            old(ch).tail + interval <= usize::MAX,
        ensures
            final(ch).inv(),
            final(ch).tail == old(ch).tail,
            final(ch).head == old(ch).head,
            final(ch).producer_heartbeat == old(ch).producer_heartbeat,
            final(ch).capacity == old(ch).capacity,
            final(ch).magic == old(ch).magic,
            final(ch).buffer@ == old(ch).buffer@,
            final(ch).metadata@ == old(ch).metadata@,
            final(ch).history@ == old(ch).history@,
            old(ch).magic == MAGIC && old(ch).capacity != n ==> r == Err::<Consumer, QueError>(
                QueError::IncorrectCapacity(old(ch).capacity),
            ) && final(ch).consumer_heartbeat == old(ch).consumer_heartbeat,
            old(ch).magic == MAGIC && old(ch).capacity == n ==> {
                &&& r is Ok
                &&& r->Ok_0.wf(final(ch))
                &&& r->Ok_0.head as int == spec_next_modulo(old(ch).tail as int, 0, interval as int)
                &&& old(ch).tail <= r->Ok_0.head < old(ch).tail + interval
                &&& r->Ok_0.interval == interval
                &&& r->Ok_0.consumer_index == 0
                &&& r->Ok_0.last_producer_heartbeat == old(ch).producer_heartbeat
                &&& final(ch).consumer_heartbeat as int == wrap_inc(
                    old(ch).consumer_heartbeat as int,
                )
            },
            old(ch).magic == 0 ==> r == Err::<Consumer, QueError>(QueError::Uninitialized)
                && final(ch).consumer_heartbeat == old(ch).consumer_heartbeat,
            old(ch).magic != MAGIC && old(ch).magic != 0 ==> r == Err::<Consumer, QueError>(
                QueError::CorruptionDetected,
            ) && final(ch).consumer_heartbeat == old(ch).consumer_heartbeat,
    {
        let magic = ch.magic;
        if magic == MAGIC {
            if ch.capacity != n {
                return Err(QueError::IncorrectCapacity(ch.capacity));
            }
            // The channel is taken to be empty upon joining.
            let head = next_modulo(ch.tail, 0, interval);
            ch.consumer_heartbeat = if ch.consumer_heartbeat == usize::MAX {
                0
            } else {
                ch.consumer_heartbeat + 1
            };
            Ok(
                Consumer {
                    head,
                    interval,
                    consumer_index: 0,
                    last_producer_heartbeat: ch.producer_heartbeat,
                },
            )
        } else if magic == 0 {
            Err(QueError::Uninitialized)
        } else {
            Err(QueError::CorruptionDetected)
        }
    }

    /// A handle for the next stripe: same channel, stripe index one
    /// higher, head one position further. Returns nothing when this
    /// handle already serves the last stripe.
    pub fn next_multi(&self) -> (r: Option<Consumer>)
        requires
            self.wf_handle(),
            self.head < usize::MAX,
        ensures
            (self.consumer_index + 1 == self.interval) == (r is None),
            r is Some ==> {
                &&& r->Some_0.wf_handle()
                &&& r->Some_0.head == self.head + 1
                &&& r->Some_0.interval == self.interval
                &&& r->Some_0.consumer_index == self.consumer_index + 1
                &&& r->Some_0.last_producer_heartbeat == self.last_producer_heartbeat
            },
    {
        if self.consumer_index + 1 == self.interval {
            None
        } else {
            proof {
                lemma_mod_add_multiples_vanish(self.head as int, self.interval as int);
                lemma_add_mod_noop_step(
                    self.head as int,
                    self.consumer_index as int,
                    self.interval as int,
                );
            }
            Some(
                Consumer {
                    consumer_index: self.consumer_index + 1,
                    head: self.head + 1,
                    interval: self.interval,
                    last_producer_heartbeat: self.last_producer_heartbeat,
                },
            )
        }
    }

    /// Attempts to read the record at this consumer's head position.
    ///
    /// Returns nothing while the published tail has not passed the head.
    /// If the producer has lapped into this consumer's safe window, the
    /// head first skips forward to the oldest still-safe position of its
    /// own stripe and the read is retried once from there. The result
    /// and the new head follow [`pop_pos`] and [`pop_new_head`] exactly:
    /// a delivered record is the one written at the delivered position.
    pub fn pop<T: Copy>(&mut self, ch: &Channel<T>) -> (r: Option<T>)
        requires
            old(self).wf(ch),
            ch.tail + 2 * old(self).interval <= usize::MAX,
            old(self).head + old(self).interval <= usize::MAX,
        ensures
            final(self).wf(ch),
            final(self).interval == old(self).interval,
            final(self).consumer_index == old(self).consumer_index,
            final(self).last_producer_heartbeat == old(self).last_producer_heartbeat,
            final(self).head as int == pop_new_head(
                ch.tail as int,
                old(self).head as int,
                ch.capacity as int,
                old(self).consumer_index as int,
                old(self).interval as int,
            ),
            r == (match pop_pos(
                ch.tail as int,
                old(self).head as int,
                ch.capacity as int,
                old(self).consumer_index as int,
                old(self).interval as int,
            ) {
                Some(p) => Some(ch.history@[p]),
                None => None::<T>,
            }),
    {
        let n = ch.capacity;
        let b = burst_amount(n);
        let safe = n - b;
        let t = ch.tail;
        let mut h = self.head;

        // Nothing published past our head: the channel is empty for us.
        if t <= h {
            return None;
        }
        // Overrun: the producer has lapped into the safe window. Skip to
        // the oldest still-safe position of our own stripe.
        if t - h > safe {
            h = next_modulo(t - safe, self.consumer_index, self.interval);
            if t <= h {
                self.head = h;
                return None;
            }
        }
        let value = ch.buffer[h % n];
        proof {
            lemma_mod_add_multiples_vanish(h as int, self.interval as int);
        }
        self.head = h + self.interval;
        Some(value)
    }

    /// Increments the shared consumer heartbeat (wrapping, as a shared
    /// machine word does), advertising that at least one consumer is
    /// alive. All sibling stripes share this counter.
    pub fn beat<T>(&self, ch: &mut Channel<T>)
        ensures
            final(ch).consumer_heartbeat as int == wrap_inc(old(ch).consumer_heartbeat as int),
            final(ch).tail == old(ch).tail,
            final(ch).head == old(ch).head,
            final(ch).producer_heartbeat == old(ch).producer_heartbeat,
            final(ch).capacity == old(ch).capacity,
            final(ch).magic == old(ch).magic,
            final(ch).buffer@ == old(ch).buffer@,
            final(ch).metadata@ == old(ch).metadata@,
            final(ch).history@ == old(ch).history@,
            old(ch).inv() ==> final(ch).inv(),
    {
        ch.consumer_heartbeat = if ch.consumer_heartbeat == usize::MAX {
            0
        } else {
            ch.consumer_heartbeat + 1
        };
    }

    /// Reports whether the producer has incremented its heartbeat since
    /// this consumer last looked, and remembers the value seen.
    pub fn producer_heartbeat<T>(&mut self, ch: &Channel<T>) -> (r: bool)
        ensures
            r == (ch.producer_heartbeat != old(self).last_producer_heartbeat),
            final(self).last_producer_heartbeat == ch.producer_heartbeat,
            final(self).head == old(self).head,
            final(self).interval == old(self).interval,
            final(self).consumer_index == old(self).consumer_index,
    {
        let heartbeat = ch.producer_heartbeat;
        if heartbeat != self.last_producer_heartbeat {
            self.last_producer_heartbeat = heartbeat;
            true
        } else {
            false
        }
    }
}

/// Stepping one position forward moves one stripe forward:
/// `(h + 1) % k == i + 1` when `h % k == i` and `i + 1 < k`.
proof fn lemma_add_mod_noop_step(h: int, i: int, k: int)
    requires
        1 <= k,
        0 <= i,
        i + 1 < k,
        h % k == i,
        0 <= h,
    ensures
        (h + 1) % k == i + 1,
{
    vstd::arithmetic::div_mod::lemma_fundamental_div_mod(h, k);
    let q = h / k;
    assert(h + 1 == k * q + (i + 1));
    vstd::arithmetic::div_mod::lemma_mod_multiples_vanish(q, i + 1, k);
    lemma_small_mod((i + 1) as nat, k as nat);
}

} // verus!
