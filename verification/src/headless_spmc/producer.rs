//! The lossy producer: writes records into successive ring slots,
//! batches visibility updates, and emits heartbeats. It never blocks and
//! never fails; a push can overwrite a record a slow consumer has not
//! read yet.

use vstd::prelude::*;

use crate::error::QueError;
use crate::ring::{burst_amount, is_pow2, lemma_distinct_slots, spec_burst, wrap_inc};
use crate::{Channel, MAGIC};

verus! {

/// Private per-producer state: the local write position, the number of
/// writes not yet published, and the last consumer-heartbeat value seen.
#[derive(Debug)]
pub struct Producer {
    /// The next logical position this producer will write; runs ahead of
    /// the channel's published `tail` by at most one burst.
    pub tail: usize,
    /// Number of records written since the last publication of `tail`.
    pub written: usize,
    /// Snapshot of the channel's consumer heartbeat at the last poll.
    pub last_consumer_heartbeat: usize,
}

impl Producer {
    /// The handle agrees with the channel it writes to: the channel is an
    /// initialized well-formed region, the handle's local tail is the
    /// write frontier of the channel's history, and `written` counts
    /// exactly the writes not yet published.
    pub open spec fn wf<T>(&self, ch: &Channel<T>) -> bool {
        &&& ch.inv()
        &&& ch.initialized()
        &&& self.tail == ch.history@.len()
        &&& self.written == self.tail - ch.tail
    }

    /// Initializes the channel in `ch` if the region is still zeroed, or
    /// joins it if it is already initialized, and returns a producer
    /// handle.
    ///
    /// On a zeroed region the control words are written in
    /// initialization order (`tail`, `producer_heartbeat`, `capacity`,
    /// and `magic` last). On an initialized region the capacity is
    /// checked against `n` and the current tail is adopted; any pending
    /// unpublished suffix of a previous producer's history is abandoned.
    /// A region whose magic word is neither the sentinel nor zero is
    /// reported as corrupted.
    pub fn initialize_in<T>(ch: &mut Channel<T>, n: usize) -> (r: Result<Producer, QueError>)
        requires
            old(ch).inv(),
            1 <= n,
            is_pow2(n as int),
            old(ch).magic == 0 ==> old(ch).buffer@.len() == n && old(ch).head == 0,
        ensures
            final(ch).inv(),
            old(ch).magic == MAGIC && old(ch).capacity != n ==> r == Err::<Producer, QueError>(
                QueError::IncorrectCapacity(old(ch).capacity),
            ) && *final(ch) == *old(ch),
            old(ch).magic == MAGIC && old(ch).capacity == n ==> {
                &&& r is Ok
                &&& r->Ok_0.wf(final(ch))
                &&& r->Ok_0.tail == old(ch).tail
                &&& r->Ok_0.written == 0
                &&& r->Ok_0.last_consumer_heartbeat == old(ch).consumer_heartbeat
                &&& final(ch).producer_heartbeat as int == wrap_inc(
                    old(ch).producer_heartbeat as int,
                )
                &&& final(ch).tail == old(ch).tail
                &&& final(ch).head == old(ch).head
                &&& final(ch).consumer_heartbeat == old(ch).consumer_heartbeat
                &&& final(ch).capacity == old(ch).capacity
                &&& final(ch).magic == old(ch).magic
                &&& final(ch).buffer@ == old(ch).buffer@
                &&& final(ch).metadata@ == old(ch).metadata@
                &&& final(ch).history@ == old(ch).history@.take(old(ch).tail as int)
            },
            old(ch).magic == 0 ==> {
                &&& r is Ok
                &&& r->Ok_0.wf(final(ch))
                &&& r->Ok_0.tail == 0
                &&& r->Ok_0.written == 0
                &&& r->Ok_0.last_consumer_heartbeat == old(ch).consumer_heartbeat
                &&& final(ch).tail == 0
                &&& final(ch).head == old(ch).head
                &&& final(ch).producer_heartbeat == 0
                &&& final(ch).consumer_heartbeat == old(ch).consumer_heartbeat
                &&& final(ch).capacity == n
                &&& final(ch).magic == MAGIC
                &&& final(ch).buffer@ == old(ch).buffer@
                &&& final(ch).metadata@ == old(ch).metadata@
                &&& final(ch).history@ == Seq::<T>::empty()
            },
            old(ch).magic != MAGIC && old(ch).magic != 0 ==> r == Err::<Producer, QueError>(
                QueError::CorruptionDetected,
            ) && *final(ch) == *old(ch),
    {
        let magic = ch.magic;
        let capacity = ch.capacity;
        if magic == MAGIC {
            if capacity != n {
                return Err(QueError::IncorrectCapacity(capacity));
            }
            ch.producer_heartbeat = if ch.producer_heartbeat == usize::MAX {
                0
            } else {
                ch.producer_heartbeat + 1
            };
            proof {
                ch.history@ = ch.history@.take(ch.tail as int);
            }
            Ok(Producer { tail: ch.tail, written: 0, last_consumer_heartbeat: ch.consumer_heartbeat })
        } else if magic == 0 {
            ch.tail = 0;
            ch.producer_heartbeat = 0;
            ch.capacity = n;
            ch.magic = MAGIC;
            proof {
                ch.history@ = Seq::empty();
            }
            Ok(Producer { tail: 0, written: 0, last_consumer_heartbeat: ch.consumer_heartbeat })
        } else {
            Err(QueError::CorruptionDetected)
        }
    }

    /// Joins an existing channel as a producer, adopting its current
    /// tail; fails on an uninitialized or corrupt region and on a
    /// capacity mismatch. The region's control words and slots are left
    /// untouched, so previously published records stay readable.
    pub fn join<T>(ch: &mut Channel<T>, n: usize) -> (r: Result<Producer, QueError>)
        requires
            old(ch).inv(),
            1 <= n,
            is_pow2(n as int),
        ensures
            final(ch).inv(),
            final(ch).tail == old(ch).tail,
            final(ch).head == old(ch).head,
            final(ch).producer_heartbeat == old(ch).producer_heartbeat,
            final(ch).consumer_heartbeat == old(ch).consumer_heartbeat,
            final(ch).capacity == old(ch).capacity,
            final(ch).magic == old(ch).magic,
            final(ch).buffer@ == old(ch).buffer@,
            final(ch).metadata@ == old(ch).metadata@,
            old(ch).magic == MAGIC && old(ch).capacity != n ==> r == Err::<Producer, QueError>(
                QueError::IncorrectCapacity(old(ch).capacity),
            ) && final(ch).history@ == old(ch).history@,
            old(ch).magic == MAGIC && old(ch).capacity == n ==> {
                &&& r is Ok
                &&& r->Ok_0.wf(final(ch))
                &&& r->Ok_0.tail == old(ch).tail
                &&& r->Ok_0.written == 0
                &&& r->Ok_0.last_consumer_heartbeat == old(ch).consumer_heartbeat
                &&& final(ch).history@ == old(ch).history@.take(old(ch).tail as int)
            },
            old(ch).magic == 0 ==> r == Err::<Producer, QueError>(QueError::Uninitialized)
                && final(ch).history@ == old(ch).history@,
            old(ch).magic != MAGIC && old(ch).magic != 0 ==> r == Err::<Producer, QueError>(
                QueError::CorruptionDetected,
            ) && final(ch).history@ == old(ch).history@,
    {
        let magic = ch.magic;
        let capacity = ch.capacity;
        if magic == MAGIC {
            if capacity != n {
                return Err(QueError::IncorrectCapacity(capacity));
            }
            proof {
                ch.history@ = ch.history@.take(ch.tail as int);
            }
            Ok(Producer { tail: ch.tail, written: 0, last_consumer_heartbeat: ch.consumer_heartbeat })
        } else if magic == 0 {
            Err(QueError::Uninitialized)
        } else {
            Err(QueError::CorruptionDetected)
        }
    }

    /// Publishes the local tail into the channel, making every record
    /// written so far visible to consumers. This is the sole publication
    /// point of the producer.
    pub fn sync<T>(&mut self, ch: &mut Channel<T>)
        requires
            old(self).wf(old(ch)),
        ensures
            final(self).wf(final(ch)),
            final(self).tail == old(self).tail,
            final(self).written == 0,
            final(self).last_consumer_heartbeat == old(self).last_consumer_heartbeat,
            final(ch).tail == old(self).tail,
            final(ch).head == old(ch).head,
            final(ch).producer_heartbeat == old(ch).producer_heartbeat,
            final(ch).consumer_heartbeat == old(ch).consumer_heartbeat,
            final(ch).capacity == old(ch).capacity,
            final(ch).magic == old(ch).magic,
            final(ch).buffer@ == old(ch).buffer@,
            final(ch).metadata@ == old(ch).metadata@,
            final(ch).history@ == old(ch).history@,
    {
        self.written = 0;
        ch.tail = self.tail;
    }

    /// Writes a record into the next ring slot. If a full burst has
    /// accumulated unpublished, the tail is published first; the record
    /// itself becomes visible at the next publication.
    pub fn push<T: Copy>(&mut self, ch: &mut Channel<T>, value: &T)
        requires
            old(self).wf(old(ch)),
            old(self).tail < usize::MAX,
        ensures
            final(self).wf(final(ch)),
            final(self).tail == old(self).tail + 1,
            final(self).last_consumer_heartbeat == old(self).last_consumer_heartbeat,
            final(self).written == (if old(self).written == spec_burst(old(ch).capacity as int) {
                1int
            } else {
                old(self).written + 1
            }),
            final(ch).tail == (if old(self).written == spec_burst(old(ch).capacity as int) {
                old(self).tail
            } else {
                old(ch).tail
            }),
            final(ch).history@ == old(ch).history@.push(*value),
            final(ch).buffer@ == old(ch).buffer@.update(
                old(self).tail as int % old(ch).capacity as int,
                *value,
            ),
            final(ch).head == old(ch).head,
            final(ch).producer_heartbeat == old(ch).producer_heartbeat,
            final(ch).consumer_heartbeat == old(ch).consumer_heartbeat,
            final(ch).capacity == old(ch).capacity,
            final(ch).magic == old(ch).magic,
            final(ch).metadata@ == old(ch).metadata@,
    {
        if self.written == burst_amount(ch.capacity) {
            self.sync(ch);
        }
        let ghost pre_buffer = ch.buffer@;
        let ghost pre_history = ch.history@;
        let ghost pre_tail = ch.tail as int;
        let index = self.tail % ch.capacity;
        ch.buffer[index] = *value;
        proof {
            ch.history@ = ch.history@.push(*value);
        }
        self.tail = self.tail + 1;
        self.written = self.written + 1;
        proof {
            let n = ch.capacity as int;
            let frontier = pre_history.len() as int;
            let safe = n - spec_burst(n);
            assert forall|p: int|
                0 <= p && ch.tail - n + spec_burst(n) <= p < ch.history@.len()
                    implies ch.buffer@[p % n] == #[trigger] ch.history@[p] by {
                if p < frontier {
                    // An older record within the safe window: its slot is
                    // untouched because the new write landed strictly less
                    // than one ring length ahead of it.
                    assert(pre_buffer[p % n] == pre_history[p]);
                    lemma_distinct_slots(p, frontier, n);
                }
            }
        }
    }

    /// Increments the producer heartbeat (wrapping, as a shared machine
    /// word does), advertising liveness to the consumers.
    pub fn beat<T>(&self, ch: &mut Channel<T>)
        ensures
            final(ch).producer_heartbeat as int == wrap_inc(old(ch).producer_heartbeat as int),
            final(ch).tail == old(ch).tail,
            final(ch).head == old(ch).head,
            final(ch).consumer_heartbeat == old(ch).consumer_heartbeat,
            final(ch).capacity == old(ch).capacity,
            final(ch).magic == old(ch).magic,
            final(ch).buffer@ == old(ch).buffer@,
            final(ch).metadata@ == old(ch).metadata@,
            final(ch).history@ == old(ch).history@,
            old(ch).inv() ==> final(ch).inv(),
    {
        ch.producer_heartbeat = if ch.producer_heartbeat == usize::MAX {
            0
        } else {
            ch.producer_heartbeat + 1
        };
    }

    /// Reports whether some consumer has incremented its heartbeat since
    /// this producer last looked, and remembers the value seen.
    pub fn consumer_heartbeat<T>(&mut self, ch: &Channel<T>) -> (r: bool)
        ensures
            r == (ch.consumer_heartbeat != old(self).last_consumer_heartbeat),
            final(self).last_consumer_heartbeat == ch.consumer_heartbeat,
            final(self).tail == old(self).tail,
            final(self).written == old(self).written,
    {
        let heartbeat = ch.consumer_heartbeat;
        if heartbeat != self.last_consumer_heartbeat {
            self.last_consumer_heartbeat = heartbeat;
            true
        } else {
            false
        }
    }
}

} // verus!
