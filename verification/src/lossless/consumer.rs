//! The back-pressured consumer: like the lossy one, but it publishes its
//! head into the channel on the same cadence the producer publishes its
//! tail, so the producer can observe occupancy and refuse to overrun.
//! Because the producer never overwrites an unacknowledged slot, this
//! consumer needs no overrun check.

use vstd::prelude::*;

use crate::error::QueError;
use crate::ring::{burst_amount, is_pow2, spec_burst, wrap_inc};
use crate::{Channel, MAGIC};

verus! {

/// Private per-consumer state: the local read position, the count of
/// reads not yet published, and the last producer-heartbeat value seen.
#[derive(Debug)]
pub struct Consumer {
    /// The next logical position this consumer will read.
    pub head: usize,
    /// Number of records read since the last publication of `head`.
    pub items_since_last_sync: usize,
    /// Reserved for a striping discipline; the lossless consumer always
    /// serves the whole position space.
    pub consumer_index: usize,
    /// Snapshot of the channel's producer heartbeat at the last poll.
    pub last_producer_heartbeat: usize,
}

impl Consumer {
    /// Every record from this consumer's head to the write frontier is
    /// still in its slot. The lossless producer's fullness check never
    /// writes more than one ring ahead of the published head, and the
    /// published head never passes this consumer's local head, so this
    /// is maintained across pushes.
    pub open spec fn unread_intact<T>(&self, ch: &Channel<T>) -> bool {
        forall|p: int|
            self.head <= p < ch.history@.len() ==> ch.buffer@[p % ch.capacity as int]
                == #[trigger] ch.history@[p]
    }

    /// The handle agrees with the channel it reads from: the channel is
    /// an initialized well-formed region, the published head trails the
    /// local head which trails the published tail, the unpublished read
    /// count is below one burst, and every unread record is intact.
    pub open spec fn wf<T>(&self, ch: &Channel<T>) -> bool {
        &&& ch.inv()
        &&& ch.initialized()
        &&& ch.head <= self.head <= ch.tail
        &&& self.items_since_last_sync < spec_burst(ch.capacity as int)
        &&& self.unread_intact(ch)
    }

    /// Joins an existing channel as the consumer, taking the channel to
    /// be empty at the moment of joining: the local head adopts the
    /// current tail and is published immediately.
    pub fn join<T>(ch: &mut Channel<T>, n: usize) -> (r: Result<Consumer, QueError>)
        requires
            old(ch).inv(),
            1 <= n,
            is_pow2(n as int),
        ensures
            final(ch).inv(),
            final(ch).tail == old(ch).tail,
            final(ch).producer_heartbeat == old(ch).producer_heartbeat,
            final(ch).consumer_heartbeat == old(ch).consumer_heartbeat,
            final(ch).capacity == old(ch).capacity,
            final(ch).magic == old(ch).magic,
            final(ch).buffer@ == old(ch).buffer@,
            final(ch).metadata@ == old(ch).metadata@,
            final(ch).history@ == old(ch).history@,
            old(ch).magic == MAGIC && old(ch).capacity != n ==> r == Err::<Consumer, QueError>(
                QueError::IncorrectCapacity(old(ch).capacity),
            ) && final(ch).head == old(ch).head,
            old(ch).magic == MAGIC && old(ch).capacity == n ==> {
                &&& r is Ok
                &&& r->Ok_0.wf(final(ch))
                &&& r->Ok_0.head == old(ch).tail
                &&& r->Ok_0.items_since_last_sync == 0
                &&& r->Ok_0.consumer_index == 0
                &&& r->Ok_0.last_producer_heartbeat == old(ch).producer_heartbeat
                &&& final(ch).head == old(ch).tail
            },
            old(ch).magic == 0 ==> r == Err::<Consumer, QueError>(QueError::Uninitialized)
                && final(ch).head == old(ch).head,
            old(ch).magic != MAGIC && old(ch).magic != 0 ==> r == Err::<Consumer, QueError>(
                QueError::CorruptionDetected,
            ) && final(ch).head == old(ch).head,
    {
        let magic = ch.magic;
        if magic == MAGIC {
            if ch.capacity != n {
                return Err(QueError::IncorrectCapacity(ch.capacity));
            }
            // The channel is taken to be empty upon joining.
            let new_head = ch.tail;
            ch.head = new_head;
            Ok(
                Consumer {
                    head: new_head,
                    items_since_last_sync: 0,
                    consumer_index: 0,
                    last_producer_heartbeat: ch.producer_heartbeat,
                },
            )
        } else if magic == 0 {
            Err(QueError::Uninitialized)
        } else {
            Err(QueError::CorruptionDetected)
        }
    }

    /// Attempts to read the record at this consumer's head position.
    /// Returns nothing while the published tail has not passed the head;
    /// otherwise delivers the record written at the head position,
    /// advances the head, and publishes it once a full burst of reads
    /// has accumulated.
    pub fn pop<T: Copy>(&mut self, ch: &mut Channel<T>) -> (r: Option<T>)
        requires
            old(self).wf(old(ch)),
        ensures
            final(self).wf(final(ch)),
            final(self).consumer_index == old(self).consumer_index,
            final(self).last_producer_heartbeat == old(self).last_producer_heartbeat,
            old(ch).tail <= old(self).head
                ==> r is None && *final(self) == *old(self) && *final(ch) == *old(ch),
            old(ch).tail > old(self).head ==> {
                &&& r == Some(old(ch).history@[old(self).head as int])
                &&& final(self).head == old(self).head + 1
                &&& final(self).items_since_last_sync == (if old(self).items_since_last_sync + 1
                    == spec_burst(old(ch).capacity as int) {
                    0int
                } else {
                    old(self).items_since_last_sync + 1
                })
                &&& final(ch).head == (if old(self).items_since_last_sync + 1 == spec_burst(
                    old(ch).capacity as int,
                ) {
                    old(self).head + 1
                } else {
                    old(ch).head as int
                })
                &&& final(ch).tail == old(ch).tail
                &&& final(ch).producer_heartbeat == old(ch).producer_heartbeat
                &&& final(ch).consumer_heartbeat == old(ch).consumer_heartbeat
                &&& final(ch).capacity == old(ch).capacity
                &&& final(ch).magic == old(ch).magic
                &&& final(ch).buffer@ == old(ch).buffer@
                &&& final(ch).metadata@ == old(ch).metadata@
                &&& final(ch).history@ == old(ch).history@
            },
    {
        let t = ch.tail;
        if t <= self.head {
            return None;
        }
        let value = ch.buffer[self.head % ch.capacity];
        self.head = self.head + 1;
        self.items_since_last_sync = self.items_since_last_sync + 1;
        self.maybe_sync(ch);
        Some(value)
    }

    /// Publishes the local head once a full burst of reads has
    /// accumulated, letting the producer observe the freed slots.
    fn maybe_sync<T>(&mut self, ch: &mut Channel<T>)
        requires
            old(ch).inv(),
            old(ch).initialized(),
            old(ch).head <= old(self).head <= old(ch).tail,
            old(self).items_since_last_sync <= spec_burst(old(ch).capacity as int),
        ensures
            final(ch).inv(),
            final(self).head == old(self).head,
            final(self).consumer_index == old(self).consumer_index,
            final(self).last_producer_heartbeat == old(self).last_producer_heartbeat,
            final(ch).tail == old(ch).tail,
            final(ch).producer_heartbeat == old(ch).producer_heartbeat,
            final(ch).consumer_heartbeat == old(ch).consumer_heartbeat,
            final(ch).capacity == old(ch).capacity,
            final(ch).magic == old(ch).magic,
            final(ch).buffer@ == old(ch).buffer@,
            final(ch).metadata@ == old(ch).metadata@,
            final(ch).history@ == old(ch).history@,
            old(self).items_since_last_sync == spec_burst(old(ch).capacity as int)
                ==> final(ch).head == old(self).head && final(self).items_since_last_sync == 0,
            old(self).items_since_last_sync < spec_burst(old(ch).capacity as int)
                ==> final(ch).head == old(ch).head
                    && final(self).items_since_last_sync == old(self).items_since_last_sync,
    {
        let do_sync = self.items_since_last_sync >= burst_amount(ch.capacity);
        if do_sync {
            self.items_since_last_sync = 0;
            ch.head = self.head;
        }
    }

    /// Increments the consumer heartbeat (wrapping, as a shared machine
    /// word does), advertising liveness to the producer.
    pub fn beat<T>(&self, ch: &mut Channel<T>)
        ensures
            final(ch).consumer_heartbeat as int == wrap_inc(old(ch).consumer_heartbeat as int),
            final(ch).tail == old(ch).tail,
            final(ch).head == old(ch).head,
            final(ch).producer_heartbeat == old(ch).producer_heartbeat,
            final(ch).capacity == old(ch).capacity,
            final(ch).magic == old(ch).magic,
            final(ch).buffer@ == old(ch).buffer@,
            final(ch).metadata@ == old(ch).metadata@,
            final(ch).history@ == old(ch).history@,
            old(ch).inv() ==> final(ch).inv(),
    {
        ch.consumer_heartbeat = if ch.consumer_heartbeat == usize::MAX {
            0
        } else {
            ch.consumer_heartbeat + 1
        };
    }

    /// Reports whether the producer has incremented its heartbeat since
    /// this consumer last looked, and remembers the value seen.
    pub fn producer_heartbeat<T>(&mut self, ch: &Channel<T>) -> (r: bool)
        ensures
            r == (ch.producer_heartbeat != old(self).last_producer_heartbeat),
            final(self).last_producer_heartbeat == ch.producer_heartbeat,
            final(self).head == old(self).head,
            final(self).items_since_last_sync == old(self).items_since_last_sync,
            final(self).consumer_index == old(self).consumer_index,
    {
        let heartbeat = ch.producer_heartbeat;
        if heartbeat != self.last_producer_heartbeat {
            self.last_producer_heartbeat = heartbeat;
            true
        } else {
            false
        }
    }
}

} // verus!
