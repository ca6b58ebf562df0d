//! Wait-free single-producer / multi-consumer ring-buffer channels.
//!
//! A [`Channel`] is a fixed-capacity circular array of slots together with
//! the control words that coordinate one producer with one or more
//! consumers: a monotonic `tail` published by the producer, a monotonic
//! `head` published by the consumer side (lossless mode only), one
//! heartbeat counter per direction, a `capacity` word and a `magic`
//! sentinel that marks an initialized region.
//!
//! Two delivery modes are built on the same channel record: a lossy
//! "headless" mode ([`headless_spmc`]) in which the producer never blocks
//! and may overrun slow consumers, and a lossless mode ([`lossless`]) in
//! which the producer refuses to overwrite unread slots and reports
//! back-pressure instead.
//!
//! The channel record models the memory region the two sides share. The
//! handles of both modes keep their private counters and take the region
//! as an explicit argument on every operation; the raw-memory collaborator
//! that maps one region into several address spaces is outside this crate.

use vstd::prelude::*;

use crate::ring::{is_pow2, spec_burst, spec_safe_window};

pub mod error;
pub mod headless_spmc;
pub mod laws;
pub mod lossless;
pub mod page_size;
pub mod ring;

verus! {

/// The 64-bit sentinel that marks an initialized channel region
/// (the ASCII bytes `"TEMPORAL"` read as a little-endian word).
pub const MAGIC: u64 = 0x4C41524F504D4554;

/// The length in bytes of the reserved metadata stripe between the
/// control words and the slot array.
pub const METADATA_LEN: usize = 112;

/// The in-memory record shared by the producer and the consumers of one
/// channel: the control words, the reserved metadata stripe, and the ring
/// of `capacity` slots.
///
/// A freshly provided region is all zeroes ([`Channel::new_zeroed`]);
/// a producer initializes it by writing `capacity` and then the `magic`
/// sentinel. `tail` counts the records the producer has published and
/// `head` the records the consumer side has acknowledged (lossless mode
/// only); both are unbounded logical positions, and position `p` lives in
/// slot `p mod capacity`.
///
/// The fields are public because the record stands for plain shared
/// memory: nothing stops other code (or another process) from scribbling
/// over it, and every operation states in its contract which well-formed
/// states it accepts. The ghost `history` records every value the
/// producer has written, in order; the central channel invariant says
/// that the most recent `capacity` of them are still in their slots.
pub struct Channel<T> {
    /// Count of records published by the producer; monotonic.
    pub tail: usize,
    /// Count of records acknowledged by the consumer side; monotonic,
    /// used in lossless mode only.
    pub head: usize,
    /// Liveness counter incremented by the producer.
    pub producer_heartbeat: usize,
    /// Liveness counter incremented by any consumer.
    pub consumer_heartbeat: usize,
    /// Reserved metadata stripe; the channel itself never interprets it.
    pub metadata: Vec<u8>,
    /// The number of slots written at initialization; a joining side
    /// compares it against the capacity it was built for.
    pub capacity: usize,
    /// `MAGIC` iff the region is initialized.
    pub magic: u64,
    /// The ring storage: slot `p mod capacity` holds the record of
    /// logical position `p` until it is overwritten.
    pub buffer: Vec<T>,
    /// Every record ever written to this region by its producers, in
    /// write order; positions at and above `tail` are not yet published.
    pub history: Ghost<Seq<T>>,
}

impl<T> Channel<T> {
    /// The region carries the initialization sentinel.
    pub open spec fn initialized(&self) -> bool {
        self.magic == MAGIC
    }

    /// Every record from the oldest still-safe position up to the write
    /// frontier is still in its slot: slot `i mod capacity` holds the
    /// record of logical position `i` for every `i` from
    /// `tail - (capacity - BURST)` up to (excluding) the length of the
    /// history. Positions further back may have been overwritten by an
    /// in-flight burst, or by a burst a crashed producer never published.
    pub open spec fn slots_match(&self) -> bool {
        forall|i: int|
            0 <= i && self.tail - spec_safe_window(self.capacity as int) <= i
                < self.history@.len()
                ==> self.buffer@[i % self.capacity as int] == #[trigger] self.history@[i]
    }

    /// Well-formedness of the region. An uninitialized or corrupt region
    /// promises nothing beyond the shape of the metadata stripe; an
    /// initialized one has a power-of-two capacity equal to its slot
    /// count, ordered counters, a published tail at most one burst behind
    /// the write frontier, and slots that match the write history.
    pub open spec fn inv(&self) -> bool {
        &&& self.metadata@.len() == METADATA_LEN
        &&& (self.initialized() ==> {
            &&& self.capacity == self.buffer@.len()
            &&& 0 < self.capacity
            &&& is_pow2(self.capacity as int)
            &&& self.head <= self.tail
            &&& self.tail <= self.history@.len()
            &&& self.history@.len() <= self.tail + spec_burst(self.capacity as int)
            &&& self.slots_match()
        })
    }

    /// A zero-initialized region with room for `capacity` slots, as the
    /// backing-memory collaborator provides it on first allocation.
    /// `zero` stands for the all-zeroes bit pattern of the slot type.
    pub fn new_zeroed(capacity: usize, zero: T) -> (c: Channel<T>) where T: Copy
        ensures
            c.magic == 0,
            c.tail == 0,
            c.head == 0,
            c.producer_heartbeat == 0,
            c.consumer_heartbeat == 0,
            c.capacity == 0,
            c.buffer@.len() == capacity,
            forall|i: int| 0 <= i < capacity ==> c.buffer@[i] == zero,
            c.history@ == Seq::<T>::empty(),
            c.metadata@.len() == METADATA_LEN,
            forall|i: int| 0 <= i < METADATA_LEN ==> c.metadata@[i] == 0u8,
            c.inv(),
    {
        let mut buffer: Vec<T> = Vec::new();
        let mut i: usize = 0;
        while i < capacity
            invariant
                i <= capacity,
                buffer@.len() == i,
                forall|j: int| 0 <= j < i ==> buffer@[j] == zero,
            decreases capacity - i,
        {
            buffer.push(zero);
            i = i + 1;
        }
        let mut metadata: Vec<u8> = Vec::new();
        let mut m: usize = 0;
        while m < METADATA_LEN
            invariant
                m <= METADATA_LEN,
                metadata@.len() == m,
                forall|j: int| 0 <= j < m ==> metadata@[j] == 0u8,
            decreases METADATA_LEN - m,
        {
            metadata.push(0u8);
            m = m + 1;
        }
        Channel {
            tail: 0,
            head: 0,
            producer_heartbeat: 0,
            consumer_heartbeat: 0,
            metadata,
            capacity: 0,
            magic: 0,
            buffer,
            history: Ghost(Seq::empty()),
        }
    }

    /// One byte of the reserved metadata stripe. The channel never
    /// interprets the stripe; its meaning belongs to the user.
    pub fn metadata_read(&self, i: usize) -> (b: u8)
        requires
            i < self.metadata@.len(),
        ensures
            b == self.metadata@[i as int],
    {
        self.metadata[i]
    }

    /// Writes one byte of the reserved metadata stripe; no other part of
    /// the region changes.
    pub fn metadata_write(&mut self, i: usize, b: u8)
        requires
            i < old(self).metadata@.len(),
        ensures
            final(self).metadata@ == old(self).metadata@.update(i as int, b),
            final(self).tail == old(self).tail,
            final(self).head == old(self).head,
            final(self).producer_heartbeat == old(self).producer_heartbeat,
            final(self).consumer_heartbeat == old(self).consumer_heartbeat,
            final(self).capacity == old(self).capacity,
            final(self).magic == old(self).magic,
            final(self).buffer@ == old(self).buffer@,
            final(self).history@ == old(self).history@,
            old(self).inv() ==> final(self).inv(),
    {
        self.metadata[i] = b;
    }
}

} // verus!
