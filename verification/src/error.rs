//! Typed failure kinds surfaced when attaching to a channel region, and
//! the error kind of the shared-memory collaborator that backs a region.

use vstd::prelude::*;

verus! {

/// Failure kind reported by the memory provider that supplies the raw
/// region bytes. The provider itself (file-descriptor acquisition,
/// mapping, unlinking) lives outside the channel core; the channel only
/// carries its failures through opaquely.
#[derive(Clone, Copy, Debug, PartialEq, Eq, Structural)]
pub enum ShmemError {
    BadFileDescriptor,
    AllocationFailedErr,
    InvalidPermissions,
    UnlinkError,
    Errno(i32),
}

/// Failure kinds surfaced by attaching to (joining or creating) a channel.
#[derive(Clone, Copy, Debug, PartialEq, Eq, Structural)]
pub enum QueError {
    /// The region's `magic` word is neither the sentinel nor zero.
    CorruptionDetected,

    /// Invalid amount of memory requested (the byte length does not fit
    /// the backing-memory API's integer range).
    InvalidSize,

    /// A consumer (or a join-only producer) attached before any producer
    /// initialized the region.
    Uninitialized,

    /// The region was initialized with a different capacity than the one
    /// the joining side was built for; carries the capacity observed in
    /// the region.
    IncorrectCapacity(usize),

    /// Opaque pass-through from the memory provider.
    ShmemError(ShmemError),

    /// A lossless push was refused because the ring is full.
    Full,
}

impl From<ShmemError> for QueError {
    fn from(value: ShmemError) -> (r: Self) {
        QueError::ShmemError(value)
    }
}

impl vstd::std_specs::convert::FromSpecImpl<ShmemError> for QueError {
    open spec fn obeys_from_spec() -> bool {
        true
    }

    open spec fn from_spec(value: ShmemError) -> Self {
        QueError::ShmemError(value)
    }
}

} // verus!
