pub mod center;
pub mod clock;
pub mod metadata;
pub mod motive;
pub mod probe;
pub mod resolve;
pub mod scan;
pub mod slot_verifier;
pub mod text;

use vstd::prelude::*;

verus! {

/// What can go wrong while scanning one center. Every one of these is caught
/// at the orchestrator boundary and degrades that center's count to zero.
#[derive(Clone, Copy, PartialEq, Eq, Structural, Debug)]
pub enum ScanError {
    /// The booking-page URL carries no center slug or no practice-id hint.
    MalformedUrl,
    /// The metadata document lacks a required field.
    MalformedMetadata,
    /// The metadata document could not be fetched or decoded.
    MetadataFetchError,
    /// The availability calendar could not be fetched or decoded.
    ProbeError,
}

/// Final output of one center scan: the number of verified-free slots.
#[derive(Clone, Copy, PartialEq, Eq, Structural, Debug)]
pub struct ScanResult {
    pub count: usize,
}

} // verus!
