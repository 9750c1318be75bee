use vstd::prelude::*;

verus! {

/// Every way an engine operation can fail.
///
/// Each variant carries enough context to diagnose the failure without
/// re-running: the length that was seen, or the underlying library cause.
#[derive(Debug)]
pub enum KzgError {
    /// The trusted-setup byte buffers were malformed or inconsistent.
    SetupLoadFailed { cause: String },
    /// A blob buffer did not have exactly `BYTES_PER_BLOB` bytes.
    InvalidBlobLength { expected: usize, actual: usize },
    /// The commitment computation failed for a correctly sized blob.
    CommitmentComputationFailed { cause: String },
    /// The cell-proof computation failed for a correctly sized blob.
    ProofComputationFailed { cause: String },
}

} // verus!
