use vstd::prelude::*;

mod engine;
mod errors;
mod hexenc;
mod laws;

pub use engine::{
    all_cell_proofs_computable, all_commitments_computable, all_valid_len, batch_cell_proofs_ok,
    batch_commitments_ok, cell_proofs_computable, cell_proofs_err, cell_proofs_of, cell_proofs_ok,
    commitment_computable, commitment_err, commitment_of, commitment_ok, setup_loadable,
    KzgWrapper, SetupView,
};
pub use errors::KzgError;
pub use laws::{
    batch_cell_proofs_outcome, batch_commitments_outcome, cell_proofs_outcome, commitment_outcome,
    lemma_batch_cell_proofs_deterministic, lemma_batch_cell_proofs_match_single,
    lemma_batch_cell_proofs_outcome_deterministic, lemma_batch_commitment_matches_single,
    lemma_batch_commitments_deterministic, lemma_batch_commitments_outcome_deterministic,
    lemma_batch_single_invalid_error, lemma_cell_proofs_deterministic,
    lemma_cell_proofs_singles_ok_cover_batch, lemma_commitment_singles_ok_cover_batch,
    lemma_cell_proofs_outcome_deterministic, lemma_cell_proofs_shape,
    lemma_commitment_deterministic, lemma_commitment_outcome_deterministic, lemma_commitment_shape,
    lemma_invalid_length_rejected, lemma_proofs_batch_single_invalid_error,
    lemma_successful_batch_all_valid,
};
pub use hexenc::{hex_chars, hex_digit, hex_display, hex_of, is_hex_char, lemma_hex_of_shape};

verus! {

/// Number of bytes in a valid blob.
pub const BYTES_PER_BLOB: usize = 131072;

/// Number of bytes in one cell proof (a compressed G1 point).
pub const BYTES_PER_PROOF: usize = 48;

/// Number of bytes in a commitment (a compressed G1 point).
pub const BYTES_PER_COMMITMENT: usize = 48;

/// Number of cells in the extended (erasure-coded) form of a blob,
/// and hence the number of proofs computed for one blob.
pub const CELLS_PER_EXT_BLOB: usize = 128;

} // verus!
