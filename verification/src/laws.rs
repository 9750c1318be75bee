use vstd::prelude::*;

use crate::engine::{
    all_valid_len, batch_cell_proofs_ok, batch_commitments_ok, cell_proofs_computable,
    cell_proofs_err, cell_proofs_ok, commitment_computable, commitment_err, commitment_ok,
    SetupView,
};
use crate::errors::KzgError;
use crate::hexenc::{hex_display, is_hex_char, lemma_hex_of_shape};
use crate::{BYTES_PER_BLOB, BYTES_PER_COMMITMENT, BYTES_PER_PROOF, CELLS_PER_EXT_BLOB};

verus! {

/// A commitment returned for a correctly sized blob is a `0x` prefix
/// followed by 96 lowercase hexadecimal digits.
pub proof fn lemma_commitment_shape(s: SetupView, blob: Seq<u8>, out: Seq<char>)
    requires
        commitment_ok(s, blob, out),
    ensures
        out.len() == 2 + 2 * BYTES_PER_COMMITMENT,
        out[0] == '0',
        out[1] == 'x',
        forall|i: int| 2 <= i < out.len() ==> is_hex_char(#[trigger] out[i]),
{
    let c = crate::engine::commitment_of(s.g1_monomial, s.g1_lagrange, s.g2_monomial, blob);
    lemma_hex_of_shape(c);
    assert(out == hex_display(c));
    assert forall|i: int| 2 <= i < out.len() implies is_hex_char(#[trigger] out[i]) by {
        assert(out[i] == crate::hexenc::hex_of(c)[i - 2]);
    }
}

/// Every proof string returned for a correctly sized blob is a `0x` prefix
/// followed by 96 lowercase hexadecimal digits, and there is one per cell.
pub proof fn lemma_cell_proofs_shape(s: SetupView, blob: Seq<u8>, outs: Seq<Seq<char>>)
    requires
        cell_proofs_ok(s, blob, outs),
    ensures
        outs.len() == CELLS_PER_EXT_BLOB as nat,
        forall|i: int|
            0 <= i < outs.len() ==> {
                &&& (#[trigger] outs[i]).len() == 2 + 2 * BYTES_PER_PROOF
                &&& outs[i][0] == '0'
                &&& outs[i][1] == 'x'
                &&& forall|j: int| 2 <= j < outs[i].len() ==> is_hex_char(#[trigger] outs[i][j])
            },
{
    let name = crate::engine::cell_proofs_of(s.g1_monomial, s.g1_lagrange, s.g2_monomial, blob);
    assert forall|i: int|
        0 <= i < outs.len() implies {
        &&& (#[trigger] outs[i]).len() == 2 + 2 * BYTES_PER_PROOF
        &&& outs[i][0] == '0'
        &&& outs[i][1] == 'x'
        &&& forall|j: int| 2 <= j < outs[i].len() ==> is_hex_char(#[trigger] outs[i][j])
    } by {
        lemma_hex_of_shape(name[i]);
        assert(outs[i] == hex_display(name[i]));
        assert forall|j: int| 2 <= j < outs[i].len() implies is_hex_char(#[trigger] outs[i][j]) by {
            assert(outs[i][j] == crate::hexenc::hex_of(name[i])[j - 2]);
        }
    }
}

/// A blob of the wrong length is rejected with `InvalidBlobLength` carrying
/// the expected and the seen length, and with no other error.
pub proof fn lemma_invalid_length_rejected(s: SetupView, blob: Seq<u8>, e: KzgError)
    requires
        commitment_err(s, blob, e) || cell_proofs_err(s, blob, e),
        blob.len() != BYTES_PER_BLOB as nat,
    ensures
        e matches KzgError::InvalidBlobLength { expected, actual } && expected == BYTES_PER_BLOB
            && actual as nat == blob.len(),
{
}

/// Determinism: one setup and one blob admit one commitment string.
pub proof fn lemma_commitment_deterministic(
    s: SetupView,
    blob: Seq<u8>,
    out1: Seq<char>,
    out2: Seq<char>,
)
    requires
        commitment_ok(s, blob, out1),
        commitment_ok(s, blob, out2),
    ensures
        out1 == out2,
{
}

/// Determinism: one setup and one blob admit one sequence of proof strings.
pub proof fn lemma_cell_proofs_deterministic(
    s: SetupView,
    blob: Seq<u8>,
    outs1: Seq<Seq<char>>,
    outs2: Seq<Seq<char>>,
)
    requires
        cell_proofs_ok(s, blob, outs1),
        cell_proofs_ok(s, blob, outs2),
    ensures
        outs1 == outs2,
{
    assert forall|i: int| 0 <= i < outs1.len() implies #[trigger] outs1[i] == outs2[i] by {}
    assert(outs1 =~= outs2);
}

/// Batch/single equivalence: each position of a successful commitment batch
/// holds exactly what the single-item operation returns for that blob.
pub proof fn lemma_batch_commitment_matches_single(
    s: SetupView,
    blobs: Seq<Seq<u8>>,
    outs: Seq<Seq<char>>,
    i: int,
    single: Seq<char>,
)
    requires
        batch_commitments_ok(s, blobs, outs),
        0 <= i < blobs.len(),
        commitment_ok(s, blobs[i], single),
    ensures
        outs[i] == single,
{
}

/// Batch/single equivalence: each position of a successful proof batch holds
/// exactly what the single-item operation returns for that blob.
pub proof fn lemma_batch_cell_proofs_match_single(
    s: SetupView,
    blobs: Seq<Seq<u8>>,
    outs: Seq<Seq<Seq<char>>>,
    i: int,
    single: Seq<Seq<char>>,
)
    requires
        batch_cell_proofs_ok(s, blobs, outs),
        0 <= i < blobs.len(),
        cell_proofs_ok(s, blobs[i], single),
    ensures
        outs[i] == single,
{
    lemma_cell_proofs_deterministic(s, blobs[i], outs[i], single);
}

/// Order preservation under concurrency: two successful runs of a commitment
/// batch on the same blobs agree at every position, whatever the order in
/// which the underlying workers finished.
pub proof fn lemma_batch_commitments_deterministic(
    s: SetupView,
    blobs: Seq<Seq<u8>>,
    outs1: Seq<Seq<char>>,
    outs2: Seq<Seq<char>>,
)
    requires
        batch_commitments_ok(s, blobs, outs1),
        batch_commitments_ok(s, blobs, outs2),
    ensures
        outs1 == outs2,
{
    assert forall|i: int| 0 <= i < outs1.len() implies #[trigger] outs1[i] == outs2[i] by {
        lemma_commitment_deterministic(s, blobs[i], outs1[i], outs2[i]);
    }
    assert(outs1 =~= outs2);
}

/// Order preservation under concurrency: two successful runs of a proof
/// batch on the same blobs agree at every position.
pub proof fn lemma_batch_cell_proofs_deterministic(
    s: SetupView,
    blobs: Seq<Seq<u8>>,
    outs1: Seq<Seq<Seq<char>>>,
    outs2: Seq<Seq<Seq<char>>>,
)
    requires
        batch_cell_proofs_ok(s, blobs, outs1),
        batch_cell_proofs_ok(s, blobs, outs2),
    ensures
        outs1 == outs2,
{
    assert forall|i: int| 0 <= i < outs1.len() implies #[trigger] outs1[i] == outs2[i] by {
        lemma_cell_proofs_deterministic(s, blobs[i], outs1[i], outs2[i]);
    }
    assert(outs1 =~= outs2);
}

/// Everything the commitment operation's contract says of one call's result,
/// whichever way the call went.
pub open spec fn commitment_outcome(
    s: SetupView,
    blob: Seq<u8>,
    r: Result<Seq<char>, KzgError>,
) -> bool {
    match r {
        Ok(out) => commitment_ok(s, blob, out),
        Err(e) => commitment_err(s, blob, e),
    }
}

/// Everything the cell-proof operation's contract says of one call's result,
/// whichever way the call went.
pub open spec fn cell_proofs_outcome(
    s: SetupView,
    blob: Seq<u8>,
    r: Result<Seq<Seq<char>>, KzgError>,
) -> bool {
    match r {
        Ok(outs) => cell_proofs_ok(s, blob, outs),
        Err(e) => cell_proofs_err(s, blob, e),
    }
}

/// Everything the commitment batch's contract says of one call's result.
pub open spec fn batch_commitments_outcome(
    s: SetupView,
    blobs: Seq<Seq<u8>>,
    r: Result<Seq<Seq<char>>, KzgError>,
) -> bool {
    match r {
        Ok(v) => batch_commitments_ok(s, blobs, v),
        Err(e) => exists|i: int|
            0 <= i < blobs.len() && #[trigger] commitment_err(s, blobs[i], e),
    }
}

/// Everything the cell-proof batch's contract says of one call's result.
pub open spec fn batch_cell_proofs_outcome(
    s: SetupView,
    blobs: Seq<Seq<u8>>,
    r: Result<Seq<Seq<Seq<char>>>, KzgError>,
) -> bool {
    match r {
        Ok(v) => batch_cell_proofs_ok(s, blobs, v),
        Err(e) => exists|i: int|
            0 <= i < blobs.len() && #[trigger] cell_proofs_err(s, blobs[i], e),
    }
}

/// Repeatability of the whole outcome: two commitment calls on one setup and
/// one blob succeed together or fail together; on success the strings are
/// equal, and on failure the error kind is the same, with the exact lengths
/// in a length error.
pub proof fn lemma_commitment_outcome_deterministic(
    s: SetupView,
    blob: Seq<u8>,
    r1: Result<Seq<char>, KzgError>,
    r2: Result<Seq<char>, KzgError>,
)
    requires
        commitment_outcome(s, blob, r1),
        commitment_outcome(s, blob, r2),
    ensures
        r1 is Ok <==> r2 is Ok,
        r1 is Ok ==> r1 == r2,
        (r1 matches Err(e1) && e1 matches KzgError::InvalidBlobLength { .. }) ==> (r2 matches Err(
            e2,
        ) && e2 matches KzgError::InvalidBlobLength { expected, actual } && expected
            == BYTES_PER_BLOB && actual as nat == blob.len()),
        (r1 matches Err(e1) && e1 matches KzgError::CommitmentComputationFailed { .. }) ==> (
        r2 matches Err(e2) && e2 matches KzgError::CommitmentComputationFailed { .. }),
{
}

/// Repeatability of the whole outcome for the cell-proof operation, as
/// `lemma_commitment_outcome_deterministic` states it for commitments.
pub proof fn lemma_cell_proofs_outcome_deterministic(
    s: SetupView,
    blob: Seq<u8>,
    r1: Result<Seq<Seq<char>>, KzgError>,
    r2: Result<Seq<Seq<char>>, KzgError>,
)
    requires
        cell_proofs_outcome(s, blob, r1),
        cell_proofs_outcome(s, blob, r2),
    ensures
        r1 is Ok <==> r2 is Ok,
        r1 is Ok ==> r1 == r2,
        (r1 matches Err(e1) && e1 matches KzgError::InvalidBlobLength { .. }) ==> (r2 matches Err(
            e2,
        ) && e2 matches KzgError::InvalidBlobLength { expected, actual } && expected
            == BYTES_PER_BLOB && actual as nat == blob.len()),
        (r1 matches Err(e1) && e1 matches KzgError::ProofComputationFailed { .. }) ==> (
        r2 matches Err(e2) && e2 matches KzgError::ProofComputationFailed { .. }),
{
    if r1 is Ok && r2 is Ok {
        lemma_cell_proofs_deterministic(s, blob, r1->Ok_0, r2->Ok_0);
    }
}

/// Repeatability of the whole outcome for the commitment batch: two runs on
/// the same blobs succeed together or fail together, and on success they
/// agree at every position.
pub proof fn lemma_batch_commitments_outcome_deterministic(
    s: SetupView,
    blobs: Seq<Seq<u8>>,
    r1: Result<Seq<Seq<char>>, KzgError>,
    r2: Result<Seq<Seq<char>>, KzgError>,
)
    requires
        batch_commitments_outcome(s, blobs, r1),
        batch_commitments_outcome(s, blobs, r2),
    ensures
        r1 is Ok <==> r2 is Ok,
        r1 is Ok ==> r1 == r2,
{
    if r1 is Ok && !(r2 is Ok) {
        let e = r2->Err_0;
        let i = choose|i: int| 0 <= i < blobs.len() && #[trigger] commitment_err(s, blobs[i], e);
        assert(commitment_ok(s, blobs[i], r1->Ok_0[i]));
    }
    if r2 is Ok && !(r1 is Ok) {
        let e = r1->Err_0;
        let i = choose|i: int| 0 <= i < blobs.len() && #[trigger] commitment_err(s, blobs[i], e);
        assert(commitment_ok(s, blobs[i], r2->Ok_0[i]));
    }
    if r1 is Ok && r2 is Ok {
        lemma_batch_commitments_deterministic(s, blobs, r1->Ok_0, r2->Ok_0);
    }
}

/// Repeatability of the whole outcome for the cell-proof batch.
pub proof fn lemma_batch_cell_proofs_outcome_deterministic(
    s: SetupView,
    blobs: Seq<Seq<u8>>,
    r1: Result<Seq<Seq<Seq<char>>>, KzgError>,
    r2: Result<Seq<Seq<Seq<char>>>, KzgError>,
)
    requires
        batch_cell_proofs_outcome(s, blobs, r1),
        batch_cell_proofs_outcome(s, blobs, r2),
    ensures
        r1 is Ok <==> r2 is Ok,
        r1 is Ok ==> r1 == r2,
{
    if r1 is Ok && !(r2 is Ok) {
        let e = r2->Err_0;
        let i = choose|i: int| 0 <= i < blobs.len() && #[trigger] cell_proofs_err(s, blobs[i], e);
        assert(cell_proofs_ok(s, blobs[i], r1->Ok_0[i]));
    }
    if r2 is Ok && !(r1 is Ok) {
        let e = r1->Err_0;
        let i = choose|i: int| 0 <= i < blobs.len() && #[trigger] cell_proofs_err(s, blobs[i], e);
        assert(cell_proofs_ok(s, blobs[i], r2->Ok_0[i]));
    }
    if r1 is Ok && r2 is Ok {
        lemma_batch_cell_proofs_deterministic(s, blobs, r1->Ok_0, r2->Ok_0);
    }
}

/// A commitment batch holding exactly one wrong-length blob, whose other
/// blobs the external computation accepts, fails with exactly that blob's
/// length error.
pub proof fn lemma_batch_single_invalid_error(
    s: SetupView,
    blobs: Seq<Seq<u8>>,
    k: int,
    e: KzgError,
)
    requires
        0 <= k < blobs.len(),
        blobs[k].len() != BYTES_PER_BLOB as nat,
        forall|i: int|
            0 <= i < blobs.len() && i != k ==> #[trigger] blobs[i].len() == BYTES_PER_BLOB as nat,
        forall|i: int|
            0 <= i < blobs.len() && i != k ==> #[trigger] commitment_computable(
                s.g1_monomial,
                s.g1_lagrange,
                s.g2_monomial,
                blobs[i],
            ),
        exists|i: int| 0 <= i < blobs.len() && #[trigger] commitment_err(s, blobs[i], e),
    ensures
        e matches KzgError::InvalidBlobLength { expected, actual } && expected == BYTES_PER_BLOB
            && actual as nat == blobs[k].len(),
{
    let i = choose|i: int| 0 <= i < blobs.len() && #[trigger] commitment_err(s, blobs[i], e);
    if i != k {
        assert(blobs[i].len() == BYTES_PER_BLOB as nat);
        assert(commitment_computable(s.g1_monomial, s.g1_lagrange, s.g2_monomial, blobs[i]));
    }
}

/// A cell-proof batch holding exactly one wrong-length blob, whose other
/// blobs the external computation accepts, fails with exactly that blob's
/// length error.
pub proof fn lemma_proofs_batch_single_invalid_error(
    s: SetupView,
    blobs: Seq<Seq<u8>>,
    k: int,
    e: KzgError,
)
    requires
        0 <= k < blobs.len(),
        blobs[k].len() != BYTES_PER_BLOB as nat,
        forall|i: int|
            0 <= i < blobs.len() && i != k ==> #[trigger] blobs[i].len() == BYTES_PER_BLOB as nat,
        forall|i: int|
            0 <= i < blobs.len() && i != k ==> #[trigger] cell_proofs_computable(
                s.g1_monomial,
                s.g1_lagrange,
                s.g2_monomial,
                blobs[i],
            ),
        exists|i: int| 0 <= i < blobs.len() && #[trigger] cell_proofs_err(s, blobs[i], e),
    ensures
        e matches KzgError::InvalidBlobLength { expected, actual } && expected == BYTES_PER_BLOB
            && actual as nat == blobs[k].len(),
{
    let i = choose|i: int| 0 <= i < blobs.len() && #[trigger] cell_proofs_err(s, blobs[i], e);
    if i != k {
        assert(blobs[i].len() == BYTES_PER_BLOB as nat);
        assert(cell_proofs_computable(s.g1_monomial, s.g1_lagrange, s.g2_monomial, blobs[i]));
    }
}

/// Batch/single equivalence, success half: when the single commitment
/// operation succeeds on every blob of a batch, the batch operation's own
/// success clause applies, so the batch is owed success.
pub proof fn lemma_commitment_singles_ok_cover_batch(
    s: SetupView,
    blobs: Seq<Seq<u8>>,
    singles: Seq<Seq<char>>,
)
    requires
        singles.len() == blobs.len(),
        forall|i: int| 0 <= i < blobs.len() ==> commitment_ok(s, #[trigger] blobs[i], singles[i]),
    ensures
        all_valid_len(blobs),
        crate::engine::all_commitments_computable(s, blobs),
{
    assert forall|i: int| 0 <= i < blobs.len() implies #[trigger] blobs[i].len()
        == BYTES_PER_BLOB as nat && commitment_computable(
        s.g1_monomial,
        s.g1_lagrange,
        s.g2_monomial,
        blobs[i],
    ) by {
        assert(commitment_ok(s, blobs[i], singles[i]));
    }
}

/// Batch/single equivalence, success half, for the cell-proof operations.
pub proof fn lemma_cell_proofs_singles_ok_cover_batch(
    s: SetupView,
    blobs: Seq<Seq<u8>>,
    singles: Seq<Seq<Seq<char>>>,
)
    requires
        singles.len() == blobs.len(),
        forall|i: int| 0 <= i < blobs.len() ==> cell_proofs_ok(s, #[trigger] blobs[i], singles[i]),
    ensures
        all_valid_len(blobs),
        crate::engine::all_cell_proofs_computable(s, blobs),
{
    assert forall|i: int| 0 <= i < blobs.len() implies #[trigger] blobs[i].len()
        == BYTES_PER_BLOB as nat && cell_proofs_computable(
        s.g1_monomial,
        s.g1_lagrange,
        s.g2_monomial,
        blobs[i],
    ) by {
        assert(cell_proofs_ok(s, blobs[i], singles[i]));
    }
}

/// All-or-nothing: a successful batch had only correctly sized blobs, so a
/// batch holding one wrong-length blob among valid ones cannot return the
/// valid siblings' results.
pub proof fn lemma_successful_batch_all_valid(
    s: SetupView,
    blobs: Seq<Seq<u8>>,
    outs: Seq<Seq<char>>,
)
    requires
        batch_commitments_ok(s, blobs, outs),
    ensures
        all_valid_len(blobs),
{
    assert forall|i: int| 0 <= i < blobs.len() implies #[trigger] blobs[i].len()
        == BYTES_PER_BLOB as nat by {
        assert(commitment_ok(s, blobs[i], outs[i]));
    }
}

} // verus!
