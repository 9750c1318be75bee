use vstd::prelude::*;

use crate::errors::KzgError;
use crate::hexenc::{hex_display, hex_prefixed};
use crate::{BYTES_PER_BLOB, BYTES_PER_COMMITMENT, BYTES_PER_PROOF, CELLS_PER_EXT_BLOB};
use rayon::iter::{IntoParallelRefIterator, ParallelIterator};

verus! {

#[verifier::external_type_specification]
#[verifier::external_body]
pub struct ExKzgSettings(c_kzg::KzgSettings);

/// The commitment that the external library computes for `blob` under the
/// trusted setup loaded from the three byte buffers: a function of those four
/// byte sequences alone.
pub uninterp spec fn commitment_of(
    g1_monomial: Seq<u8>,
    g1_lagrange: Seq<u8>,
    g2_monomial: Seq<u8>,
    blob: Seq<u8>,
) -> Seq<u8>;

/// The per-cell proofs that the external library computes for `blob` under
/// the trusted setup loaded from the three byte buffers, in cell-index order:
/// a function of those four byte sequences alone.
pub uninterp spec fn cell_proofs_of(
    g1_monomial: Seq<u8>,
    g1_lagrange: Seq<u8>,
    g2_monomial: Seq<u8>,
    blob: Seq<u8>,
) -> Seq<Seq<u8>>;

/// Whether the external loader accepts the three byte buffers as a trusted
/// setup. Its checks (buffer sizes, point decompression, subgroup membership,
/// the Lagrange-form pairing check) read nothing but the buffers, so this is
/// a function of them alone.
pub uninterp spec fn setup_loadable(
    g1_monomial: Seq<u8>,
    g1_lagrange: Seq<u8>,
    g2_monomial: Seq<u8>,
) -> bool;

/// Whether the external commitment computation succeeds for `blob` under the
/// trusted setup loaded from the three byte buffers. Its one check beyond the
/// blob's length — that every 32-byte field element is canonical — reads
/// nothing but the blob, so this is a function of the four byte sequences
/// alone.
pub uninterp spec fn commitment_computable(
    g1_monomial: Seq<u8>,
    g1_lagrange: Seq<u8>,
    g2_monomial: Seq<u8>,
    blob: Seq<u8>,
) -> bool;

/// Whether the external cells-and-proofs computation succeeds for `blob`
/// under the trusted setup loaded from the three byte buffers: a function of
/// the four byte sequences alone, as `commitment_computable` is.
pub uninterp spec fn cell_proofs_computable(
    g1_monomial: Seq<u8>,
    g1_lagrange: Seq<u8>,
    g2_monomial: Seq<u8>,
    blob: Seq<u8>,
) -> bool;

/// The three byte buffers a trusted setup was loaded from: the mathematical
/// identity of an engine instance.
pub ghost struct SetupView {
    pub g1_monomial: Seq<u8>,
    pub g1_lagrange: Seq<u8>,
    pub g2_monomial: Seq<u8>,
}

/// Holds the trusted-setup parameters for the lifetime of the engine.
///
/// The settings are built exactly once, from the three byte buffers that the
/// ghost fields remember, and are never written afterwards, so any number of
/// concurrent computations may read them without locking.
pub struct KzgWrapper {
    settings: c_kzg::KzgSettings,
    g1_monomial: Ghost<Seq<u8>>,
    g1_lagrange: Ghost<Seq<u8>>,
    g2_monomial: Ghost<Seq<u8>>,
}

impl View for KzgWrapper {
    type V = SetupView;

    closed spec fn view(&self) -> SetupView {
        SetupView {
            g1_monomial: self.g1_monomial@,
            g1_lagrange: self.g1_lagrange@,
            g2_monomial: self.g2_monomial@,
        }
    }
}

/// What a successful commitment computation returns for `blob` under the
/// setup `s`: the commitment's 48 bytes, `0x`-prefixed and hex-encoded.
pub open spec fn commitment_ok(s: SetupView, blob: Seq<u8>, out: Seq<char>) -> bool {
    &&& blob.len() == BYTES_PER_BLOB as nat
    &&& commitment_computable(s.g1_monomial, s.g1_lagrange, s.g2_monomial, blob)
    &&& commitment_of(s.g1_monomial, s.g1_lagrange, s.g2_monomial, blob).len()
        == BYTES_PER_COMMITMENT as nat
    &&& out == hex_display(commitment_of(s.g1_monomial, s.g1_lagrange, s.g2_monomial, blob))
}

/// The errors a commitment computation genuinely reports for `blob`: a
/// length mismatch exactly when the blob is not `BYTES_PER_BLOB` bytes, or a
/// computation failure exactly when a correctly sized blob is one the
/// external computation rejects.
pub open spec fn commitment_err(s: SetupView, blob: Seq<u8>, e: KzgError) -> bool {
    match e {
        KzgError::InvalidBlobLength { expected, actual } => {
            &&& blob.len() != BYTES_PER_BLOB as nat
            &&& expected == BYTES_PER_BLOB
            &&& actual as nat == blob.len()
        },
        KzgError::CommitmentComputationFailed { .. } => {
            &&& blob.len() == BYTES_PER_BLOB as nat
            &&& !commitment_computable(s.g1_monomial, s.g1_lagrange, s.g2_monomial, blob)
        },
        _ => false,
    }
}

/// What a successful cell-proof computation returns for `blob` under the
/// setup `s`: one `0x`-prefixed hex string per cell, in cell-index order.
pub open spec fn cell_proofs_ok(s: SetupView, blob: Seq<u8>, outs: Seq<Seq<char>>) -> bool {
    &&& blob.len() == BYTES_PER_BLOB as nat
    &&& cell_proofs_computable(s.g1_monomial, s.g1_lagrange, s.g2_monomial, blob)
    &&& outs.len() == CELLS_PER_EXT_BLOB as nat
    &&& cell_proofs_of(s.g1_monomial, s.g1_lagrange, s.g2_monomial, blob).len()
        == CELLS_PER_EXT_BLOB as nat
    &&& forall|i: int|
        0 <= i < outs.len() ==> {
            &&& #[trigger] outs[i] == hex_display(
                cell_proofs_of(s.g1_monomial, s.g1_lagrange, s.g2_monomial, blob)[i],
            )
            &&& cell_proofs_of(s.g1_monomial, s.g1_lagrange, s.g2_monomial, blob)[i].len()
                == BYTES_PER_PROOF as nat
        }
}

/// The errors a cell-proof computation genuinely reports for `blob`, in the
/// same way as `commitment_err`.
pub open spec fn cell_proofs_err(s: SetupView, blob: Seq<u8>, e: KzgError) -> bool {
    match e {
        KzgError::InvalidBlobLength { expected, actual } => {
            &&& blob.len() != BYTES_PER_BLOB as nat
            &&& expected == BYTES_PER_BLOB
            &&& actual as nat == blob.len()
        },
        KzgError::ProofComputationFailed { .. } => {
            &&& blob.len() == BYTES_PER_BLOB as nat
            &&& !cell_proofs_computable(s.g1_monomial, s.g1_lagrange, s.g2_monomial, blob)
        },
        _ => false,
    }
}

/// True when every blob in the batch has exactly `BYTES_PER_BLOB` bytes.
pub open spec fn all_valid_len(blobs: Seq<Seq<u8>>) -> bool {
    forall|i: int| 0 <= i < blobs.len() ==> #[trigger] blobs[i].len() == BYTES_PER_BLOB as nat
}

/// True when the commitment computation succeeds for every blob in the batch.
pub open spec fn all_commitments_computable(s: SetupView, blobs: Seq<Seq<u8>>) -> bool {
    forall|i: int|
        0 <= i < blobs.len() ==> #[trigger] commitment_computable(
            s.g1_monomial,
            s.g1_lagrange,
            s.g2_monomial,
            blobs[i],
        )
}

/// True when the cell-proof computation succeeds for every blob in the batch.
pub open spec fn all_cell_proofs_computable(s: SetupView, blobs: Seq<Seq<u8>>) -> bool {
    forall|i: int|
        0 <= i < blobs.len() ==> #[trigger] cell_proofs_computable(
            s.g1_monomial,
            s.g1_lagrange,
            s.g2_monomial,
            blobs[i],
        )
}

/// What a successful commitment batch returns: one commitment string per
/// input blob, at the input's own position.
pub open spec fn batch_commitments_ok(
    s: SetupView,
    blobs: Seq<Seq<u8>>,
    outs: Seq<Seq<char>>,
) -> bool {
    &&& outs.len() == blobs.len()
    &&& forall|i: int| 0 <= i < blobs.len() ==> commitment_ok(s, #[trigger] blobs[i], outs[i])
}

/// What a successful cell-proof batch returns: one proof sequence per input
/// blob, at the input's own position.
pub open spec fn batch_cell_proofs_ok(
    s: SetupView,
    blobs: Seq<Seq<u8>>,
    outs: Seq<Seq<Seq<char>>>,
) -> bool {
    &&& outs.len() == blobs.len()
    &&& forall|i: int| 0 <= i < blobs.len() ==> cell_proofs_ok(s, #[trigger] blobs[i], outs[i])
}

/// Relies on c_kzg::KzgSettings::load_trusted_setup: it builds the settings
/// value from the three buffers (G1 monomial, G1 Lagrange, G2 monomial), and
/// whether it succeeds is decided by deterministic checks on the buffers
/// alone — `setup_loadable` names that outcome. On failure the error is
/// surfaced as its debug text.
#[verifier::external_body]
fn load_settings(
    g1_monomial: &Vec<u8>,
    g1_lagrange: &Vec<u8>,
    g2_monomial: &Vec<u8>,
) -> (r: Result<c_kzg::KzgSettings, String>)
    ensures
        r is Ok <==> setup_loadable(g1_monomial@, g1_lagrange@, g2_monomial@),
{
    c_kzg::KzgSettings::load_trusted_setup(
        g1_monomial.as_slice(),
        g1_lagrange.as_slice(),
        g2_monomial.as_slice(),
        0,
    )
    .map_err(|e| format!("{:?}", e))
}

impl KzgWrapper {
    /// Loads the trusted setup from the G1 monomial, G1 Lagrange and G2
    /// monomial byte buffers, which the engine forwards verbatim to the
    /// external loader. Returns the engine, or `SetupLoadFailed` with the
    /// underlying cause; no partial setup is ever produced.
    pub fn load_kzg(
        g1_monomial_bytes: Vec<u8>,
        g1_lagrange_bytes: Vec<u8>,
        g2_monomial_bytes: Vec<u8>,
    ) -> (r: Result<KzgWrapper, KzgError>)
        ensures
            r is Ok <==> setup_loadable(
                g1_monomial_bytes@,
                g1_lagrange_bytes@,
                g2_monomial_bytes@,
            ),
            r matches Ok(w) ==> w@ == (SetupView {
                g1_monomial: g1_monomial_bytes@,
                g1_lagrange: g1_lagrange_bytes@,
                g2_monomial: g2_monomial_bytes@,
            }),
            r matches Err(e) ==> e matches KzgError::SetupLoadFailed { .. },
    {
        match load_settings(&g1_monomial_bytes, &g1_lagrange_bytes, &g2_monomial_bytes) {
            Ok(settings) => Ok(KzgWrapper {
                settings,
                g1_monomial: Ghost(g1_monomial_bytes@),
                g1_lagrange: Ghost(g1_lagrange_bytes@),
                g2_monomial: Ghost(g2_monomial_bytes@),
            }),
            Err(cause) => Err(KzgError::SetupLoadFailed { cause }),
        }
    }

    /// Enforces the fixed-length contract every downstream computation
    /// depends on: succeeds exactly when the buffer has `BYTES_PER_BLOB`
    /// bytes, and then returns an owned copy of it.
    pub fn parse_blob_array(blob_bytes: &Vec<u8>) -> (r: Result<Vec<u8>, KzgError>)
        ensures
            blob_bytes@.len() == BYTES_PER_BLOB as nat ==> (r matches Ok(b) && b@
                == blob_bytes@),
            blob_bytes@.len() != BYTES_PER_BLOB as nat ==> (r matches Err(e)
                && e matches KzgError::InvalidBlobLength { expected, actual }
                && expected == BYTES_PER_BLOB && actual as nat == blob_bytes@.len()),
    {
        if blob_bytes.len() != BYTES_PER_BLOB {
            return Err(KzgError::InvalidBlobLength {
                expected: BYTES_PER_BLOB,
                actual: blob_bytes.len(),
            });
        }
        let mut copy: Vec<u8> = Vec::new();
        let mut i: usize = 0;
        while i < blob_bytes.len()
            invariant
                i <= blob_bytes@.len(),
                copy@ == blob_bytes@.subrange(0, i as int),
            decreases blob_bytes@.len() - i,
        {
            copy.push(blob_bytes[i]);
            i = i + 1;
        }
        proof {
            assert(copy@ =~= blob_bytes@);
        }
        Ok(copy)
    }

    /// Relies on c_kzg::KzgSettings::blob_to_kzg_commitment and
    /// KzgCommitment::to_bytes: for one settings value and one blob the
    /// computation is deterministic, succeeding or failing by checks on the
    /// blob's bytes alone (`commitment_computable` names that outcome), and
    /// the commitment is returned as its 48-byte compressed encoding. The
    /// settings held here were loaded from exactly the byte buffers the ghost
    /// fields remember, so both outcome and value are functions of those
    /// buffers and the blob. On failure the error's debug text is returned.
    #[verifier::external_body]
    fn compute_commitment(&self, blob: &Vec<u8>) -> (r: Result<Vec<u8>, String>)
        requires
            blob@.len() == BYTES_PER_BLOB as nat,
        ensures
            r is Ok <==> commitment_computable(
                self@.g1_monomial,
                self@.g1_lagrange,
                self@.g2_monomial,
                blob@,
            ),
            r matches Ok(c) ==> {
                &&& c@ == commitment_of(self@.g1_monomial, self@.g1_lagrange, self@.g2_monomial, blob@)
                &&& c@.len() == BYTES_PER_COMMITMENT as nat
            },
    {
        let arr: [u8; c_kzg::BYTES_PER_BLOB] = blob.as_slice().try_into().unwrap();
        match self.settings.blob_to_kzg_commitment(&c_kzg::Blob::new(arr)) {
            Ok(c) => Ok(c.to_bytes().into_inner().to_vec()),
            Err(e) => Err(format!("{:?}", e)),
        }
    }

    /// Relies on c_kzg::KzgSettings::compute_cells_and_kzg_proofs and
    /// KzgProof::to_bytes: for one settings value and one blob the
    /// computation is deterministic, succeeding or failing by checks on the
    /// blob's bytes alone (`cell_proofs_computable` names that outcome); the
    /// cells are discarded and the `CELLS_PER_EXT_BLOB` proofs are returned
    /// in cell-index order, each as its 48-byte compressed encoding. The
    /// settings held here were loaded from exactly the byte buffers the ghost
    /// fields remember, so both outcome and values are functions of those
    /// buffers and the blob. On failure the error's debug text is returned.
    #[verifier::external_body]
    fn compute_proofs(&self, blob: &Vec<u8>) -> (r: Result<Vec<Vec<u8>>, String>)
        requires
            blob@.len() == BYTES_PER_BLOB as nat,
        ensures
            r is Ok <==> cell_proofs_computable(
                self@.g1_monomial,
                self@.g1_lagrange,
                self@.g2_monomial,
                blob@,
            ),
            r matches Ok(p) ==> {
                &&& p@.len() == CELLS_PER_EXT_BLOB as nat
                &&& cell_proofs_of(self@.g1_monomial, self@.g1_lagrange, self@.g2_monomial, blob@).len()
                    == CELLS_PER_EXT_BLOB as nat
                &&& forall|i: int|
                    0 <= i < p@.len() ==> {
                        &&& #[trigger] p@[i]@ == cell_proofs_of(
                            self@.g1_monomial, self@.g1_lagrange, self@.g2_monomial, blob@)[i]
                        &&& p@[i]@.len() == BYTES_PER_PROOF as nat
                    }
            },
    {
        let arr: [u8; c_kzg::BYTES_PER_BLOB] = blob.as_slice().try_into().unwrap();
        match self.settings.compute_cells_and_kzg_proofs(&c_kzg::Blob::new(arr)) {
            Ok((_cells, proofs)) => Ok(
                proofs.iter().map(|p| p.to_bytes().into_inner().to_vec()).collect(),
            ),
            Err(e) => Err(format!("{:?}", e)),
        }
    }

    /// Validates one blob, computes its commitment, and encodes it; shared by
    /// the single and batch commitment operations.
    fn process_single_commitment(&self, blob_bytes: &Vec<u8>) -> (r: Result<String, KzgError>)
        ensures
            r matches Ok(out) ==> commitment_ok(self@, blob_bytes@, out@),
            r matches Err(e) ==> commitment_err(self@, blob_bytes@, e),
            blob_bytes@.len() == BYTES_PER_BLOB as nat && commitment_computable(
                self@.g1_monomial,
                self@.g1_lagrange,
                self@.g2_monomial,
                blob_bytes@,
            ) ==> r is Ok,
    {
        let blob = match Self::parse_blob_array(blob_bytes) {
            Ok(b) => b,
            Err(e) => {
                return Err(e);
            },
        };
        match self.compute_commitment(&blob) {
            Ok(c) => Ok(hex_prefixed(&c)),
            Err(cause) => Err(KzgError::CommitmentComputationFailed { cause }),
        }
    }

    /// Validates one blob, computes its cell proofs, and encodes each one;
    /// shared by the single and batch proof operations.
    fn process_single_blob_proof(&self, blob_bytes: &Vec<u8>) -> (r: Result<
        Vec<String>,
        KzgError,
    >)
        ensures
            r matches Ok(outs) ==> cell_proofs_ok(self@, blob_bytes@, outs.deep_view()),
            r matches Err(e) ==> cell_proofs_err(self@, blob_bytes@, e),
            blob_bytes@.len() == BYTES_PER_BLOB as nat && cell_proofs_computable(
                self@.g1_monomial,
                self@.g1_lagrange,
                self@.g2_monomial,
                blob_bytes@,
            ) ==> r is Ok,
    {
        let blob = match Self::parse_blob_array(blob_bytes) {
            Ok(b) => b,
            Err(e) => {
                return Err(e);
            },
        };
        let proofs = match self.compute_proofs(&blob) {
            Ok(p) => p,
            Err(cause) => {
                return Err(KzgError::ProofComputationFailed { cause });
            },
        };
        let ghost name = cell_proofs_of(self@.g1_monomial, self@.g1_lagrange, self@.g2_monomial, blob@);
        let mut outs: Vec<String> = Vec::new();
        let mut i: usize = 0;
        while i < proofs.len()
            invariant
                i <= proofs@.len(),
                outs@.len() == i as nat,
                proofs@.len() == CELLS_PER_EXT_BLOB as nat,
                name.len() == CELLS_PER_EXT_BLOB as nat,
                forall|j: int|
                    0 <= j < proofs@.len() ==> {
                        &&& #[trigger] proofs@[j]@ == name[j]
                        &&& proofs@[j]@.len() == BYTES_PER_PROOF as nat
                    },
                forall|j: int| 0 <= j < i ==> #[trigger] outs@[j]@ == hex_display(name[j]),
            decreases proofs@.len() - i,
        {
            let h = hex_prefixed(&proofs[i]);
            outs.push(h);
            i = i + 1;
        }
        proof {
            assert(outs.deep_view().len() == outs@.len());
            assert forall|j: int| 0 <= j < outs@.len() implies #[trigger] outs.deep_view()[j]
                == hex_display(name[j]) by {
                assert(outs.deep_view()[j] == outs@[j]@);
                assert(outs@[j]@ == hex_display(name[j]));
            }
            assert forall|j: int| 0 <= j < outs@.len() implies #[trigger] name[j].len()
                == BYTES_PER_PROOF as nat by {
                assert(proofs@[j]@ == name[j]);
                assert(proofs@[j]@.len() == BYTES_PER_PROOF as nat);
            }
        }
        Ok(outs)
    }

    /// Converts a single blob into a KZG commitment, surfaced as a
    /// `0x`-prefixed lowercase hex string. Rejects a buffer that is not
    /// exactly `BYTES_PER_BLOB` bytes with `InvalidBlobLength` before any
    /// computation; wraps a failure of the computation itself as
    /// `CommitmentComputationFailed`; succeeds on every blob the external
    /// computation accepts.
    pub fn blob_to_commitment(&self, blob_bytes: Vec<u8>) -> (r: Result<String, KzgError>)
        ensures
            r matches Ok(out) ==> commitment_ok(self@, blob_bytes@, out@),
            r matches Err(e) ==> commitment_err(self@, blob_bytes@, e),
            blob_bytes@.len() == BYTES_PER_BLOB as nat && commitment_computable(
                self@.g1_monomial,
                self@.g1_lagrange,
                self@.g2_monomial,
                blob_bytes@,
            ) ==> r is Ok,
    {
        self.process_single_commitment(&blob_bytes)
    }

    /// Computes the KZG proofs for all cells of a single blob, surfaced as
    /// one `0x`-prefixed lowercase hex string per cell, in cell-index order.
    /// Rejects a buffer that is not exactly `BYTES_PER_BLOB` bytes with
    /// `InvalidBlobLength` before any computation; wraps a failure of the
    /// computation itself as `ProofComputationFailed`; succeeds on every
    /// blob the external computation accepts.
    pub fn compute_cell_proofs(&self, blob_bytes: Vec<u8>) -> (r: Result<Vec<String>, KzgError>)
        ensures
            r matches Ok(outs) ==> cell_proofs_ok(self@, blob_bytes@, outs.deep_view()),
            r matches Err(e) ==> cell_proofs_err(self@, blob_bytes@, e),
            blob_bytes@.len() == BYTES_PER_BLOB as nat && cell_proofs_computable(
                self@.g1_monomial,
                self@.g1_lagrange,
                self@.g2_monomial,
                blob_bytes@,
            ) ==> r is Ok,
    {
        self.process_single_blob_proof(&blob_bytes)
    }

    /// Relies on rayon's par_iter, map and collect: an indexed parallel map
    /// keeps each result at its item's input position whatever the order in
    /// which workers finish, and collecting into `Result` returns Ok with
    /// every item's value when all succeed, else the error of one item that
    /// failed. Each item is handled by `process_single_commitment`, whose
    /// contract Verus has checked; this contract restates it item by item.
    #[verifier::external_body]
    fn par_commitments(&self, blobs: &Vec<Vec<u8>>) -> (r: Result<Vec<String>, KzgError>)
        ensures
            r matches Ok(v) ==> batch_commitments_ok(self@, blobs.deep_view(), v.deep_view()),
            r matches Err(e) ==> exists|i: int|
                0 <= i < blobs.deep_view().len() && #[trigger] commitment_err(
                    self@,
                    blobs.deep_view()[i],
                    e,
                ),
    {
        blobs.par_iter().map(|b| self.process_single_commitment(b)).collect()
    }

    /// Relies on rayon's par_iter, map and collect, exactly as
    /// `par_commitments` does; each item is handled by
    /// `process_single_blob_proof`, whose contract Verus has checked.
    #[verifier::external_body]
    fn par_cell_proofs(&self, blobs: &Vec<Vec<u8>>) -> (r: Result<Vec<Vec<String>>, KzgError>)
        ensures
            r matches Ok(v) ==> batch_cell_proofs_ok(self@, blobs.deep_view(), v.deep_view()),
            r matches Err(e) ==> exists|i: int|
                0 <= i < blobs.deep_view().len() && #[trigger] cell_proofs_err(
                    self@,
                    blobs.deep_view()[i],
                    e,
                ),
    {
        blobs.par_iter().map(|b| self.process_single_blob_proof(b)).collect()
    }

    /// Converts a batch of blobs to commitments concurrently. On success the
    /// result holds one commitment string per input blob, at the input's own
    /// position; if any item fails, the whole call fails with an error that
    /// one of the items genuinely produced, and no partial result is
    /// returned. A batch holding a blob of the wrong length therefore never
    /// succeeds, and a batch whose every blob the external computation
    /// accepts never fails.
    pub fn blob_to_commitment_batch(&self, blobs_bytes: Vec<Vec<u8>>) -> (r: Result<
        Vec<String>,
        KzgError,
    >)
        ensures
            r matches Ok(v) ==> batch_commitments_ok(self@, blobs_bytes.deep_view(), v.deep_view()),
            r matches Err(e) ==> exists|i: int|
                0 <= i < blobs_bytes.deep_view().len() && #[trigger] commitment_err(
                    self@,
                    blobs_bytes.deep_view()[i],
                    e,
                ),
            !all_valid_len(blobs_bytes.deep_view()) ==> r is Err,
            all_valid_len(blobs_bytes.deep_view()) && all_commitments_computable(
                self@,
                blobs_bytes.deep_view(),
            ) ==> r is Ok,
    {
        let r = self.par_commitments(&blobs_bytes);
        proof {
            let blobs = blobs_bytes.deep_view();
            if r is Ok {
                let outs = r->Ok_0.deep_view();
                assert forall|i: int| 0 <= i < blobs.len() implies #[trigger] blobs[i].len()
                    == BYTES_PER_BLOB as nat by {
                    assert(commitment_ok(self@, blobs[i], outs[i]));
                }
            } else if all_valid_len(blobs) && all_commitments_computable(self@, blobs) {
                let e = r->Err_0;
                let i = choose|i: int|
                    0 <= i < blobs.len() && #[trigger] commitment_err(self@, blobs[i], e);
                assert(blobs[i].len() == BYTES_PER_BLOB as nat);
                assert(commitment_computable(
                    self@.g1_monomial,
                    self@.g1_lagrange,
                    self@.g2_monomial,
                    blobs[i],
                ));
            }
        }
        r
    }

    /// Computes cell proofs for a batch of blobs concurrently. On success the
    /// result holds one proof sequence per input blob, at the input's own
    /// position; if any item fails, the whole call fails with an error that
    /// one of the items genuinely produced, and no partial result is
    /// returned. A batch holding a blob of the wrong length therefore never
    /// succeeds, and a batch whose every blob the external computation
    /// accepts never fails.
    pub fn compute_cell_proofs_batch(&self, blobs_bytes: Vec<Vec<u8>>) -> (r: Result<
        Vec<Vec<String>>,
        KzgError,
    >)
        ensures
            r matches Ok(v) ==> batch_cell_proofs_ok(self@, blobs_bytes.deep_view(), v.deep_view()),
            r matches Err(e) ==> exists|i: int|
                0 <= i < blobs_bytes.deep_view().len() && #[trigger] cell_proofs_err(
                    self@,
                    blobs_bytes.deep_view()[i],
                    e,
                ),
            !all_valid_len(blobs_bytes.deep_view()) ==> r is Err,
            all_valid_len(blobs_bytes.deep_view()) && all_cell_proofs_computable(
                self@,
                blobs_bytes.deep_view(),
            ) ==> r is Ok,
    {
        let r = self.par_cell_proofs(&blobs_bytes);
        proof {
            let blobs = blobs_bytes.deep_view();
            if r is Ok {
                let outs = r->Ok_0.deep_view();
                assert forall|i: int| 0 <= i < blobs.len() implies #[trigger] blobs[i].len()
                    == BYTES_PER_BLOB as nat by {
                    assert(cell_proofs_ok(self@, blobs[i], outs[i]));
                }
            } else if all_valid_len(blobs) && all_cell_proofs_computable(self@, blobs) {
                let e = r->Err_0;
                let i = choose|i: int|
                    0 <= i < blobs.len() && #[trigger] cell_proofs_err(self@, blobs[i], e);
                assert(blobs[i].len() == BYTES_PER_BLOB as nat);
                assert(cell_proofs_computable(
                    self@.g1_monomial,
                    self@.g1_lagrange,
                    self@.g2_monomial,
                    blobs[i],
                ));
            }
        }
        r
    }
}

} // verus!
