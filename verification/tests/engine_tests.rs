use kzg_engine::{KzgError, KzgWrapper, BYTES_PER_BLOB, CELLS_PER_EXT_BLOB};

const NUM_G1_POINTS: usize = 4096;
const NUM_G2_POINTS: usize = 65;

/// A minimal well-formed trusted setup: every G1 point is the generator, and
/// the G2 buffer starts with the generator followed by its double so that the
/// buffers do not look like a monomial series to the loader's pairing check.
fn setup_buffers() -> (Vec<u8>, Vec<u8>, Vec<u8>) {
    let g1 = bls12_381::G1Affine::generator().to_compressed();
    let g2 = bls12_381::G2Affine::generator().to_compressed();
    let g2_twice =
        bls12_381::G2Affine::from(bls12_381::G2Projective::generator().double()).to_compressed();

    let mut g1_monomial: Vec<u8> = Vec::new();
    for _ in 0..NUM_G1_POINTS {
        g1_monomial.extend_from_slice(&g1);
    }
    let g1_lagrange = g1_monomial.clone();

    let mut g2_monomial: Vec<u8> = Vec::new();
    g2_monomial.extend_from_slice(&g2);
    g2_monomial.extend_from_slice(&g2_twice);
    for _ in 2..NUM_G2_POINTS {
        g2_monomial.extend_from_slice(&g2);
    }
    (g1_monomial, g1_lagrange, g2_monomial)
}

fn engine() -> KzgWrapper {
    let (g1_monomial, g1_lagrange, g2_monomial) = setup_buffers();
    match KzgWrapper::load_kzg(g1_monomial, g1_lagrange, g2_monomial) {
        Ok(w) => w,
        Err(_) => panic!("the test setup must load"),
    }
}

/// A correctly sized blob whose 32-byte field elements are all canonical:
/// only the last byte of one element is set to `tag`.
fn valid_blob(tag: u8) -> Vec<u8> {
    let mut blob = vec![0u8; BYTES_PER_BLOB];
    blob[31] = tag;
    blob
}

fn is_prefixed_lowercase_hex(s: &str, payload_bytes: usize) -> bool {
    s.len() == 2 + 2 * payload_bytes
        && s.starts_with("0x")
        && s[2..].chars().all(|c| matches!(c, '0'..='9' | 'a'..='f'))
}

#[test]
fn load_valid_setup_succeeds() {
    let (g1_monomial, g1_lagrange, g2_monomial) = setup_buffers();
    let loaded = KzgWrapper::load_kzg(g1_monomial, g1_lagrange, g2_monomial);
    assert!(loaded.is_ok());
}

#[test]
fn load_truncated_g2_fails() {
    let (g1_monomial, g1_lagrange, mut g2_monomial) = setup_buffers();
    g2_monomial.truncate(g2_monomial.len() - 10);
    let loaded = KzgWrapper::load_kzg(g1_monomial, g1_lagrange, g2_monomial);
    match loaded {
        Err(KzgError::SetupLoadFailed { cause }) => assert!(!cause.is_empty()),
        _ => panic!("a truncated G2 buffer must fail to load"),
    }
}

#[test]
fn load_malformed_points_fails() {
    let (g1_monomial, g1_lagrange, g2_monomial) = setup_buffers();
    let garbage = vec![0xabu8; g1_monomial.len()];
    let loaded = KzgWrapper::load_kzg(garbage, g1_lagrange, g2_monomial);
    assert!(matches!(loaded, Err(KzgError::SetupLoadFailed { .. })));
}

#[test]
fn zero_blob_commitment_is_the_point_at_infinity() {
    let w = engine();
    let commitment = match w.blob_to_commitment(vec![0u8; BYTES_PER_BLOB]) {
        Ok(c) => c,
        Err(_) => panic!("a zero blob must commit"),
    };
    let mut expected = String::from("0xc0");
    for _ in 0..47 {
        expected.push_str("00");
    }
    assert_eq!(commitment, expected);
}

#[test]
fn commitment_is_prefixed_lowercase_hex() {
    let w = engine();
    let commitment = match w.blob_to_commitment(valid_blob(7)) {
        Ok(c) => c,
        Err(_) => panic!("a valid blob must commit"),
    };
    assert!(is_prefixed_lowercase_hex(&commitment, 48));
}

#[test]
fn commitment_is_deterministic() {
    let w = engine();
    let first = w.blob_to_commitment(valid_blob(9)).unwrap();
    let second = w.blob_to_commitment(valid_blob(9)).unwrap();
    assert_eq!(first, second);
}

#[test]
fn wrong_length_blob_is_rejected_without_computation() {
    let w = engine();
    for len in [0usize, 1, BYTES_PER_BLOB - 1, BYTES_PER_BLOB + 1] {
        match w.blob_to_commitment(vec![0u8; len]) {
            Err(KzgError::InvalidBlobLength { expected, actual }) => {
                assert_eq!(expected, BYTES_PER_BLOB);
                assert_eq!(actual, len);
            }
            _ => panic!("a wrong-length blob must be rejected"),
        }
        match w.compute_cell_proofs(vec![0u8; len]) {
            Err(KzgError::InvalidBlobLength { expected, actual }) => {
                assert_eq!(expected, BYTES_PER_BLOB);
                assert_eq!(actual, len);
            }
            _ => panic!("a wrong-length blob must be rejected"),
        }
    }
}

#[test]
fn cell_proofs_have_one_entry_per_cell() {
    let w = engine();
    let proofs = match w.compute_cell_proofs(valid_blob(3)) {
        Ok(p) => p,
        Err(_) => panic!("a valid blob must yield proofs"),
    };
    assert_eq!(proofs.len(), CELLS_PER_EXT_BLOB);
    for proof in &proofs {
        assert!(is_prefixed_lowercase_hex(proof, 48));
    }
}

#[test]
fn cell_proofs_are_deterministic() {
    let w = engine();
    let first = w.compute_cell_proofs(valid_blob(4)).unwrap();
    let second = w.compute_cell_proofs(valid_blob(4)).unwrap();
    assert_eq!(first, second);
}

#[test]
fn commitment_batch_matches_single_calls() {
    let w = engine();
    let blobs = vec![valid_blob(1), valid_blob(2), valid_blob(3)];
    let batch = w.blob_to_commitment_batch(blobs.clone()).unwrap();
    assert_eq!(batch.len(), blobs.len());
    for (i, blob) in blobs.into_iter().enumerate() {
        let single = w.blob_to_commitment(blob).unwrap();
        assert_eq!(batch[i], single);
    }
}

#[test]
fn commitment_batch_repeats_in_the_same_order() {
    let w = engine();
    let blobs = vec![valid_blob(1), valid_blob(2), valid_blob(3), valid_blob(4)];
    let first = w.blob_to_commitment_batch(blobs.clone()).unwrap();
    let second = w.blob_to_commitment_batch(blobs).unwrap();
    assert_eq!(first, second);
}

#[test]
fn commitment_batch_with_one_invalid_blob_fails_whole() {
    let w = engine();
    let blobs = vec![valid_blob(1), vec![0u8; 5], valid_blob(2)];
    match w.blob_to_commitment_batch(blobs) {
        Err(KzgError::InvalidBlobLength { expected, actual }) => {
            assert_eq!(expected, BYTES_PER_BLOB);
            assert_eq!(actual, 5);
        }
        _ => panic!("a batch with an invalid blob must fail as a whole"),
    }
}

#[test]
fn cell_proofs_batch_matches_single_calls() {
    let w = engine();
    let blobs = vec![valid_blob(5), valid_blob(6)];
    let batch = w.compute_cell_proofs_batch(blobs.clone()).unwrap();
    assert_eq!(batch.len(), blobs.len());
    for (i, blob) in blobs.into_iter().enumerate() {
        let single = w.compute_cell_proofs(blob).unwrap();
        assert_eq!(batch[i], single);
    }
}

#[test]
fn cell_proofs_batch_with_one_invalid_blob_fails_whole() {
    let w = engine();
    let blobs = vec![valid_blob(1), Vec::new()];
    match w.compute_cell_proofs_batch(blobs) {
        Err(KzgError::InvalidBlobLength { expected, actual }) => {
            assert_eq!(expected, BYTES_PER_BLOB);
            assert_eq!(actual, 0);
        }
        _ => panic!("a batch with an invalid blob must fail as a whole"),
    }
}

#[test]
fn non_canonical_field_element_fails_commitment_computation() {
    let w = engine();
    match w.blob_to_commitment(vec![0xffu8; BYTES_PER_BLOB]) {
        Err(KzgError::CommitmentComputationFailed { cause }) => assert!(!cause.is_empty()),
        _ => panic!("a non-canonical field element must fail the computation"),
    }
}

#[test]
fn non_canonical_field_element_fails_proof_computation() {
    let w = engine();
    match w.compute_cell_proofs(vec![0xffu8; BYTES_PER_BLOB]) {
        Err(KzgError::ProofComputationFailed { cause }) => assert!(!cause.is_empty()),
        _ => panic!("a non-canonical field element must fail the computation"),
    }
}

#[test]
fn distinct_blobs_commit_to_distinct_values() {
    let w = engine();
    let first = w.blob_to_commitment(valid_blob(1)).unwrap();
    let second = w.blob_to_commitment(valid_blob(2)).unwrap();
    assert_ne!(first, second);
}
