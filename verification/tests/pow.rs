use pallet_pow::Error;
use pallet_pow::Event;
use pallet_pow::H256;
use pallet_pow::Pallet;

use parity_scale_codec::Encode;

#[test]
fn test_submit_valid_proof() {
    // Arrange input data
    let account_id: u64 = 1;
    let nonce: u64 = 42;
    let proof_bytes = [0x01u8; 32];
    let proof = H256::from_vec(proof_bytes.to_vec()); // A valid proof
    let data = (account_id, nonce, proof_bytes);
    let generated_hash = sp_crypto_hashing::blake2_256(&Encode::encode(&data));

    // Ensure the generated hash meets the target
    let target = [0xF0u8; 32];
    assert!(generated_hash <= target, "Generated hash does not meet target");

    // Act: call submit_proof
    let mut pow = Pallet::new();
    let result = pow.submit_proof(account_id, nonce, &proof);
    assert!(result.is_ok());

    // Assert: check that the ledger state is updated correctly
    assert_eq!(pow.latest_nonce(), nonce);
    assert_eq!(pow.last_successful_hash(), proof);

    // Assert: verify the notification that the call handed back
    let event = result.unwrap();
    assert!(matches!(
        event,
        Event::ProofSubmitted { who, nonce: n, ref hash }
        if who == account_id && n == nonce && *hash == H256::from_vec(generated_hash.to_vec())
    ));
}

#[test]
fn test_submit_invalid_proof() {
    // Arrange input data
    let account_id: u64 = 1;
    let nonce: u64 = 100;
    let invalid_proof = H256::repeat_byte(0x01); // An invalid proof
    let data = (account_id, nonce, [0x01u8; 32]);
    let generated_hash = sp_crypto_hashing::blake2_256(&Encode::encode(&data));

    // Ensure the generated hash does not meet the target
    let target = [0xF0u8; 32];
    assert!(generated_hash > target, "Generated hash meets target unexpectedly");

    // Act & assert: call submit_proof and expect an error
    let mut pow = Pallet::new();
    let result = pow.submit_proof(account_id, nonce, &invalid_proof);
    assert!(matches!(result, Err(Error::InvalidProof)));

    // Assert: ensure that the ledger state was not updated
    assert_eq!(pow.latest_nonce(), 0);
    assert_eq!(pow.last_successful_hash(), H256::default());
}

#[test]
fn test_submit_proof_updates_storage_correctly() {
    // Arrange input data
    let account_id: u64 = 1;
    let nonce: u64 = 100;
    let proof_bytes = [0x02u8; 32];
    let proof = H256::from_vec(proof_bytes.to_vec()); // A valid proof
    let data = (account_id, nonce, proof_bytes);
    let generated_hash = sp_crypto_hashing::blake2_256(&Encode::encode(&data));

    // Ensure the generated hash meets the target
    let target = [0xF0u8; 32];
    assert!(generated_hash <= target, "Generated hash does not meet target");

    // Act: call submit_proof
    let mut pow = Pallet::new();
    let result = pow.submit_proof(account_id, nonce, &proof);
    assert!(result.is_ok());

    // Assert: check that the ledger state is updated correctly
    assert_eq!(pow.latest_nonce(), nonce);
    assert_eq!(pow.last_successful_hash(), proof);
}

#[test]
fn fresh_ledger_reports_defaults() {
    let pow = Pallet::new();
    assert_eq!(pow.latest_nonce(), 0);
    assert_eq!(pow.last_successful_hash(), H256::default());
    assert_eq!(pow.last_successful_hash().as_bytes().as_slice(), &[0u8; 32][..]);
}

#[test]
fn last_write_wins() {
    let mut pow = Pallet::new();

    // Two triples whose hashes meet the default target.
    let proof_a = H256::from_vec(vec![0x01u8; 32]);
    let proof_b = H256::from_vec(vec![0x02u8; 32]);
    assert!(pow.submit_proof(1, 42, &proof_a).is_ok());
    assert!(pow.submit_proof(1, 100, &proof_b).is_ok());

    // Only the second submission is left in the ledger.
    assert_eq!(pow.latest_nonce(), 100);
    assert_eq!(pow.last_successful_hash(), proof_b);
}

#[test]
fn repeated_submission_resolves_alike() {
    // A rejected triple stays rejected on a second try.
    let mut pow = Pallet::new();
    let rejected = H256::repeat_byte(0x01);
    let first = pow.submit_proof(1, 100, &rejected);
    let second = pow.submit_proof(1, 100, &rejected);
    assert!(matches!(first, Err(Error::InvalidProof)));
    assert!(matches!(second, Err(Error::InvalidProof)));

    // An accepted triple stays accepted, with the identical digest.
    let accepted = H256::from_vec(vec![0x01u8; 32]);
    let first_hash = match pow.submit_proof(1, 42, &accepted) {
        Ok(Event::ProofSubmitted { hash, .. }) => hash,
        Err(_) => panic!("first submission was rejected"),
    };
    let second_hash = match pow.submit_proof(1, 42, &accepted) {
        Ok(Event::ProofSubmitted { hash, .. }) => hash,
        Err(_) => panic!("second submission was rejected"),
    };
    assert_eq!(first_hash, second_hash);
}

#[test]
fn comparison_bound_is_inclusive() {
    // A value exactly equal to the bound passes the comparison.
    let target = H256::repeat_byte(0xF0);
    assert!(H256::repeat_byte(0xF0).le(&target));
    assert!(H256::repeat_byte(0x01).le(&target));
    assert!(!H256::repeat_byte(0xF1).le(&target));
}

#[test]
fn comparison_reads_bytes_big_endian() {
    // The leading byte outweighs everything after it.
    let mut low = vec![0x00u8; 32];
    low[1] = 0xFF;
    let mut high = vec![0x00u8; 32];
    high[0] = 0x01;
    let low = H256::from_vec(low);
    let high = H256::from_vec(high);
    assert!(low.le(&high));
    assert!(!high.le(&low));
}

#[test]
fn equality_follows_the_bytes() {
    assert_eq!(H256::from_vec(vec![0x01u8; 32]), H256::repeat_byte(0x01));
    assert_ne!(H256::repeat_byte(0x01), H256::repeat_byte(0x02));
    assert_eq!(H256::default(), H256::repeat_byte(0x00));
}

#[test]
fn configurable_target() {
    // Every digest meets the all-ones target.
    let proof = H256::repeat_byte(0xAB);
    let mut permissive = Pallet::with_target(H256::repeat_byte(0xFF));
    assert!(permissive.submit_proof(7, 5, &proof).is_ok());
    assert_eq!(permissive.latest_nonce(), 5);

    // Only an all-zero digest would meet the all-zero target, and this
    // triple's digest is not all-zero.
    let data = (7u64, 5u64, [0xABu8; 32]);
    let digest = sp_crypto_hashing::blake2_256(&Encode::encode(&data));
    assert_ne!(digest, [0u8; 32]);
    let mut strict = Pallet::with_target(H256::repeat_byte(0x00));
    assert!(matches!(strict.submit_proof(7, 5, &proof), Err(Error::InvalidProof)));
    assert_eq!(strict.latest_nonce(), 0);
}

#[test]
fn default_weight_is_fixed() {
    let w = <pallet_pow::DefaultWeightInfo as pallet_pow::WeightInfo>::submit_proof();
    assert_eq!(w, pallet_pow::Weight::from_parts(10_000, 0));
}
