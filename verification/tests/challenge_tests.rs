use entropy::challenge::{initialize, prime, prove, Challenge, Initialize, Prove};
use entropy::errors::EntropyError;
use num_bigint_dig::BigUint;
use sha2::{Digest, Sha256};

const ELEMENT_SIZE: usize = 258;
const PROOF_SIZE: usize = 516;

fn sha256_vec(data: &[u8]) -> Vec<u8> {
    Sha256::digest(data).to_vec()
}

fn group_modulus() -> BigUint {
    BigUint::from_bytes_be(&vec![0xffu8; 256])
}

fn pad_element(v: &BigUint) -> Vec<u8> {
    let raw = v.to_bytes_be();
    assert!(raw.len() <= ELEMENT_SIZE);
    let mut out = vec![0u8; ELEMENT_SIZE - raw.len()];
    out.extend_from_slice(&raw);
    out
}

/// Builds a proof that satisfies the verification equation for the given seed
/// digest and difficulty, by evaluating the VDF honestly.
fn build_valid_proof(seed: &[u8], difficulty: u64) -> Vec<u8> {
    let n = group_modulus();
    let g = BigUint::from_bytes_be(seed);
    let t = BigUint::from(1u32) << (difficulty as usize);
    let y = g.modpow(&t, &n);
    let mut fs = seed.to_vec();
    fs.extend_from_slice(&pad_element(&y));
    fs.extend_from_slice(&difficulty.to_be_bytes());
    let h = BigUint::from_bytes_be(&sha256_vec(&fs));
    let l = num_bigint_dig::prime::next_prime(&h);
    let q = &t / &l;
    let pi = g.modpow(&q, &n);
    let mut proof = pad_element(&pi);
    proof.extend_from_slice(&pad_element(&y));
    assert_eq!(proof.len(), PROOF_SIZE);
    proof
}

fn fresh_challenge(hash: Vec<u8>, difficulty: u64, reward: u64) -> Challenge {
    Challenge { hash, difficulty, reward, entropy: vec![0u8; 32] }
}

fn seeded_prove_state(randomness: &[u8], difficulty: u64, reward: u64) -> Prove {
    let seed = sha256_vec(randomness);
    Prove {
        challenge: fresh_challenge(seed, difficulty, reward),
        challenge_balance: reward,
        prover_balance: 0,
    }
}

#[test]
fn test_initialize_escrow() {
    let mut ctx = Initialize {
        challenge: fresh_challenge(vec![0u8; 32], 0, 0),
        challenge_balance: 0,
        payer_balance: 10_000,
        randomness: Some(vec![7u8; 32]),
    };
    let r = initialize(&mut ctx, 1000, 5000);
    assert_eq!(r, Ok(()));
    assert_eq!(ctx.challenge.difficulty, 1000);
    assert_eq!(ctx.challenge.reward, 5000);
    assert_eq!(ctx.challenge.entropy, vec![0u8; 32]);
    assert_eq!(ctx.payer_balance, 5_000);
    assert_eq!(ctx.challenge_balance, 5_000);
    // SHA-256 of thirty-two 0x07 bytes.
    let expected: Vec<u8> = vec![
        0x4b, 0xb0, 0x6f, 0x8e, 0x4e, 0x3a, 0x77, 0x15, 0xd2, 0x01, 0xd5, 0x73, 0xd0, 0xaa, 0x42,
        0x37, 0x62, 0xe5, 0x5d, 0xab, 0xd6, 0x1a, 0x2c, 0x02, 0x27, 0x8f, 0xa5, 0x6c, 0xc6, 0xd2,
        0x94, 0xe0,
    ];
    assert_eq!(ctx.challenge.hash, expected);
}

#[test]
fn test_initialize_zero_reward_leaves_balances() {
    let mut ctx = Initialize {
        challenge: fresh_challenge(vec![0u8; 32], 0, 0),
        challenge_balance: 3,
        payer_balance: 77,
        randomness: Some(vec![9u8; 32]),
    };
    let r = initialize(&mut ctx, 42, 0);
    assert_eq!(r, Ok(()));
    assert_eq!(ctx.payer_balance, 77);
    assert_eq!(ctx.challenge_balance, 3);
    assert_eq!(ctx.challenge.reward, 0);
}

#[test]
fn test_initialize_missing_randomness() {
    let mut ctx = Initialize {
        challenge: fresh_challenge(vec![1u8; 32], 2, 3),
        challenge_balance: 4,
        payer_balance: 100,
        randomness: None,
    };
    let r = initialize(&mut ctx, 5, 50);
    assert_eq!(r, Err(EntropyError::UnsupportedRandomnessSource));
    assert_eq!(ctx.payer_balance, 100);
    assert_eq!(ctx.challenge_balance, 4);
    assert_eq!(ctx.challenge.reward, 3);
}

#[test]
fn test_initialize_short_randomness() {
    let mut ctx = Initialize {
        challenge: fresh_challenge(vec![0u8; 32], 0, 0),
        challenge_balance: 0,
        payer_balance: 100,
        randomness: Some(vec![7u8; 31]),
    };
    let r = initialize(&mut ctx, 5, 50);
    assert_eq!(r, Err(EntropyError::UnsupportedRandomnessSource));
    assert_eq!(ctx.payer_balance, 100);
}

#[test]
fn test_initialize_insufficient_funds() {
    let mut ctx = Initialize {
        challenge: fresh_challenge(vec![0u8; 32], 0, 0),
        challenge_balance: 0,
        payer_balance: 49,
        randomness: Some(vec![7u8; 32]),
    };
    let r = initialize(&mut ctx, 5, 50);
    assert_eq!(r, Err(EntropyError::InsufficientFunds));
    assert_eq!(ctx.payer_balance, 49);
    assert_eq!(ctx.challenge.reward, 0);
}

#[test]
fn test_initialize_overflow() {
    let mut ctx = Initialize {
        challenge: fresh_challenge(vec![0u8; 32], 0, 0),
        challenge_balance: u64::MAX,
        payer_balance: 100,
        randomness: Some(vec![7u8; 32]),
    };
    let r = initialize(&mut ctx, 5, 50);
    assert_eq!(r, Err(EntropyError::Overflow));
    assert_eq!(ctx.challenge_balance, u64::MAX);
    assert_eq!(ctx.payer_balance, 100);
}

#[test]
fn test_prove_wrong_length() {
    let mut ctx = seeded_prove_state(&[7u8; 32], 4, 10);
    let proof = vec![1u8; 515];
    let r = prove(&mut ctx, &proof);
    assert_eq!(r, Err(EntropyError::MalformedProof));
    assert_eq!(ctx.challenge.entropy, vec![0u8; 32]);
    assert_eq!(ctx.challenge.reward, 10);
    assert_eq!(ctx.prover_balance, 0);
}

#[test]
fn test_prove_zero_element_rejected() {
    let mut ctx = seeded_prove_state(&[7u8; 32], 4, 10);
    let proof = vec![0u8; PROOF_SIZE];
    let r = prove(&mut ctx, &proof);
    assert_eq!(r, Err(EntropyError::MalformedProof));
    assert_eq!(ctx.challenge.entropy, vec![0u8; 32]);
}

#[test]
fn test_prove_oversized_element_rejected() {
    let mut ctx = seeded_prove_state(&[7u8; 32], 4, 10);
    // Both halves all-ones: each denotes a number at least the modulus.
    let proof = vec![0xffu8; PROOF_SIZE];
    let r = prove(&mut ctx, &proof);
    assert_eq!(r, Err(EntropyError::MalformedProof));
    assert_eq!(ctx.challenge.entropy, vec![0u8; 32]);
}

#[test]
fn test_prove_mutated_proof_rejected() {
    let mut ctx = seeded_prove_state(&[7u8; 32], 64, 10);
    let seed = ctx.challenge.hash.clone();
    let mut proof = build_valid_proof(&seed, 64);
    proof[100] ^= 0x01;
    let r = prove(&mut ctx, &proof);
    assert_eq!(r, Err(EntropyError::InvalidProof));
    assert_eq!(ctx.challenge.entropy, vec![0u8; 32]);
    assert_eq!(ctx.challenge.reward, 10);
    assert_eq!(ctx.challenge_balance, 10);
    assert_eq!(ctx.prover_balance, 0);
}

#[test]
fn test_prove_end_to_end() {
    let mut init = Initialize {
        challenge: fresh_challenge(vec![0u8; 32], 0, 0),
        challenge_balance: 0,
        payer_balance: 10_000,
        randomness: Some(vec![7u8; 32]),
    };
    assert_eq!(initialize(&mut init, 1000, 5000), Ok(()));
    let mut ctx = Prove {
        challenge: init.challenge,
        challenge_balance: init.challenge_balance,
        prover_balance: 123,
    };
    let proof = build_valid_proof(&ctx.challenge.hash.clone(), 1000);
    let r = prove(&mut ctx, &proof);
    assert_eq!(r, Ok(()));
    assert_eq!(ctx.challenge.entropy, sha256_vec(&proof));
    assert_ne!(ctx.challenge.entropy, vec![0u8; 32]);
    assert_eq!(ctx.challenge.reward, 0);
    assert_eq!(ctx.challenge_balance, 0);
    assert_eq!(ctx.prover_balance, 5_123);
}

#[test]
fn test_prove_second_attempt_already_solved() {
    let mut ctx = seeded_prove_state(&[7u8; 32], 128, 900);
    let seed = ctx.challenge.hash.clone();
    let proof = build_valid_proof(&seed, 128);
    assert_eq!(prove(&mut ctx, &proof), Ok(()));
    let entropy = ctx.challenge.entropy.clone();

    // The very same proof again.
    assert_eq!(prove(&mut ctx, &proof), Err(EntropyError::AlreadySolved));
    // A distinct, valid-looking proof as a racing prover would submit it.
    let mut other = build_valid_proof(&seed, 128);
    other[0] ^= 0x01;
    assert_eq!(prove(&mut ctx, &other), Err(EntropyError::AlreadySolved));

    assert_eq!(ctx.challenge.entropy, entropy);
    assert_eq!(ctx.challenge.reward, 0);
    assert_eq!(ctx.prover_balance, 900);
    assert_eq!(ctx.challenge_balance, 0);
}

#[test]
fn test_prove_entropy_independent_of_reward() {
    let mut rich = seeded_prove_state(&[8u8; 32], 256, 4444);
    let mut poor = seeded_prove_state(&[8u8; 32], 256, 0);
    let proof = build_valid_proof(&rich.challenge.hash.clone(), 256);
    assert_eq!(prove(&mut rich, &proof), Ok(()));
    assert_eq!(prove(&mut poor, &proof), Ok(()));
    assert_eq!(rich.challenge.entropy, poor.challenge.entropy);
    assert_eq!(rich.challenge.entropy, sha256_vec(&proof));
}

#[test]
fn test_prove_insufficient_escrow() {
    let mut ctx = seeded_prove_state(&[7u8; 32], 32, 10);
    ctx.challenge_balance = 5;
    let proof = build_valid_proof(&ctx.challenge.hash.clone(), 32);
    let r = prove(&mut ctx, &proof);
    assert_eq!(r, Err(EntropyError::InsufficientFunds));
    assert_eq!(ctx.challenge.entropy, vec![0u8; 32]);
    assert_eq!(ctx.challenge.reward, 10);
}

#[test]
fn test_prove_payout_overflow() {
    let mut ctx = seeded_prove_state(&[7u8; 32], 32, 10);
    ctx.prover_balance = u64::MAX;
    let proof = build_valid_proof(&ctx.challenge.hash.clone(), 32);
    let r = prove(&mut ctx, &proof);
    assert_eq!(r, Err(EntropyError::Overflow));
    assert_eq!(ctx.challenge.entropy, vec![0u8; 32]);
    assert_eq!(ctx.prover_balance, u64::MAX);
}

#[test]
fn test_prime_probe() {
    // The fixed candidate is a 256-bit prime, so the base-two round passes.
    assert!(prime());
}
