//! The Wesolowski verifier: a proof of `difficulty` sequential squarings of a
//! seed-derived generator is checked with one Fiat-Shamir challenge prime and
//! two modular exponentiations, at a cost independent of the difficulty.

use vstd::prelude::*;
use vstd::arithmetic::power::pow;
use crate::arith::{lt_bytes, modpow_bytes, mul_bytes, next_prime_bytes, next_prime_of, rem_bytes};
use crate::bytes::{append_bytes, bytes_value, copy_bytes, lemma_bytes_value_last, push_byte,
    spec_u64_be_bytes, sub_vec, u64_be_bytes};
use crate::errors::EntropyError;
use crate::hashing::{sha256, sha256_of};

verus! {

/// Width of the group modulus, in bits.
pub const INT_SIZE_BITS: usize = 2048;

/// Width of one fixed-width group-element encoding: the modulus width plus 16
/// bits of padding, rounded to a 4-byte boundary.
pub const ELEMENT_SIZE_BYTES: usize = ((INT_SIZE_BITS + 16) / 16) * 2;

/// Width of a proof: two concatenated group-element encodings.
pub const PROOF_SIZE_BYTES: usize = 2 * ELEMENT_SIZE_BYTES;

/// Width of the group modulus, in bytes.
pub const MODULUS_SIZE_BYTES: usize = INT_SIZE_BITS / 8;

/// The bytes of the fixed public group modulus, `2^2048 - 1`. The verifier's
/// contract is stated over `group_modulus_value` and does not depend on the
/// particular value; a deployment that needs the sequentiality guarantee picks
/// a modulus of unknown factorization of the same width.
pub open spec fn group_modulus_seq() -> Seq<u8> {
    Seq::new(MODULUS_SIZE_BYTES as nat, |i: int| 0xffu8)
}

/// The number the fixed public group modulus denotes.
pub open spec fn group_modulus_value() -> nat {
    bytes_value(group_modulus_seq())
}

/// The group element a seed embeds to: the number its 32 bytes denote. A seed
/// is itself a digest, so the embedding is collision resistant, and a 32-byte
/// value always lies below the 256-byte modulus.
pub open spec fn spec_generator(seed: Seq<u8>) -> nat {
    bytes_value(seed)
}

/// The byte string hashed to derive the Fiat-Shamir challenge prime: the seed
/// (which commits to the generator), the claimed output element, and the
/// difficulty in eight big-endian bytes.
pub open spec fn fs_challenge_input(seed: Seq<u8>, difficulty: u64, output: Seq<u8>) -> Seq<u8> {
    seed + output + spec_u64_be_bytes(difficulty)
}

/// The Fiat-Shamir challenge prime: the next prime above the number the
/// SHA-256 digest of the challenge input denotes. Deriving it from the seed,
/// the claimed output and the difficulty binds a proof to that exact triple.
pub open spec fn spec_challenge_prime(seed: Seq<u8>, difficulty: u64, output: Seq<u8>) -> nat {
    next_prime_of(bytes_value(sha256_of(fs_challenge_input(seed, difficulty, output))))
}

/// The first fixed-width half of a proof: the Wesolowski witness element.
pub open spec fn spec_proof_pi(proof: Seq<u8>) -> nat {
    bytes_value(proof.subrange(0, ELEMENT_SIZE_BYTES as int))
}

/// The second fixed-width half of a proof, as bytes: the claimed VDF output.
pub open spec fn spec_output_bytes(proof: Seq<u8>) -> Seq<u8> {
    proof.subrange(ELEMENT_SIZE_BYTES as int, PROOF_SIZE_BYTES as int)
}

/// The number the claimed VDF output denotes.
pub open spec fn spec_proof_output(proof: Seq<u8>) -> nat {
    bytes_value(spec_output_bytes(proof))
}

/// A well-formed proof buffer: exactly `PROOF_SIZE_BYTES` bytes, and each half
/// denotes a group element, that is, a number that is neither zero nor beyond
/// the modulus.
pub open spec fn proof_well_formed(proof: Seq<u8>) -> bool {
    &&& proof.len() == PROOF_SIZE_BYTES
    &&& 0 < spec_proof_pi(proof) < group_modulus_value()
    &&& 0 < spec_proof_output(proof) < group_modulus_value()
}

/// The Wesolowski verification equation for a well-formed proof: with
/// generator `g`, witness `pi`, claimed output `y`, challenge prime `l` and
/// remainder `r = 2^difficulty mod l`, accept exactly when
/// `pi^l * g^r == y` in the group.
pub open spec fn equation_holds(seed: Seq<u8>, difficulty: u64, proof: Seq<u8>) -> bool {
    let pi = spec_proof_pi(proof);
    let y = spec_proof_output(proof);
    let g = spec_generator(seed);
    let l = spec_challenge_prime(seed, difficulty, spec_output_bytes(proof));
    let r = pow(2, difficulty as nat) % (l as int);
    (pow(pi as int, l) * pow(g as int, r as nat)) % (group_modulus_value() as int) == y
}

/// Acceptance: a well-formed proof that satisfies the verification equation.
pub open spec fn spec_vdf_accepts(seed: Seq<u8>, difficulty: u64, proof: Seq<u8>) -> bool {
    proof_well_formed(proof) && equation_holds(seed, difficulty, proof)
}

/// Builds the fixed public group modulus.
pub fn group_modulus() -> (m: Vec<u8>)
    ensures
        m@ == group_modulus_seq(),
        bytes_value(m@) > 0,
{
    let mut m: Vec<u8> = Vec::new();
    let mut i: usize = 0;
    while i < MODULUS_SIZE_BYTES
        invariant
            i <= MODULUS_SIZE_BYTES,
            m@.len() == i,
            forall|j: int| 0 <= j < i ==> m@[j] == 0xff,
        decreases MODULUS_SIZE_BYTES - i,
    {
        m.push(0xff);
        i += 1;
    }
    proof {
        assert(m@ =~= group_modulus_seq());
        lemma_bytes_value_last(m@);
    }
    m
}

/// Checks a proof of `difficulty` sequential squarings starting from `seed`.
/// Rejects a buffer of the wrong length before any group arithmetic; rejects
/// an out-of-range element with `MalformedProof`; rejects a well-formed proof
/// that fails the verification equation with `InvalidProof`.
pub fn verify(seed: &Vec<u8>, difficulty: u64, proof: &Vec<u8>) -> (r: Result<(), EntropyError>)
    ensures
        match r {
            Ok(()) => spec_vdf_accepts(seed@, difficulty, proof@),
            Err(EntropyError::MalformedProof) => !proof_well_formed(proof@),
            Err(EntropyError::InvalidProof) => proof_well_formed(proof@)
                && !equation_holds(seed@, difficulty, proof@),
            Err(_) => false,
        },
{
    if proof.len() != PROOF_SIZE_BYTES {
        return Err(EntropyError::MalformedProof);
    }
    let n = group_modulus();
    let pi = sub_vec(proof, 0, ELEMENT_SIZE_BYTES);
    let y = sub_vec(proof, ELEMENT_SIZE_BYTES, PROOF_SIZE_BYTES);
    let zero: Vec<u8> = Vec::new();
    assert(bytes_value(zero@) == 0);
    if !lt_bytes(&zero, &pi) || !lt_bytes(&pi, &n) || !lt_bytes(&zero, &y) || !lt_bytes(&y, &n) {
        return Err(EntropyError::MalformedProof);
    }
    let diff_bytes = u64_be_bytes(difficulty);
    let mut fs = copy_bytes(seed);
    append_bytes(&mut fs, &y);
    append_bytes(&mut fs, &diff_bytes);
    let h = sha256(&fs);
    let l = next_prime_bytes(&h);
    let mut two: Vec<u8> = Vec::new();
    push_byte(&mut two, 2);
    let r_bytes = modpow_bytes(&two, &diff_bytes, &l);
    let u1 = modpow_bytes(&pi, &l, &n);
    let u2 = modpow_bytes(seed, &r_bytes, &n);
    let prod = mul_bytes(&u1, &u2);
    let lhs = rem_bytes(&prod, &n);
    proof {
        let nv = group_modulus_value() as int;
        let lv = bytes_value(l@);
        let piv = spec_proof_pi(proof@) as int;
        let gv = spec_generator(seed@) as int;
        let rv = pow(2, difficulty as nat) % (lv as int);
        assert(fs@ == fs_challenge_input(seed@, difficulty, spec_output_bytes(proof@)));
        assert(lv == spec_challenge_prime(seed@, difficulty, spec_output_bytes(proof@)));
        assert(bytes_value(r_bytes@) == rv);
        vstd::arithmetic::div_mod::lemma_mul_mod_noop_general(
            pow(piv, lv),
            pow(gv, rv as nat),
            nv,
        );
        assert(bytes_value(lhs@) == (pow(piv, lv) * pow(gv, rv as nat)) % nv);
    }
    let accept = !lt_bytes(&lhs, &y) && !lt_bytes(&y, &lhs);
    if accept {
        Ok(())
    } else {
        Err(EntropyError::InvalidProof)
    }
}

} // verus!
