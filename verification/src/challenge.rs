//! The challenge state machine: `initialize` creates an unsolved challenge
//! whose reward is escrowed in the challenge's own balance, and the first
//! `prove` call whose proof passes the verifier reveals the derived entropy
//! and settles the reward exactly once.

use vstd::prelude::*;
use crate::arith::{miller_rabin_base2, mr_base2_of};
use crate::bytes::{all_zero, bytes_value, copy_bytes, is_all_zero, push_byte};
use crate::errors::EntropyError;
use crate::hashing::{sha256, sha256_of};
use crate::vdf::{equation_holds, proof_well_formed, spec_vdf_accepts, verify};

verus! {

/// A challenge to produce entropy with a verifiable delay function in
/// exchange for a reward.
pub struct Challenge {
    /// SHA-256 digest of the randomness the challenge was seeded from.
    pub hash: Vec<u8>,
    /// Number of sequential squarings the VDF must run to solve the challenge.
    pub difficulty: u64,
    /// Value the solver is rewarded for providing the proof.
    pub reward: u64,
    /// SHA-256 digest of the accepted proof; all-zero while unsolved.
    pub entropy: Vec<u8>,
}

/// The mathematical content of a challenge record.
#[verifier::ext_equal]
pub struct ChallengeView {
    pub hash: Seq<u8>,
    pub difficulty: u64,
    pub reward: u64,
    pub entropy: Seq<u8>,
}

impl View for Challenge {
    type V = ChallengeView;

    open spec fn view(&self) -> ChallengeView {
        ChallengeView {
            hash: self.hash@,
            difficulty: self.difficulty,
            reward: self.reward,
            entropy: self.entropy@,
        }
    }
}

impl ChallengeView {
    /// Both digest fields carry exactly 32 bytes.
    pub open spec fn wf(self) -> bool {
        self.hash.len() == 32 && self.entropy.len() == 32
    }

    /// A challenge is solved exactly when its outcome digest is non-zero.
    pub open spec fn solved(self) -> bool {
        !all_zero(self.entropy)
    }

    /// The record invariant: a solved challenge never retains a payable
    /// reward.
    pub open spec fn inv(self) -> bool {
        self.solved() ==> self.reward == 0
    }
}

/// The all-zero outcome sentinel.
pub open spec fn zero_digest_seq() -> Seq<u8> {
    Seq::new(32, |i: int| 0u8)
}

/// Builds the all-zero outcome sentinel.
pub fn zero_digest() -> (r: Vec<u8>)
    ensures
        r@ == zero_digest_seq(),
{
    let mut r: Vec<u8> = Vec::new();
    let mut i: usize = 0;
    while i < 32
        invariant
            i <= 32,
            r@.len() == i,
            forall|j: int| 0 <= j < i ==> r@[j] == 0,
        decreases 32 - i,
    {
        r.push(0);
        i += 1;
    }
    proof {
        assert(r@ =~= zero_digest_seq());
    }
    r
}

/// Everything `initialize` touches: the challenge record, its escrow balance,
/// the payer's balance, and the latest value of the external randomness
/// source, `None` when that source is unavailable.
pub struct Initialize {
    pub challenge: Challenge,
    pub challenge_balance: u64,
    pub payer_balance: u64,
    pub randomness: Option<Vec<u8>>,
}

/// The mathematical content of an `initialize` context.
#[verifier::ext_equal]
pub struct InitializeView {
    pub challenge: ChallengeView,
    pub challenge_balance: u64,
    pub payer_balance: u64,
    pub randomness: Option<Seq<u8>>,
}

impl View for Initialize {
    type V = InitializeView;

    open spec fn view(&self) -> InitializeView {
        InitializeView {
            challenge: self.challenge@,
            challenge_balance: self.challenge_balance,
            payer_balance: self.payer_balance,
            randomness: match self.randomness {
                Option::Some(v) => Option::Some(v@),
                Option::None => Option::None,
            },
        }
    }
}

/// Everything `prove` touches: the challenge record, its escrow balance, and
/// the prover's balance.
pub struct Prove {
    pub challenge: Challenge,
    pub challenge_balance: u64,
    pub prover_balance: u64,
}

/// The mathematical content of a `prove` context.
#[verifier::ext_equal]
pub struct ProveView {
    pub challenge: ChallengeView,
    pub challenge_balance: u64,
    pub prover_balance: u64,
}

impl View for Prove {
    type V = ProveView;

    open spec fn view(&self) -> ProveView {
        ProveView {
            challenge: self.challenge@,
            challenge_balance: self.challenge_balance,
            prover_balance: self.prover_balance,
        }
    }
}

/// Which error `initialize` reports on a given pre-state, `None` when it
/// succeeds: the randomness source must supply 32 bytes, the payer must cover
/// the reward, and the escrow credit must stay representable.
pub open spec fn initialize_error(
    pre: InitializeView,
    difficulty: u64,
    reward: u64,
) -> Option<EntropyError> {
    match pre.randomness {
        Option::None => Option::Some(EntropyError::UnsupportedRandomnessSource),
        Option::Some(rv) => if rv.len() != 32 {
            Option::Some(EntropyError::UnsupportedRandomnessSource)
        } else if pre.payer_balance < reward {
            Option::Some(EntropyError::InsufficientFunds)
        } else if pre.challenge_balance + reward > u64::MAX {
            Option::Some(EntropyError::Overflow)
        } else {
            Option::None
        },
    }
}

/// The state a successful `initialize` leaves behind: a fresh unsolved record
/// seeded with the digest of the randomness, and the reward moved from the
/// payer into the challenge's own balance.
pub open spec fn initialize_post(
    pre: InitializeView,
    difficulty: u64,
    reward: u64,
) -> InitializeView {
    match pre.randomness {
        Option::Some(rv) => InitializeView {
            challenge: ChallengeView {
                hash: sha256_of(rv),
                difficulty: difficulty,
                reward: reward,
                entropy: zero_digest_seq(),
            },
            challenge_balance: (pre.challenge_balance + reward) as u64,
            payer_balance: (pre.payer_balance - reward) as u64,
            randomness: pre.randomness,
        },
        Option::None => pre,
    }
}

/// Creates a challenge: derives the seed from the external randomness,
/// escrows the reward from the payer, and writes the record unsolved. On any
/// error, nothing changes.
pub fn initialize(ctx: &mut Initialize, difficulty: u64, reward: u64) -> (r: Result<
    (),
    EntropyError,
>)
    ensures
        match r {
            Ok(()) => initialize_error(old(ctx)@, difficulty, reward) is None && final(ctx)@
                == initialize_post(old(ctx)@, difficulty, reward) && final(ctx)@.challenge.wf()
                && final(ctx)@.challenge.inv(),
            Err(e) => initialize_error(old(ctx)@, difficulty, reward) == Some(e) && final(ctx)@
                == old(ctx)@,
        },
{
    let rv: Vec<u8> = match &ctx.randomness {
        Option::None => {
            return Err(EntropyError::UnsupportedRandomnessSource);
        },
        Option::Some(v) => {
            if v.len() != 32 {
                return Err(EntropyError::UnsupportedRandomnessSource);
            }
            copy_bytes(v)
        },
    };
    if ctx.payer_balance < reward {
        return Err(EntropyError::InsufficientFunds);
    }
    if ctx.challenge_balance > u64::MAX - reward {
        return Err(EntropyError::Overflow);
    }
    ctx.challenge.hash = sha256(&rv);
    ctx.challenge.difficulty = difficulty;
    ctx.challenge.reward = reward;
    ctx.challenge.entropy = zero_digest();
    ctx.challenge_balance = ctx.challenge_balance + reward;
    ctx.payer_balance = ctx.payer_balance - reward;
    proof {
        assert(ctx@ =~= initialize_post(old(ctx)@, difficulty, reward));
    }
    Ok(())
}

/// Which error `prove` reports on a given pre-state and proof, `None` when it
/// succeeds: an already solved challenge refuses first; then the proof must
/// be well formed and satisfy the verification equation; then the settlement
/// must be coverable and representable.
pub open spec fn prove_error(pre: ProveView, proof: Seq<u8>) -> Option<EntropyError> {
    if pre.challenge.solved() {
        Option::Some(EntropyError::AlreadySolved)
    } else if !proof_well_formed(proof) {
        Option::Some(EntropyError::MalformedProof)
    } else if !equation_holds(pre.challenge.hash, pre.challenge.difficulty, proof) {
        Option::Some(EntropyError::InvalidProof)
    } else if pre.challenge_balance < pre.challenge.reward {
        Option::Some(EntropyError::InsufficientFunds)
    } else if pre.prover_balance + pre.challenge.reward > u64::MAX {
        Option::Some(EntropyError::Overflow)
    } else {
        Option::None
    }
}

/// The state a successful `prove` leaves behind: the outcome set to the
/// digest of the proof, the reward zeroed, and exactly the old reward moved
/// from the challenge's balance to the prover, all in one step.
pub open spec fn prove_post(pre: ProveView, proof: Seq<u8>) -> ProveView {
    ProveView {
        challenge: ChallengeView {
            hash: pre.challenge.hash,
            difficulty: pre.challenge.difficulty,
            reward: 0,
            entropy: sha256_of(proof),
        },
        challenge_balance: (pre.challenge_balance - pre.challenge.reward) as u64,
        prover_balance: (pre.prover_balance + pre.challenge.reward) as u64,
    }
}

/// Settles a challenge with a candidate proof. The first accepted proof sets
/// the outcome and pays the reward; every error leaves the whole state
/// unchanged.
pub fn prove(ctx: &mut Prove, proof: &Vec<u8>) -> (r: Result<(), EntropyError>)
    ensures
        match r {
            Ok(()) => prove_error(old(ctx)@, proof@) is None && final(ctx)@ == prove_post(
                old(ctx)@,
                proof@,
            ) && final(ctx)@.challenge.entropy.len() == 32 && final(ctx)@.challenge.inv(),
            Err(e) => prove_error(old(ctx)@, proof@) == Some(e) && final(ctx)@ == old(ctx)@,
        },
{
    if !is_all_zero(&ctx.challenge.entropy) {
        return Err(EntropyError::AlreadySolved);
    }
    match verify(&ctx.challenge.hash, ctx.challenge.difficulty, proof) {
        Err(e) => {
            return Err(e);
        },
        Ok(()) => {},
    }
    if ctx.challenge_balance < ctx.challenge.reward {
        return Err(EntropyError::InsufficientFunds);
    }
    if ctx.prover_balance > u64::MAX - ctx.challenge.reward {
        return Err(EntropyError::Overflow);
    }
    let reward = ctx.challenge.reward;
    ctx.challenge.entropy = sha256(proof);
    ctx.challenge.reward = 0;
    ctx.challenge_balance = ctx.challenge_balance - reward;
    ctx.prover_balance = ctx.prover_balance + reward;
    proof {
        assert(ctx@ =~= prove_post(old(ctx)@, proof@));
    }
    Ok(())
}

/// Creation escrows exactly the reward: after a successful `initialize` the
/// record is unsolved, carries the requested difficulty and reward, and the
/// payer's balance dropped by exactly the reward while the challenge's
/// balance rose by the same amount.
pub proof fn lemma_initialize_escrow(pre: InitializeView, difficulty: u64, reward: u64)
    requires
        initialize_error(pre, difficulty, reward) is None,
    ensures
        !initialize_post(pre, difficulty, reward).challenge.solved(),
        initialize_post(pre, difficulty, reward).challenge.difficulty == difficulty,
        initialize_post(pre, difficulty, reward).challenge.reward == reward,
        initialize_post(pre, difficulty, reward).payer_balance == pre.payer_balance - reward,
        initialize_post(pre, difficulty, reward).challenge_balance == pre.challenge_balance
            + reward,
{
    assert(all_zero(zero_digest_seq()));
}

/// An unsolved challenge accepts every proof that the verifier accepts for
/// its seed and difficulty, provided the escrow covers the reward and the
/// prover's balance can take the credit.
pub proof fn lemma_unsolved_accepts_valid_proof(pre: ProveView, proof: Seq<u8>)
    requires
        !pre.challenge.solved(),
        spec_vdf_accepts(pre.challenge.hash, pre.challenge.difficulty, proof),
        pre.challenge.reward <= pre.challenge_balance,
        pre.prover_balance + pre.challenge.reward <= u64::MAX,
    ensures
        prove_error(pre, proof) is None,
{
}

/// Settlement is exactly-once: after a proof is accepted, and as long as its
/// revealed digest is not the all-zero sentinel, every further attempt with
/// any proof whatsoever reports `AlreadySolved`, so no second payout can
/// occur.
pub proof fn lemma_solved_is_terminal(pre: ProveView, accepted: Seq<u8>, later: Seq<u8>)
    requires
        prove_error(pre, accepted) is None,
    ensures
        !all_zero(sha256_of(accepted)) ==> prove_error(prove_post(pre, accepted), later)
            == Some(EntropyError::AlreadySolved),
{
}

/// The transition that sets the outcome zeroes the reward in the same step,
/// and moves exactly the old reward from the escrow to the prover: a solved
/// challenge never retains a payable balance.
pub proof fn lemma_settlement_zeroes_reward(pre: ProveView, accepted: Seq<u8>)
    requires
        prove_error(pre, accepted) is None,
    ensures
        prove_post(pre, accepted).challenge.reward == 0,
        prove_post(pre, accepted).challenge_balance == pre.challenge_balance
            - pre.challenge.reward,
        prove_post(pre, accepted).prover_balance == pre.prover_balance + pre.challenge.reward,
{
}

/// The revealed entropy of an accepted proof is the SHA-256 digest of the
/// proof bytes alone: two challenges that differ only in reward and balances
/// reveal the same entropy for the same proof.
pub proof fn lemma_entropy_independent_of_reward(pre1: ProveView, pre2: ProveView, proof: Seq<u8>)
    requires
        prove_error(pre1, proof) is None,
        prove_error(pre2, proof) is None,
    ensures
        prove_post(pre1, proof).challenge.entropy == sha256_of(proof),
        prove_post(pre1, proof).challenge.entropy == prove_post(pre2, proof).challenge.entropy,
{
}

/// The number the standalone primality probe tests: a fixed 256-bit
/// candidate.
pub open spec fn prime_candidate_value() -> nat {
    66879465661348111229871989287968040993513351195484998191057052014006844134449nat
}

/// A standalone primality probe: runs one base-two Miller-Rabin round on a
/// fixed 256-bit candidate and reports the verdict.
pub fn prime() -> (r: bool)
    ensures
        r == mr_base2_of(prime_candidate_value()),
{
    let mut v: Vec<u8> = Vec::new();
    push_byte(&mut v, 0x93);
    push_byte(&mut v, 0xdc);
    push_byte(&mut v, 0x6f);
    push_byte(&mut v, 0xa5);
    push_byte(&mut v, 0xdb);
    push_byte(&mut v, 0x8c);
    push_byte(&mut v, 0x12);
    push_byte(&mut v, 0x2e);
    push_byte(&mut v, 0xe0);
    push_byte(&mut v, 0x32);
    push_byte(&mut v, 0x78);
    push_byte(&mut v, 0xf6);
    push_byte(&mut v, 0x0c);
    push_byte(&mut v, 0x11);
    push_byte(&mut v, 0x02);
    push_byte(&mut v, 0x24);
    push_byte(&mut v, 0xe0);
    push_byte(&mut v, 0x7c);
    push_byte(&mut v, 0x09);
    push_byte(&mut v, 0xa0);
    push_byte(&mut v, 0x3b);
    push_byte(&mut v, 0x5b);
    push_byte(&mut v, 0x69);
    push_byte(&mut v, 0x15);
    push_byte(&mut v, 0x50);
    push_byte(&mut v, 0x4a);
    push_byte(&mut v, 0x6a);
    push_byte(&mut v, 0x55);
    push_byte(&mut v, 0x15);
    push_byte(&mut v, 0xee);
    push_byte(&mut v, 0x14);
    push_byte(&mut v, 0x31);
    proof {
        assert(bytes_value(v@) == prime_candidate_value());
    }
    miller_rabin_base2(&v)
}

} // verus!
