//! A verifiable-delay-function challenge: a reward and a difficulty are posted
//! against an unpredictable seed, and the first submitted proof that passes the
//! Wesolowski verification equation reveals a piece of derived entropy and
//! claims the reward exactly once.

pub mod arith;
pub mod bytes;
pub mod challenge;
pub mod errors;
pub mod hashing;
pub mod vdf;
