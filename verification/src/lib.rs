//! Registry-and-ledger core for AI model records, contributions,
//! verification attestations, and a reward token.
//!
//! Every mutation is a named operation that validates its inputs, mutates a
//! fixed set of records under stated invariants, and, where a token movement
//! is owed, returns a directive describing the transfer for the external
//! token-ledger collaborator to execute.  Identities arrive already
//! authenticated; the core resolves roles purely by equality against stored
//! identity fields.

use vstd::prelude::*;

pub mod contribution;
pub mod errors;
pub mod model_registry;
pub mod token;
pub mod verification;

verus! {

/// Address of a record or identity in the storage substrate.  The core never
/// inspects an address; it only compares addresses for equality and copies
/// them into reference fields.
pub type AccountId = u64;

/// Fixed-point scale for quantities that live in the closed interval [0, 1]:
/// accuracies, accuracy improvements and confidence scores.  A stored value
/// `v` stands for the real number `v / SCORE_SCALE`, so `0` is 0.0 and
/// `SCORE_SCALE` is 1.0.  Values above `SCORE_SCALE` fall outside [0, 1] and
/// are rejected by every operation that takes one.
pub const SCORE_SCALE: u64 = 1_000_000;

/// A scaled score is inside [0, 1] exactly when it is at most `SCORE_SCALE`
/// (negative values cannot be represented at all).
pub open spec fn valid_score(v: u64) -> bool {
    v <= SCORE_SCALE
}

/// Clock readings are seconds since the epoch and never negative; every
/// operation that stamps or compares times takes such a reading.
pub open spec fn valid_time(now: i64) -> bool {
    0 <= now
}

} // verus!
