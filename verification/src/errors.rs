//! Error taxonomy of the core.  Every operation either completes in full or
//! aborts with one of these kinds before any record is mutated.

use vstd::prelude::*;

verus! {

/// Why an operation was refused.  Each variant names exactly one trigger;
/// the operation contracts state, input by input, which variant comes back.
#[derive(Clone, Copy, Debug, PartialEq, Eq, Structural)]
pub enum ErrorCode {
    /// The caller's identity does not match the required role.
    UnauthorizedAccess,
    /// A token was initialized with a total supply of zero.
    InvalidTokenSupply,
    /// The token configuration record already exists.
    TokenAlreadyInitialized,
    /// The model record already exists.
    ModelAlreadyRegistered,
    /// A model content hash shorter than the required minimum.
    InvalidModelHash,
    /// The referenced model record does not exist.
    ModelNotFound,
    /// An accuracy value outside the closed interval [0, 1].
    InvalidAccuracyValue,
    /// An approval or rejection was attempted on a contribution that already
    /// reached a terminal state.
    ContributionAlreadyProcessed,
    /// An accuracy improvement outside the closed interval [0, 1].
    InvalidContributionImprovementValue,
    /// The supplied model is not the one the contribution references.
    ModelMismatch,
    /// A data or contribution hash shorter than the required minimum.
    InvalidDataHash,
    /// The data was already verified.
    DataAlreadyVerified,
    /// An empty verification method string.
    InvalidVerificationMethod,
    /// A confidence score outside the closed interval [0, 1].
    InvalidConfidenceScore,
    /// The treasury holds fewer tokens than the payout needs.
    InsufficientTokenBalance,
    /// A token holding account that does not belong to this token.
    InvalidTokenAccount,
    /// A mint attempted inside the cooldown window.
    RateLimited,
    /// An acceptance of an authority transfer while no proposal is pending.
    InvalidAuthorityTransferState,
    /// An acceptance of an authority transfer past its window.
    AuthorityTransferExpired,
}

} // verus!
