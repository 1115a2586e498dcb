//! Contribution Ledger: records proposed improvements to a model and drives
//! their lifecycle `Pending -> InReview -> {Approved | Rejected}` (review is
//! optional; a pending contribution may be approved or rejected directly).
//!
//! Approving a contribution blends its claimed accuracy improvement into the
//! model record and, where a reward is owed, returns a transfer directive for
//! the external token ledger, funded from the treasury.

use vstd::prelude::*;
use vstd::string::StrSliceExecFns;

use crate::errors::ErrorCode;
use crate::model_registry::ModelRegistry;
use crate::token::{MdnxToken, TransferRequest};
use crate::{AccountId, SCORE_SCALE, valid_score, valid_time};

verus! {

/// Lifecycle state of a contribution.
#[derive(Clone, Copy, Debug, PartialEq, Eq, Structural)]
pub enum ContributionStatus {
    /// Submitted, not yet reviewed.
    Pending,
    /// Under review.
    InReview,
    /// Approved; terminal.
    Approved,
    /// Rejected; terminal.
    Rejected,
}

/// Approved and Rejected are terminal: a contribution in either state can
/// never be approved or rejected again.
pub open spec fn is_terminal(status: ContributionStatus) -> bool {
    status == ContributionStatus::Approved || status == ContributionStatus::Rejected
}

/// A proposed improvement to a model.
#[derive(Clone, Debug, PartialEq, Eq)]
pub struct Contribution {
    /// Address of the model this contribution targets.
    pub model: AccountId,
    /// Identity of the contributor, paid on approval.
    pub contributor: AccountId,
    /// Contribution description.
    pub description: String,
    /// Contribution type tag (data, code, validation, ...).
    pub contribution_type: String,
    /// Claimed accuracy improvement in [0, SCORE_SCALE].
    pub accuracy_improvement: u64,
    /// Opaque blob with performance details.
    pub performance_improvement: String,
    /// Lifecycle state.
    pub status: ContributionStatus,
    /// Reward paid out; stays 0 until approval.
    pub reward_amount: u64,
    /// Submission timestamp (seconds).
    pub created_at: i64,
    /// Last update timestamp (seconds).
    pub updated_at: i64,
    /// When the contribution reached a terminal state, once it has.
    pub processed_at: Option<i64>,
    /// Content hash of the contribution data; at least 16 characters.
    pub contribution_hash: String,
    /// Notes stored with the contribution: review notes or the rejection reason.
    pub notes: String,
}

impl Contribution {
    /// Well-formedness, established at recording and preserved by every
    /// operation.
    pub open spec fn wf(self) -> bool {
        &&& valid_score(self.accuracy_improvement)
        &&& self.contribution_hash@.len() >= 16
        &&& valid_time(self.created_at)
        &&& valid_time(self.updated_at)
        &&& (self.processed_at matches Some(at) ==> valid_time(at))
    }

    /// The lifecycle facts of a contribution that has only gone through
    /// guarded transitions: the reward stays zero and the processing time
    /// unset until a terminal state, which sets the processing time, and a
    /// rejection pays nothing.  `review_contribution` performs no terminal-
    /// state guard (see its contract), so this is stated separately from
    /// `wf` and preserved conditionally there.
    pub open spec fn lifecycle_consistent(self) -> bool {
        &&& !is_terminal(self.status) ==> self.reward_amount == 0 && self.processed_at is None
        &&& is_terminal(self.status) ==> self.processed_at is Some
        &&& self.status == ContributionStatus::Rejected ==> self.reward_amount == 0
    }
}

/// Outcome of `record_contribution`: the claimed improvement must lie in
/// [0, 1] and the hash must have at least 16 characters; on success a pending,
/// unpaid, unprocessed contribution referencing the model's address is
/// created, and the model's contribution count grows by one.  `fresh_notes`
/// stands for the freshly created notes string, which starts empty.
pub open spec fn record_contribution_step(
    m: ModelRegistry,
    contributor: AccountId,
    now: i64,
    description: String,
    contribution_type: String,
    accuracy_improvement: u64,
    performance_improvement: String,
    contribution_hash: String,
    fresh_notes: String,
) -> Result<(Contribution, ModelRegistry), ErrorCode> {
    if !valid_score(accuracy_improvement) {
        Err(ErrorCode::InvalidContributionImprovementValue)
    } else if contribution_hash@.len() < 16 {
        Err(ErrorCode::InvalidDataHash)
    } else {
        Ok((
            Contribution {
                model: m.id,
                contributor,
                description,
                contribution_type,
                accuracy_improvement,
                performance_improvement,
                status: ContributionStatus::Pending,
                reward_amount: 0,
                created_at: now,
                updated_at: now,
                processed_at: None,
                contribution_hash,
                notes: fresh_notes,
            },
            ModelRegistry { contribution_count: (m.contribution_count + 1) as u64, ..m },
        ))
    }
}

/// Record a new contribution against the model held at `m`.
pub fn record_contribution(
    m: &mut ModelRegistry,
    contributor: AccountId,
    now: i64,
    description: String,
    contribution_type: String,
    accuracy_improvement: u64,
    performance_improvement: String,
    contribution_hash: String,
) -> (result: Result<Contribution, ErrorCode>)
    requires
        old(m).wf(),
        valid_time(now),
        old(m).contribution_count < u64::MAX,
    ensures
        match result {
            Ok(c) => {
                &&& valid_score(accuracy_improvement) && contribution_hash@.len() >= 16
                &&& Ok::<_, ErrorCode>((c, *final(m))) == record_contribution_step(
                    *old(m),
                    contributor,
                    now,
                    description,
                    contribution_type,
                    accuracy_improvement,
                    performance_improvement,
                    contribution_hash,
                    c.notes,
                )
                &&& c.notes@ == Seq::<char>::empty()
                &&& c.wf()
                &&& c.lifecycle_consistent()
            },
            Err(e) => {
                &&& !valid_score(accuracy_improvement) || contribution_hash@.len() < 16
                &&& e == (if !valid_score(accuracy_improvement) {
                    ErrorCode::InvalidContributionImprovementValue
                } else {
                    ErrorCode::InvalidDataHash
                })
                &&& *final(m) == *old(m)
            },
        },
        final(m).wf(),
{
    if accuracy_improvement > SCORE_SCALE {
        return Err(ErrorCode::InvalidContributionImprovementValue);
    }
    if contribution_hash.as_str().unicode_len() < 16 {
        return Err(ErrorCode::InvalidDataHash);
    }
    let contribution = Contribution {
        model: m.id,
        contributor,
        description,
        contribution_type,
        accuracy_improvement,
        performance_improvement,
        status: ContributionStatus::Pending,
        reward_amount: 0,
        created_at: now,
        updated_at: now,
        processed_at: None,
        contribution_hash,
        notes: String::new(),
    };
    m.contribution_count = m.contribution_count + 1;
    Ok(contribution)
}

/// The diminishing-returns accuracy blend: the improvement closes the gap to
/// full accuracy in proportion to its own size,
/// `accuracy + improvement * (1 - accuracy)`, on the fixed-point grid and
/// capped at full accuracy.  It never lowers the accuracy.
pub open spec fn blended_accuracy(accuracy: u64, improvement: u64) -> u64 {
    let blended = accuracy + improvement * (SCORE_SCALE - accuracy) / (SCORE_SCALE as int);
    if blended <= SCORE_SCALE {
        blended as u64
    } else {
        SCORE_SCALE
    }
}

/// Accuracy blend monotonicity: for an accuracy in [0, 1] and an improvement
/// in (0, 1], the blended accuracy never drops below the old one and never
/// exceeds 1.
pub proof fn lemma_blend_monotone(accuracy: u64, improvement: u64)
    requires
        valid_score(accuracy),
        0 < improvement <= SCORE_SCALE,
    ensures
        accuracy <= blended_accuracy(accuracy, improvement) <= SCORE_SCALE,
{
    let gap = SCORE_SCALE - accuracy;
    vstd::arithmetic::mul::lemma_mul_nonnegative(improvement as int, gap);
    vstd::arithmetic::div_mod::lemma_div_pos_is_pos(
        improvement * gap,
        SCORE_SCALE as int,
    );
}

/// The blend of valid scores stays on the fixed-point grid without overflow:
/// the gain is at most the remaining gap, so the blend needs no cap beyond
/// full accuracy.
proof fn lemma_blend_bounds(accuracy: u64, improvement: u64)
    requires
        valid_score(accuracy),
        valid_score(improvement),
    ensures
        0 <= improvement * (SCORE_SCALE - accuracy) <= SCORE_SCALE * SCORE_SCALE,
        improvement * (SCORE_SCALE - accuracy) / (SCORE_SCALE as int) <= SCORE_SCALE - accuracy,
{
    let gap = SCORE_SCALE - accuracy;
    vstd::arithmetic::mul::lemma_mul_nonnegative(improvement as int, gap);
    vstd::arithmetic::mul::lemma_mul_upper_bound(
        improvement as int,
        SCORE_SCALE as int,
        gap,
        SCORE_SCALE as int,
    );
    vstd::arithmetic::mul::lemma_mul_inequality(improvement as int, SCORE_SCALE as int, gap);
    vstd::arithmetic::div_mod::lemma_div_multiples_vanish(gap, SCORE_SCALE as int);
    vstd::arithmetic::div_mod::lemma_div_is_ordered(
        improvement * gap,
        SCORE_SCALE * gap,
        SCORE_SCALE as int,
    );
    vstd::arithmetic::mul::lemma_mul_is_commutative(improvement as int, gap);
    vstd::arithmetic::mul::lemma_mul_is_commutative(SCORE_SCALE as int, gap);
}

/// Outcome of `review_contribution`: the contribution is unconditionally
/// moved to `InReview` and the notes stored.  The requested status is
/// accepted but ignored, and — unlike rejection — neither the caller's
/// identity nor the current state is checked: any caller can move any
/// contribution, terminal or not, back under review.  Deliberately kept
/// as it stands; the contract makes the gap explicit.
pub open spec fn review_contribution_step(
    c: Contribution,
    now: i64,
    requested_status: ContributionStatus,
    notes: String,
) -> Contribution {
    Contribution { status: ContributionStatus::InReview, notes, updated_at: now, ..c }
}

/// Move a contribution under review, storing the review notes.  The
/// `status` argument is ignored: the state always becomes `InReview`.
pub fn review_contribution(
    c: &mut Contribution,
    now: i64,
    status: ContributionStatus,
    notes: String,
) -> (result: Result<(), ErrorCode>)
    requires
        old(c).wf(),
        valid_time(now),
    ensures
        result == Ok::<(), ErrorCode>(()),
        *final(c) == review_contribution_step(*old(c), now, status, notes),
        final(c).wf(),
        !is_terminal(old(c).status) && old(c).lifecycle_consistent()
            ==> final(c).lifecycle_consistent(),
{
    c.status = ContributionStatus::InReview;
    c.notes = notes;
    c.updated_at = now;
    Ok(())
}

/// Outcome of `approve_contribution`: a terminal contribution is refused, the
/// supplied model must be the one the contribution references, and only the
/// model's authority may approve.  On success the claimed improvement (when
/// positive) is blended into the model's accuracy, the contribution becomes
/// `Approved` with the reward and processing time set, and, where the reward
/// is positive, a payout of the reward from the treasury to the contributor
/// is directed.
pub open spec fn approve_contribution_step(
    c: Contribution,
    m: ModelRegistry,
    token: MdnxToken,
    caller: AccountId,
    now: i64,
    reward_amount: u64,
) -> Result<(Contribution, ModelRegistry, Option<TransferRequest>), ErrorCode> {
    if is_terminal(c.status) {
        Err(ErrorCode::ContributionAlreadyProcessed)
    } else if c.model != m.id {
        Err(ErrorCode::ModelMismatch)
    } else if caller != m.authority {
        Err(ErrorCode::UnauthorizedAccess)
    } else {
        Ok(
            (
                Contribution {
                    status: ContributionStatus::Approved,
                    reward_amount,
                    processed_at: Some(now),
                    updated_at: now,
                    ..c
                },
                if c.accuracy_improvement > 0 {
                    ModelRegistry {
                        accuracy: blended_accuracy(m.accuracy, c.accuracy_improvement),
                        ..m
                    }
                } else {
                    m
                },
                if reward_amount > 0 {
                    Some(TransferRequest { from: token.treasury, to: c.contributor, amount: reward_amount })
                } else {
                    None
                },
            ),
        )
    }
}

/// Approve a contribution, blend its improvement into the model, and direct
/// the reward payout.  The returned directive, if any, is handed to the
/// external token ledger; its failure aborts the whole operation at the
/// substrate.
pub fn approve_contribution(
    c: &mut Contribution,
    m: &mut ModelRegistry,
    token: &MdnxToken,
    caller: AccountId,
    now: i64,
    reward_amount: u64,
) -> (result: Result<Option<TransferRequest>, ErrorCode>)
    requires
        old(c).wf(),
        old(m).wf(),
        valid_time(now),
    ensures
        match approve_contribution_step(*old(c), *old(m), *token, caller, now, reward_amount) {
            Ok((c2, m2, payout)) => {
                &&& result == Ok::<Option<TransferRequest>, ErrorCode>(payout)
                &&& *final(c) == c2
                &&& *final(m) == m2
            },
            Err(e) => {
                &&& result == Err::<Option<TransferRequest>, ErrorCode>(e)
                &&& *final(c) == *old(c)
                &&& *final(m) == *old(m)
            },
        },
        final(c).wf(),
        final(m).wf(),
        old(c).lifecycle_consistent() ==> final(c).lifecycle_consistent(),
{
    if c.status == ContributionStatus::Approved || c.status == ContributionStatus::Rejected {
        return Err(ErrorCode::ContributionAlreadyProcessed);
    }
    if c.model != m.id {
        return Err(ErrorCode::ModelMismatch);
    }
    if caller != m.authority {
        return Err(ErrorCode::UnauthorizedAccess);
    }
    if c.accuracy_improvement > 0 {
        proof {
            lemma_blend_bounds(m.accuracy, c.accuracy_improvement);
        }
        let gain = c.accuracy_improvement * (SCORE_SCALE - m.accuracy) / SCORE_SCALE;
        m.accuracy = if m.accuracy + gain <= SCORE_SCALE {
            m.accuracy + gain
        } else {
            SCORE_SCALE
        };
    }
    c.status = ContributionStatus::Approved;
    c.reward_amount = reward_amount;
    c.processed_at = Some(now);
    c.updated_at = now;
    if reward_amount > 0 {
        Ok(Some(TransferRequest { from: token.treasury, to: c.contributor, amount: reward_amount }))
    } else {
        Ok(None)
    }
}

/// Outcome of `reject_contribution`: only the authority of the supplied model
/// may reject, and a terminal contribution is refused; otherwise the
/// contribution becomes `Rejected`, the reason is stored in the notes, and
/// the processing time is set.  No reward is ever paid.
pub open spec fn reject_contribution_step(
    c: Contribution,
    m: ModelRegistry,
    caller: AccountId,
    now: i64,
    rejection_reason: String,
) -> Result<Contribution, ErrorCode> {
    if caller != m.authority {
        Err(ErrorCode::UnauthorizedAccess)
    } else if is_terminal(c.status) {
        Err(ErrorCode::ContributionAlreadyProcessed)
    } else {
        Ok(
            Contribution {
                status: ContributionStatus::Rejected,
                notes: rejection_reason,
                processed_at: Some(now),
                updated_at: now,
                ..c
            },
        )
    }
}

/// Reject a contribution, storing the reason.  `m` is the model whose
/// authority the caller must hold.
pub fn reject_contribution(
    c: &mut Contribution,
    m: &ModelRegistry,
    caller: AccountId,
    now: i64,
    rejection_reason: String,
) -> (result: Result<(), ErrorCode>)
    requires
        old(c).wf(),
        valid_time(now),
    ensures
        match reject_contribution_step(*old(c), *m, caller, now, rejection_reason) {
            Ok(c2) => result == Ok::<(), ErrorCode>(()) && *final(c) == c2,
            Err(e) => result == Err::<(), ErrorCode>(e) && *final(c) == *old(c),
        },
        final(c).wf(),
        old(c).lifecycle_consistent() ==> final(c).lifecycle_consistent(),
{
    if caller != m.authority {
        return Err(ErrorCode::UnauthorizedAccess);
    }
    if c.status == ContributionStatus::Approved || c.status == ContributionStatus::Rejected {
        return Err(ErrorCode::ContributionAlreadyProcessed);
    }
    c.status = ContributionStatus::Rejected;
    c.notes = rejection_reason;
    c.processed_at = Some(now);
    c.updated_at = now;
    Ok(())
}

/// The unit interval is accepted inclusively: with a long enough hash,
/// recording a contribution rejects a claimed improvement exactly when it
/// lies above full scale (values below zero have no representation at all),
/// so both endpoints 0 and [`SCORE_SCALE`] are accepted.
pub proof fn lemma_improvement_interval_acceptance(
    m: ModelRegistry,
    contributor: AccountId,
    now: i64,
    description: String,
    contribution_type: String,
    accuracy_improvement: u64,
    performance_improvement: String,
    contribution_hash: String,
    fresh_notes: String,
)
    requires
        contribution_hash@.len() >= 16,
    ensures
        record_contribution_step(
            m, contributor, now, description, contribution_type, accuracy_improvement,
            performance_improvement, contribution_hash, fresh_notes,
        ) is Ok <==> accuracy_improvement <= SCORE_SCALE,
{
}

/// A terminal contribution refuses processing: approving or rejecting a
/// contribution that is already `Approved` or `Rejected` fails with
/// `ContributionAlreadyProcessed`, whatever the other inputs are — and, by
/// the operations' contracts, a failed call leaves every record unchanged.
pub proof fn lemma_terminal_refuses_processing(
    c: Contribution,
    m: ModelRegistry,
    token: MdnxToken,
    caller: AccountId,
    now: i64,
    reward_amount: u64,
    rejection_reason: String,
)
    requires
        is_terminal(c.status),
    ensures
        approve_contribution_step(c, m, token, caller, now, reward_amount) matches Err(e)
            && e == ErrorCode::ContributionAlreadyProcessed,
        caller == m.authority ==> (reject_contribution_step(c, m, caller, now, rejection_reason)
            matches Err(e) && e == ErrorCode::ContributionAlreadyProcessed),
{
}

/// Idempotence of processing: once an approval or a rejection has succeeded,
/// any second approval or rejection of the same contribution fails with
/// `ContributionAlreadyProcessed`, so (by the operations' contracts) the
/// record keeps exactly the fields the first call left.
pub proof fn lemma_processing_idempotent(
    c: Contribution,
    m: ModelRegistry,
    token: MdnxToken,
    caller: AccountId,
    now: i64,
    reward_amount: u64,
    rejection_reason: String,
    m_2: ModelRegistry,
    token_2: MdnxToken,
    caller_2: AccountId,
    now_2: i64,
    reward_2: u64,
    reason_2: String,
)
    ensures
        approve_contribution_step(c, m, token, caller, now, reward_amount) matches Ok((c1, _, _))
            ==> {
            &&& (approve_contribution_step(c1, m_2, token_2, caller_2, now_2, reward_2)
                matches Err(e) && e == ErrorCode::ContributionAlreadyProcessed)
            &&& caller_2 == m_2.authority ==> (reject_contribution_step(
                c1,
                m_2,
                caller_2,
                now_2,
                reason_2,
            ) matches Err(e) && e == ErrorCode::ContributionAlreadyProcessed)
        },
        reject_contribution_step(c, m, caller, now, rejection_reason) matches Ok(c1) ==> {
            &&& (approve_contribution_step(c1, m_2, token_2, caller_2, now_2, reward_2)
                matches Err(e) && e == ErrorCode::ContributionAlreadyProcessed)
            &&& caller_2 == m_2.authority ==> (reject_contribution_step(
                c1,
                m_2,
                caller_2,
                now_2,
                reason_2,
            ) matches Err(e) && e == ErrorCode::ContributionAlreadyProcessed)
        },
{
}

} // verus!
