//! Verification Log: immutable attestation records against data, analyses,
//! model output, or by an expert.  A record is created once and never
//! updated; where it references a model, that model's verification count is
//! incremented exactly once, at creation.

use vstd::prelude::*;
use vstd::string::StrSliceExecFns;

use crate::errors::ErrorCode;
use crate::model_registry::ModelRegistry;
use crate::{AccountId, SCORE_SCALE, valid_score, valid_time};

verus! {

/// What kind of evidence an attestation covers.
#[derive(Clone, Copy, Debug, PartialEq, Eq, Structural)]
pub enum VerificationType {
    /// Medical data verification.
    MedicalData,
    /// Analysis result verification.
    AnalysisResult,
    /// Model output verification.
    ModelOutput,
    /// Expert review.
    ExpertReview,
}

/// An immutable attestation record.
#[derive(Clone, Debug, PartialEq, Eq)]
pub struct Verification {
    /// Kind of verification; fixed at creation.
    pub verification_type: VerificationType,
    /// Hash of the verified data or analysis; at least 16 characters.
    pub data_hash: String,
    /// Verification method used; never empty.
    pub verification_method: String,
    /// Confidence score in [0, SCORE_SCALE].
    pub confidence_score: u64,
    /// Identity of the verifier.
    pub verifier: AccountId,
    /// Model the verification refers to, if any.
    pub model: Option<AccountId>,
    /// Creation timestamp (seconds).
    pub created_at: i64,
    /// Opaque metadata blob.
    pub metadata: String,
    /// Opaque result details blob.
    pub result_details: String,
}

impl Verification {
    /// Well-formedness, established at creation; the record is never mutated
    /// afterwards.
    pub open spec fn wf(self) -> bool {
        &&& valid_score(self.confidence_score)
        &&& self.data_hash@.len() >= 16
        &&& self.verification_method@.len() >= 1
        &&& valid_time(self.created_at)
    }
}

/// Outcome of every attestation operation: the hash must have at least 16
/// characters, the method must be non-empty, and the confidence score must
/// lie in [0, 1]; on success an attestation of the given kind is created and
/// the referenced model, if one was supplied, has its verification count
/// incremented — its only change.
pub open spec fn attest_step(
    kind: VerificationType,
    verifier: AccountId,
    now: i64,
    data_hash: String,
    verification_method: String,
    confidence_score: u64,
    metadata: String,
    result_details: String,
    model: Option<ModelRegistry>,
) -> Result<(Verification, Option<ModelRegistry>), ErrorCode> {
    if data_hash@.len() < 16 {
        Err(ErrorCode::InvalidDataHash)
    } else if verification_method@.len() == 0 {
        Err(ErrorCode::InvalidVerificationMethod)
    } else if !valid_score(confidence_score) {
        Err(ErrorCode::InvalidConfidenceScore)
    } else {
        Ok(
            (
                Verification {
                    verification_type: kind,
                    data_hash,
                    verification_method,
                    confidence_score,
                    verifier,
                    model: match model {
                        Some(m) => Some(m.id),
                        None => None,
                    },
                    created_at: now,
                    metadata,
                    result_details,
                },
                match model {
                    Some(m) => Some(
                        ModelRegistry {
                            verification_count: (m.verification_count + 1) as u64,
                            ..m
                        },
                    ),
                    None => None,
                },
            ),
        )
    }
}

/// The unit interval is accepted inclusively: with a long enough hash and a
/// non-empty method, an attestation rejects a confidence score exactly when
/// it lies above full scale (values below zero have no representation at
/// all), so both endpoints 0 and [`SCORE_SCALE`] are accepted.
pub proof fn lemma_confidence_interval_acceptance(
    kind: VerificationType,
    verifier: AccountId,
    now: i64,
    data_hash: String,
    verification_method: String,
    confidence_score: u64,
    metadata: String,
    result_details: String,
    model: Option<ModelRegistry>,
)
    requires
        data_hash@.len() >= 16,
        verification_method@.len() >= 1,
    ensures
        attest_step(
            kind, verifier, now, data_hash, verification_method, confidence_score, metadata,
            result_details, model,
        ) is Ok <==> confidence_score <= SCORE_SCALE,
{
}

/// Create an attestation of the given kind; shared by the three operations
/// whose model reference is optional.
fn attest(
    kind: VerificationType,
    verifier: AccountId,
    now: i64,
    data_hash: String,
    verification_method: String,
    confidence_score: u64,
    metadata: String,
    result_details: String,
    model: &mut Option<ModelRegistry>,
) -> (result: Result<Verification, ErrorCode>)
    requires
        valid_time(now),
        (*old(model)) matches Some(m) ==> m.wf() && m.verification_count < u64::MAX,
    ensures
        match attest_step(
            kind, verifier, now, data_hash, verification_method, confidence_score, metadata,
            result_details, *old(model),
        ) {
            Ok((v, m2)) => result == Ok::<Verification, ErrorCode>(v) && *final(model) == m2
                && v.wf(),
            Err(e) => result == Err::<Verification, ErrorCode>(e) && *final(model) == *old(model),
        },
        (*final(model)) matches Some(m) ==> m.wf(),
{
    if data_hash.as_str().unicode_len() < 16 {
        return Err(ErrorCode::InvalidDataHash);
    }
    if verification_method.as_str().is_empty() {
        return Err(ErrorCode::InvalidVerificationMethod);
    }
    if confidence_score > SCORE_SCALE {
        return Err(ErrorCode::InvalidConfidenceScore);
    }
    let model_id = match model {
        Some(m) => Some(m.id),
        None => None,
    };
    match model {
        Some(m) => {
            m.verification_count = m.verification_count + 1;
        },
        None => {},
    }
    Ok(Verification {
        verification_type: kind,
        data_hash,
        verification_method,
        confidence_score,
        verifier,
        model: model_id,
        created_at: now,
        metadata,
        result_details,
    })
}

/// Record a medical-data verification; the model reference is optional.
pub fn verify_data(
    verifier: AccountId,
    now: i64,
    data_hash: String,
    verification_method: String,
    confidence_score: u64,
    metadata: String,
    result_details: String,
    model: &mut Option<ModelRegistry>,
) -> (result: Result<Verification, ErrorCode>)
    requires
        valid_time(now),
        (*old(model)) matches Some(m) ==> m.wf() && m.verification_count < u64::MAX,
    ensures
        match attest_step(
            VerificationType::MedicalData, verifier, now, data_hash, verification_method,
            confidence_score, metadata, result_details, *old(model),
        ) {
            Ok((v, m2)) => result == Ok::<Verification, ErrorCode>(v) && *final(model) == m2
                && v.wf(),
            Err(e) => result == Err::<Verification, ErrorCode>(e) && *final(model) == *old(model),
        },
        (*final(model)) matches Some(m) ==> m.wf(),
{
    attest(
        VerificationType::MedicalData,
        verifier,
        now,
        data_hash,
        verification_method,
        confidence_score,
        metadata,
        result_details,
        model,
    )
}

/// Record an analysis-result verification; the model reference is optional.
pub fn verify_analysis(
    verifier: AccountId,
    now: i64,
    data_hash: String,
    verification_method: String,
    confidence_score: u64,
    metadata: String,
    result_details: String,
    model: &mut Option<ModelRegistry>,
) -> (result: Result<Verification, ErrorCode>)
    requires
        valid_time(now),
        (*old(model)) matches Some(m) ==> m.wf() && m.verification_count < u64::MAX,
    ensures
        match attest_step(
            VerificationType::AnalysisResult, verifier, now, data_hash, verification_method,
            confidence_score, metadata, result_details, *old(model),
        ) {
            Ok((v, m2)) => result == Ok::<Verification, ErrorCode>(v) && *final(model) == m2
                && v.wf(),
            Err(e) => result == Err::<Verification, ErrorCode>(e) && *final(model) == *old(model),
        },
        (*final(model)) matches Some(m) ==> m.wf(),
{
    attest(
        VerificationType::AnalysisResult,
        verifier,
        now,
        data_hash,
        verification_method,
        confidence_score,
        metadata,
        result_details,
        model,
    )
}

/// Record an expert review; the model reference is optional.  The caller's
/// expert role is the transport boundary's claim; the core does not gate it.
pub fn expert_verification(
    verifier: AccountId,
    now: i64,
    data_hash: String,
    verification_method: String,
    confidence_score: u64,
    metadata: String,
    result_details: String,
    model: &mut Option<ModelRegistry>,
) -> (result: Result<Verification, ErrorCode>)
    requires
        valid_time(now),
        (*old(model)) matches Some(m) ==> m.wf() && m.verification_count < u64::MAX,
    ensures
        match attest_step(
            VerificationType::ExpertReview, verifier, now, data_hash, verification_method,
            confidence_score, metadata, result_details, *old(model),
        ) {
            Ok((v, m2)) => result == Ok::<Verification, ErrorCode>(v) && *final(model) == m2
                && v.wf(),
            Err(e) => result == Err::<Verification, ErrorCode>(e) && *final(model) == *old(model),
        },
        (*final(model)) matches Some(m) ==> m.wf(),
{
    attest(
        VerificationType::ExpertReview,
        verifier,
        now,
        data_hash,
        verification_method,
        confidence_score,
        metadata,
        result_details,
        model,
    )
}

/// Record a model-output verification; here the model reference is mandatory
/// and its verification count always grows by one.
pub fn verify_model_output(
    verifier: AccountId,
    now: i64,
    data_hash: String,
    verification_method: String,
    confidence_score: u64,
    metadata: String,
    result_details: String,
    model: &mut ModelRegistry,
) -> (result: Result<Verification, ErrorCode>)
    requires
        valid_time(now),
        old(model).wf(),
        old(model).verification_count < u64::MAX,
    ensures
        match attest_step(
            VerificationType::ModelOutput, verifier, now, data_hash, verification_method,
            confidence_score, metadata, result_details, Some(*old(model)),
        ) {
            Ok((v, m2)) => result == Ok::<Verification, ErrorCode>(v) && Some(*final(model)) == m2
                && v.wf(),
            Err(e) => result == Err::<Verification, ErrorCode>(e) && *final(model) == *old(model),
        },
        final(model).wf(),
{
    if data_hash.as_str().unicode_len() < 16 {
        return Err(ErrorCode::InvalidDataHash);
    }
    if verification_method.as_str().is_empty() {
        return Err(ErrorCode::InvalidVerificationMethod);
    }
    if confidence_score > SCORE_SCALE {
        return Err(ErrorCode::InvalidConfidenceScore);
    }
    let model_id = model.id;
    model.verification_count = model.verification_count + 1;
    Ok(Verification {
        verification_type: VerificationType::ModelOutput,
        data_hash,
        verification_method,
        confidence_score,
        verifier,
        model: Some(model_id),
        created_at: now,
        metadata,
        result_details,
    })
}

} // verus!
