use medinex_ai::errors::ErrorCode;
use medinex_ai::model_registry::{register_model, ModelRegistry};
use medinex_ai::verification::{
    expert_verification, verify_analysis, verify_data, verify_model_output, VerificationType,
};
use medinex_ai::SCORE_SCALE;

const VERIFIER: u64 = 50;

fn sample_model() -> ModelRegistry {
    register_model(
        1,
        2,
        1_000,
        "Medical Imaging Model".to_string(),
        "d".to_string(),
        "1.0.0".to_string(),
        "medical_imaging".to_string(),
        "abcdef1234567890".to_string(),
        950_000,
        "{}".to_string(),
    )
    .expect("Failed to register model")
}

#[test]
fn test_verification() {
    let mut no_model = None;
    let v = verify_data(
        VERIFIER,
        2_000,
        "abcdef1234567890".to_string(),
        "manual-review".to_string(),
        900_000,
        "{}".to_string(),
        "all records consistent".to_string(),
        &mut no_model,
    )
    .expect("Failed to verify data");
    assert_eq!(v.verification_type, VerificationType::MedicalData);
    assert_eq!(v.data_hash, "abcdef1234567890");
    assert_eq!(v.verification_method, "manual-review");
    assert_eq!(v.confidence_score, 900_000);
    assert_eq!(v.verifier, VERIFIER);
    assert_eq!(v.model, None);
    assert_eq!(v.created_at, 2_000);
    assert_eq!(v.metadata, "{}");
    assert_eq!(v.result_details, "all records consistent");
    assert!(no_model.is_none());
}

#[test]
fn test_verify_data_with_model_bumps_count() {
    let mut model = Some(sample_model());
    let v = verify_data(
        VERIFIER,
        2_000,
        "abcdef1234567890".to_string(),
        "cross-check".to_string(),
        800_000,
        "{}".to_string(),
        "ok".to_string(),
        &mut model,
    )
    .expect("Failed to verify data");
    assert_eq!(v.model, Some(1));
    let m = model.expect("model vanished");
    assert_eq!(m.verification_count, 1);
    // nothing else of the model changes
    assert_eq!(m.accuracy, 950_000);
    assert_eq!(m.updated_at, 1_000);
}

#[test]
fn test_verify_analysis_kind() {
    let mut model = Some(sample_model());
    let v = verify_analysis(
        VERIFIER,
        2_100,
        "abcdef1234567890".to_string(),
        "statistical".to_string(),
        750_000,
        "{}".to_string(),
        "ok".to_string(),
        &mut model,
    )
    .expect("Failed to verify analysis");
    assert_eq!(v.verification_type, VerificationType::AnalysisResult);
    assert_eq!(model.expect("model vanished").verification_count, 1);
}

#[test]
fn test_expert_verification_kind() {
    let mut no_model = None;
    let v = expert_verification(
        VERIFIER,
        2_200,
        "abcdef1234567890".to_string(),
        "expert-panel".to_string(),
        1_000_000,
        "{}".to_string(),
        "ok".to_string(),
        &mut no_model,
    )
    .expect("Failed to record expert verification");
    assert_eq!(v.verification_type, VerificationType::ExpertReview);
    assert_eq!(v.confidence_score, SCORE_SCALE);
}

#[test]
fn test_verify_model_output_requires_model() {
    let mut m = sample_model();
    let v = verify_model_output(
        VERIFIER,
        2_300,
        "abcdef1234567890".to_string(),
        "golden-set".to_string(),
        650_000,
        "{}".to_string(),
        "ok".to_string(),
        &mut m,
    )
    .expect("Failed to verify model output");
    assert_eq!(v.verification_type, VerificationType::ModelOutput);
    assert_eq!(v.model, Some(1));
    assert_eq!(m.verification_count, 1);
}

#[test]
fn test_attestation_validation() {
    let mut model = Some(sample_model());

    let r = verify_data(
        VERIFIER,
        2_000,
        "shorthash".to_string(),
        "manual".to_string(),
        900_000,
        "{}".to_string(),
        "ok".to_string(),
        &mut model,
    );
    assert_eq!(r.err(), Some(ErrorCode::InvalidDataHash));

    let r = verify_analysis(
        VERIFIER,
        2_000,
        "abcdef1234567890".to_string(),
        "".to_string(),
        900_000,
        "{}".to_string(),
        "ok".to_string(),
        &mut model,
    );
    assert_eq!(r.err(), Some(ErrorCode::InvalidVerificationMethod));

    let r = expert_verification(
        VERIFIER,
        2_000,
        "abcdef1234567890".to_string(),
        "manual".to_string(),
        SCORE_SCALE + 1,
        "{}".to_string(),
        "ok".to_string(),
        &mut model,
    );
    assert_eq!(r.err(), Some(ErrorCode::InvalidConfidenceScore));

    // every failed attempt left the model untouched
    assert_eq!(model.expect("model vanished").verification_count, 0);

    let mut m = sample_model();
    let r = verify_model_output(
        VERIFIER,
        2_000,
        "abcdef1234567890".to_string(),
        "golden-set".to_string(),
        SCORE_SCALE + 1,
        "{}".to_string(),
        "ok".to_string(),
        &mut m,
    );
    assert_eq!(r.err(), Some(ErrorCode::InvalidConfidenceScore));
    assert_eq!(m.verification_count, 0);
}
