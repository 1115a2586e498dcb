use medinex_ai::errors::ErrorCode;
use medinex_ai::model_registry::{
    create_derived_model, record_usage, register_model, update_model, verify_model,
};
use medinex_ai::SCORE_SCALE;

fn sample_model() -> medinex_ai::model_registry::ModelRegistry {
    register_model(
        1,
        2,
        1_000,
        "Medical Imaging Model".to_string(),
        "AI model for medical image analysis".to_string(),
        "1.0.0".to_string(),
        "medical_imaging".to_string(),
        "abcdef1234567890abcdef1234567890".to_string(),
        950_000,
        "{\"precision\": 0.94, \"recall\": 0.96, \"f1_score\": 0.95}".to_string(),
    )
    .expect("Failed to register model")
}

#[test]
fn test_model_registry() {
    let m = sample_model();
    assert_eq!(m.id, 1);
    assert_eq!(m.authority, 2);
    assert_eq!(m.name, "Medical Imaging Model");
    assert_eq!(m.description, "AI model for medical image analysis");
    assert_eq!(m.version, "1.0.0");
    assert_eq!(m.model_type, "medical_imaging");
    assert_eq!(m.model_hash, "abcdef1234567890abcdef1234567890");
    assert_eq!(m.accuracy, 950_000);
    assert_eq!(m.created_at, 1_000);
    assert_eq!(m.updated_at, 1_000);
    assert_eq!(m.contribution_count, 0);
    assert_eq!(m.verification_count, 0);
    assert_eq!(m.usage_count, 0);
    assert_eq!(m.avg_confidence_score, 0);
    assert!(!m.is_verified);
    assert_eq!(m.parent_model, None);
}

#[test]
fn test_register_rejects_short_hash() {
    let r = register_model(
        1,
        2,
        1_000,
        "m".to_string(),
        "d".to_string(),
        "1".to_string(),
        "t".to_string(),
        "only15chars1234".to_string(),
        500_000,
        "{}".to_string(),
    );
    assert_eq!(r.err(), Some(ErrorCode::InvalidModelHash));
}

#[test]
fn test_register_accuracy_interval() {
    for (accuracy, ok) in [(0, true), (SCORE_SCALE, true), (SCORE_SCALE + 1, false)] {
        let r = register_model(
            1,
            2,
            1_000,
            "m".to_string(),
            "d".to_string(),
            "1".to_string(),
            "t".to_string(),
            "abcdef1234567890".to_string(),
            accuracy,
            "{}".to_string(),
        );
        if ok {
            assert_eq!(r.expect("endpoint accuracy refused").accuracy, accuracy);
        } else {
            assert_eq!(r.err(), Some(ErrorCode::InvalidAccuracyValue));
        }
    }
}

#[test]
fn test_update_model_partial() {
    let mut m = sample_model();
    let r = update_model(
        &mut m,
        2,
        2_000,
        Some("Renamed".to_string()),
        None,
        Some("1.1.0".to_string()),
        None,
        Some(990_000),
        None,
    );
    assert_eq!(r, Ok(()));
    assert_eq!(m.name, "Renamed");
    assert_eq!(m.description, "AI model for medical image analysis");
    assert_eq!(m.version, "1.1.0");
    assert_eq!(m.model_hash, "abcdef1234567890abcdef1234567890");
    assert_eq!(m.accuracy, 990_000);
    assert_eq!(m.updated_at, 2_000);
    assert_eq!(m.created_at, 1_000);
}

#[test]
fn test_update_model_requires_authority() {
    let mut m = sample_model();
    let r = update_model(&mut m, 3, 2_000, Some("x".to_string()), None, None, None, None, None);
    assert_eq!(r, Err(ErrorCode::UnauthorizedAccess));
    assert_eq!(m.name, "Medical Imaging Model");
    assert_eq!(m.updated_at, 1_000);
}

#[test]
fn test_update_model_revalidates_hash_and_accuracy() {
    let mut m = sample_model();
    let r = update_model(
        &mut m,
        2,
        2_000,
        Some("x".to_string()),
        None,
        None,
        Some("shorthash".to_string()),
        None,
        None,
    );
    assert_eq!(r, Err(ErrorCode::InvalidModelHash));
    // the failed call left every field untouched
    assert_eq!(m.name, "Medical Imaging Model");
    assert_eq!(m.model_hash, "abcdef1234567890abcdef1234567890");
    assert_eq!(m.updated_at, 1_000);

    let r = update_model(&mut m, 2, 2_000, None, None, None, None, Some(SCORE_SCALE + 1), None);
    assert_eq!(r, Err(ErrorCode::InvalidAccuracyValue));
    assert_eq!(m.accuracy, 950_000);
}

#[test]
fn test_verify_model_sets_flag() {
    let mut m = sample_model();
    let r = verify_model(&mut m, 3_000);
    assert_eq!(r, Ok(()));
    assert!(m.is_verified);
    assert_eq!(m.updated_at, 3_000);
}

#[test]
fn test_record_usage_running_mean() {
    let mut m = sample_model();
    assert_eq!(record_usage(&mut m, 1_100, 500_000), Ok(()));
    assert_eq!(m.usage_count, 1);
    assert_eq!(m.avg_confidence_score, 500_000);
    assert_eq!(record_usage(&mut m, 1_200, 1_000_000), Ok(()));
    assert_eq!(m.usage_count, 2);
    assert_eq!(m.avg_confidence_score, 750_000);
    assert_eq!(record_usage(&mut m, 1_300, 0), Ok(()));
    assert_eq!(m.usage_count, 3);
    // (500_000 + 1_000_000 + 0) / 3, rounded down
    assert_eq!(m.avg_confidence_score, 500_000);
    assert_eq!(m.updated_at, 1_300);
}

#[test]
fn test_record_usage_confidence_interval() {
    let mut m = sample_model();
    assert_eq!(record_usage(&mut m, 1_100, SCORE_SCALE), Ok(()));
    assert_eq!(record_usage(&mut m, 1_200, SCORE_SCALE + 1), Err(ErrorCode::InvalidConfidenceScore));
    // the failed call left the statistics untouched
    assert_eq!(m.usage_count, 1);
    assert_eq!(m.avg_confidence_score, SCORE_SCALE);
    assert_eq!(m.updated_at, 1_100);
}

#[test]
fn test_create_derived_model() {
    let parent = sample_model();
    let d = create_derived_model(
        9,
        parent.id,
        4,
        5_000,
        "Derived".to_string(),
        "d".to_string(),
        "0.1".to_string(),
        "medical_imaging".to_string(),
        "fedcba0987654321".to_string(),
        700_000,
        "{}".to_string(),
    )
    .expect("Failed to create derived model");
    assert_eq!(d.parent_model, Some(1));
    assert_eq!(d.id, 9);
    assert_eq!(d.authority, 4);
    assert_eq!(d.accuracy, 700_000);
    // statistics are not copied from the parent
    assert_eq!(d.contribution_count, 0);
    assert_eq!(d.usage_count, 0);
}

#[test]
fn test_create_derived_model_validation() {
    let parent = sample_model();
    let r = create_derived_model(
        9,
        parent.id,
        4,
        5_000,
        "Derived".to_string(),
        "d".to_string(),
        "0.1".to_string(),
        "t".to_string(),
        "fedcba0987654321".to_string(),
        SCORE_SCALE + 1,
        "{}".to_string(),
    );
    assert_eq!(r.err(), Some(ErrorCode::InvalidAccuracyValue));
}
