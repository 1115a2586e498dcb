//! Model Registry: records registered AI models and owns their accuracy and
//! usage statistics.
//!
//! Each operation is given below twice: a `..._step` spec function that states
//! the whole outcome (which error comes back on which inputs, and the exact
//! record that results otherwise), and an executable function proved to match
//! it.  Errors leave the record exactly as it was.

use vstd::prelude::*;
use vstd::string::StrSliceExecFns;

use crate::errors::ErrorCode;
use crate::{AccountId, SCORE_SCALE, valid_score, valid_time};

verus! {

/// A registered AI model.
///
/// Accuracies and confidence scores are fixed-point values scaled by
/// [`SCORE_SCALE`].  `confidence_sum` carries the exact sum of every
/// confidence score recorded by `record_usage`, so that
/// `avg_confidence_score` is always the true running mean of those scores,
/// rounded down to the fixed-point grid.
pub struct ModelRegistry {
    /// Address under which the substrate holds this record.
    pub id: AccountId,
    /// Model name.
    pub name: String,
    /// Model description.
    pub description: String,
    /// Version identifier.
    pub version: String,
    /// Model type tag (e.g. an imaging or symptom-analysis model).
    pub model_type: String,
    /// Content hash of the model file; at least 16 characters.
    pub model_hash: String,
    /// Model accuracy in [0, SCORE_SCALE].
    pub accuracy: u64,
    /// Opaque blob with further metrics.
    pub performance_metrics: String,
    /// Identity permitted to update this model.
    pub authority: AccountId,
    /// Creation timestamp (seconds).
    pub created_at: i64,
    /// Last update timestamp (seconds).
    pub updated_at: i64,
    /// Number of contributions recorded against this model.
    pub contribution_count: u64,
    /// Number of verification attestations referencing this model.
    pub verification_count: u64,
    /// Exact sum of all recorded usage confidence scores.
    pub confidence_sum: u128,
    /// Running mean of all recorded usage confidence scores.
    pub avg_confidence_score: u64,
    /// Number of recorded usages.
    pub usage_count: u64,
    /// Whether the model has been verified.
    pub is_verified: bool,
    /// Parent model, where this model was derived from another.
    pub parent_model: Option<AccountId>,
}

/// The mean of `sum` over `n` samples, rounded down; 0 while no sample has
/// been recorded.
pub open spec fn spec_mean(sum: u128, n: u64) -> u64 {
    if n == 0 {
        0
    } else {
        (sum / (n as u128)) as u64
    }
}

impl ModelRegistry {
    /// Well-formedness, established at registration and preserved by every
    /// operation: the scores lie in [0, 1], the hash is long enough, the
    /// timestamps are clock readings, and the average is exactly the mean of
    /// the recorded confidence sum.
    pub open spec fn wf(self) -> bool {
        &&& valid_score(self.accuracy)
        &&& valid_score(self.avg_confidence_score)
        &&& self.model_hash@.len() >= 16
        &&& valid_time(self.created_at)
        &&& valid_time(self.updated_at)
        &&& self.confidence_sum <= self.usage_count * SCORE_SCALE
        &&& self.avg_confidence_score == spec_mean(self.confidence_sum, self.usage_count)
    }
}

/// Keep the current value unless a replacement was supplied.
pub open spec fn or_keep<T>(replacement: Option<T>, current: T) -> T {
    match replacement {
        Some(v) => v,
        None => current,
    }
}

/// Outcome of `register_model`: the hash must have at least 16 characters and
/// the accuracy must lie in [0, 1]; on success every counter starts at zero,
/// the model is unverified, has no parent, and both timestamps are `now`.
pub open spec fn register_model_step(
    id: AccountId,
    authority: AccountId,
    now: i64,
    name: String,
    description: String,
    version: String,
    model_type: String,
    model_hash: String,
    accuracy: u64,
    performance_metrics: String,
) -> Result<ModelRegistry, ErrorCode> {
    if model_hash@.len() < 16 {
        Err(ErrorCode::InvalidModelHash)
    } else if !valid_score(accuracy) {
        Err(ErrorCode::InvalidAccuracyValue)
    } else {
        Ok(ModelRegistry {
            id,
            name,
            description,
            version,
            model_type,
            model_hash,
            accuracy,
            performance_metrics,
            authority,
            created_at: now,
            updated_at: now,
            contribution_count: 0,
            verification_count: 0,
            confidence_sum: 0,
            avg_confidence_score: 0,
            usage_count: 0,
            is_verified: false,
            parent_model: None,
        })
    }
}

/// Register a new AI model under the address `id` for `authority`.
pub fn register_model(
    id: AccountId,
    authority: AccountId,
    now: i64,
    name: String,
    description: String,
    version: String,
    model_type: String,
    model_hash: String,
    accuracy: u64,
    performance_metrics: String,
) -> (result: Result<ModelRegistry, ErrorCode>)
    requires
        valid_time(now),
    ensures
        result == register_model_step(
            id, authority, now, name, description, version, model_type, model_hash,
            accuracy, performance_metrics,
        ),
        result matches Ok(m) ==> m.wf(),
{
    if model_hash.as_str().unicode_len() < 16 {
        return Err(ErrorCode::InvalidModelHash);
    }
    if accuracy > SCORE_SCALE {
        return Err(ErrorCode::InvalidAccuracyValue);
    }
    Ok(ModelRegistry {
        id,
        name,
        description,
        version,
        model_type,
        model_hash,
        accuracy,
        performance_metrics,
        authority,
        created_at: now,
        updated_at: now,
        contribution_count: 0,
        verification_count: 0,
        confidence_sum: 0,
        avg_confidence_score: 0,
        usage_count: 0,
        is_verified: false,
        parent_model: None,
    })
}

/// Outcome of `update_model`: only the model's authority may update; a
/// supplied hash or accuracy is re-validated under the registration rules;
/// every supplied field overwrites its current value, omitted fields stay,
/// and the update timestamp is refreshed.  On any error the record is
/// untouched.
pub open spec fn update_model_step(
    m: ModelRegistry,
    caller: AccountId,
    now: i64,
    name: Option<String>,
    description: Option<String>,
    version: Option<String>,
    model_hash: Option<String>,
    accuracy: Option<u64>,
    performance_metrics: Option<String>,
) -> Result<ModelRegistry, ErrorCode> {
    if caller != m.authority {
        Err(ErrorCode::UnauthorizedAccess)
    } else if match model_hash {
        Some(h) => h@.len() < 16,
        None => false,
    } {
        Err(ErrorCode::InvalidModelHash)
    } else if match accuracy {
        Some(a) => !valid_score(a),
        None => false,
    } {
        Err(ErrorCode::InvalidAccuracyValue)
    } else {
        Ok(ModelRegistry {
            name: or_keep(name, m.name),
            description: or_keep(description, m.description),
            version: or_keep(version, m.version),
            model_hash: or_keep(model_hash, m.model_hash),
            accuracy: or_keep(accuracy, m.accuracy),
            performance_metrics: or_keep(performance_metrics, m.performance_metrics),
            updated_at: now,
            ..m
        })
    }
}

/// Update a model's descriptive fields; each `Some` overwrites, each `None`
/// keeps the current value.
pub fn update_model(
    m: &mut ModelRegistry,
    caller: AccountId,
    now: i64,
    name: Option<String>,
    description: Option<String>,
    version: Option<String>,
    model_hash: Option<String>,
    accuracy: Option<u64>,
    performance_metrics: Option<String>,
) -> (result: Result<(), ErrorCode>)
    requires
        old(m).wf(),
        valid_time(now),
    ensures
        match update_model_step(
            *old(m), caller, now, name, description, version, model_hash, accuracy,
            performance_metrics,
        ) {
            Ok(m2) => result == Ok::<(), ErrorCode>(()) && *final(m) == m2,
            Err(e) => result == Err::<(), ErrorCode>(e) && *final(m) == *old(m),
        },
        final(m).wf(),
{
    if caller != m.authority {
        return Err(ErrorCode::UnauthorizedAccess);
    }
    match &model_hash {
        Some(h) => {
            if h.as_str().unicode_len() < 16 {
                return Err(ErrorCode::InvalidModelHash);
            }
        },
        None => {},
    }
    match &accuracy {
        Some(a) => {
            if *a > SCORE_SCALE {
                return Err(ErrorCode::InvalidAccuracyValue);
            }
        },
        None => {},
    }
    if let Some(v) = name {
        m.name = v;
    }
    if let Some(v) = description {
        m.description = v;
    }
    if let Some(v) = version {
        m.version = v;
    }
    if let Some(v) = model_hash {
        m.model_hash = v;
    }
    if let Some(v) = accuracy {
        m.accuracy = v;
    }
    if let Some(v) = performance_metrics {
        m.performance_metrics = v;
    }
    m.updated_at = now;
    Ok(())
}

/// Outcome of `verify_model`: the verified flag is set unconditionally and
/// the update timestamp refreshed.  No identity is checked or recorded; the
/// caller-authentication boundary is the only gate on who may attest.
pub open spec fn verify_model_step(m: ModelRegistry, now: i64) -> ModelRegistry {
    ModelRegistry { is_verified: true, updated_at: now, ..m }
}

/// Mark a model as verified.
pub fn verify_model(m: &mut ModelRegistry, now: i64) -> (result: Result<(), ErrorCode>)
    requires
        old(m).wf(),
        valid_time(now),
    ensures
        result == Ok::<(), ErrorCode>(()),
        *final(m) == verify_model_step(*old(m), now),
        final(m).wf(),
{
    m.is_verified = true;
    m.updated_at = now;
    Ok(())
}

/// Exact sum of a sequence of scores.
pub open spec fn seq_sum(s: Seq<u64>) -> int
    decreases s.len(),
{
    if s.len() == 0 {
        0
    } else {
        seq_sum(s.drop_last()) + s.last()
    }
}

/// The mean of at most `n` full scores over `n` samples is itself at most a
/// full score.
proof fn lemma_mean_in_range(sum: int, n: int)
    requires
        0 < n,
        0 <= sum <= n * SCORE_SCALE,
    ensures
        0 <= sum / n <= SCORE_SCALE,
{
    vstd::arithmetic::div_mod::lemma_div_is_ordered(sum, n * (SCORE_SCALE as int), n);
    vstd::arithmetic::div_mod::lemma_div_multiples_vanish(SCORE_SCALE as int, n);
    vstd::arithmetic::div_mod::lemma_div_pos_is_pos(sum, n);
}

/// Outcome of `record_usage`: the confidence score must lie in [0, 1]; on
/// success the usage count and the exact confidence sum grow by the call's
/// values and the average is recomputed as the true mean of all recorded
/// scores.
pub open spec fn record_usage_step(
    m: ModelRegistry,
    now: i64,
    confidence_score: u64,
) -> Result<ModelRegistry, ErrorCode> {
    if !valid_score(confidence_score) {
        Err(ErrorCode::InvalidConfidenceScore)
    } else {
        let count = (m.usage_count + 1) as u64;
        let sum = (m.confidence_sum + confidence_score) as u128;
        Ok(ModelRegistry {
            usage_count: count,
            confidence_sum: sum,
            avg_confidence_score: spec_mean(sum, count),
            updated_at: now,
            ..m
        })
    }
}

/// Record one usage of the model with the confidence score the use reported.
pub fn record_usage(m: &mut ModelRegistry, now: i64, confidence_score: u64) -> (result: Result<
    (),
    ErrorCode,
>)
    requires
        old(m).wf(),
        valid_time(now),
        old(m).usage_count < u64::MAX,
    ensures
        match record_usage_step(*old(m), now, confidence_score) {
            Ok(m2) => result == Ok::<(), ErrorCode>(()) && *final(m) == m2,
            Err(e) => result == Err::<(), ErrorCode>(e) && *final(m) == *old(m),
        },
        final(m).wf(),
{
    if confidence_score > SCORE_SCALE {
        return Err(ErrorCode::InvalidConfidenceScore);
    }
    proof {
        vstd::arithmetic::mul::lemma_mul_inequality(
            old(m).usage_count as int,
            u64::MAX as int,
            SCORE_SCALE as int,
        );
        vstd::arithmetic::mul::lemma_mul_is_distributive_add_other_way(
            SCORE_SCALE as int,
            old(m).usage_count as int,
            1,
        );
    }
    m.usage_count = m.usage_count + 1;
    m.confidence_sum = m.confidence_sum + (confidence_score as u128);
    proof {
        lemma_mean_in_range(m.confidence_sum as int, m.usage_count as int);
    }
    m.avg_confidence_score = (m.confidence_sum / (m.usage_count as u128)) as u64;
    m.updated_at = now;
    Ok(())
}

/// Outcome of `create_derived_model`: validation and initialization are those
/// of `register_model`; additionally the parent's address is recorded.  The
/// parent's statistics are not copied or aggregated.
pub open spec fn create_derived_model_step(
    id: AccountId,
    parent_model: AccountId,
    authority: AccountId,
    now: i64,
    name: String,
    description: String,
    version: String,
    model_type: String,
    model_hash: String,
    accuracy: u64,
    performance_metrics: String,
) -> Result<ModelRegistry, ErrorCode> {
    match register_model_step(
        id, authority, now, name, description, version, model_type, model_hash, accuracy,
        performance_metrics,
    ) {
        Ok(m) => Ok(ModelRegistry { parent_model: Some(parent_model), ..m }),
        Err(e) => Err(e),
    }
}

/// Register a model derived from the model stored at `parent_model`.
pub fn create_derived_model(
    id: AccountId,
    parent_model: AccountId,
    authority: AccountId,
    now: i64,
    name: String,
    description: String,
    version: String,
    model_type: String,
    model_hash: String,
    accuracy: u64,
    performance_metrics: String,
) -> (result: Result<ModelRegistry, ErrorCode>)
    requires
        valid_time(now),
    ensures
        result == create_derived_model_step(
            id, parent_model, authority, now, name, description, version, model_type,
            model_hash, accuracy, performance_metrics,
        ),
        result matches Ok(m) ==> m.wf(),
{
    if model_hash.as_str().unicode_len() < 16 {
        return Err(ErrorCode::InvalidModelHash);
    }
    if accuracy > SCORE_SCALE {
        return Err(ErrorCode::InvalidAccuracyValue);
    }
    Ok(ModelRegistry {
        id,
        name,
        description,
        version,
        model_type,
        model_hash,
        accuracy,
        performance_metrics,
        authority,
        created_at: now,
        updated_at: now,
        contribution_count: 0,
        verification_count: 0,
        confidence_sum: 0,
        avg_confidence_score: 0,
        usage_count: 0,
        is_verified: false,
        parent_model: Some(parent_model),
    })
}

/// The unit interval is accepted inclusively: with a long enough hash,
/// registration rejects an accuracy exactly when it lies above full scale
/// (values below zero have no representation at all), so both endpoints 0
/// and [`SCORE_SCALE`] are accepted; likewise usage recording and its
/// confidence score.
pub proof fn lemma_unit_interval_acceptance(
    m: ModelRegistry,
    id: AccountId,
    authority: AccountId,
    now: i64,
    name: String,
    description: String,
    version: String,
    model_type: String,
    model_hash: String,
    accuracy: u64,
    performance_metrics: String,
    confidence_score: u64,
)
    requires
        model_hash@.len() >= 16,
    ensures
        register_model_step(
            id, authority, now, name, description, version, model_type, model_hash, accuracy,
            performance_metrics,
        ) is Ok <==> accuracy <= SCORE_SCALE,
        record_usage_step(m, now, confidence_score) is Ok <==> confidence_score <= SCORE_SCALE,
{
}

/// The model as it stands after recording the usages in `scores`, in order.
/// A score that an individual call would reject leaves the model unchanged,
/// exactly as the failed call does.
pub open spec fn record_usages(m: ModelRegistry, now: i64, scores: Seq<u64>) -> ModelRegistry
    decreases scores.len(),
{
    if scores.len() == 0 {
        m
    } else {
        let prev = record_usages(m, now, scores.drop_last());
        match record_usage_step(prev, now, scores.last()) {
            Ok(m2) => m2,
            Err(_) => prev,
        }
    }
}

/// A sequence of scores each at most full adds up to at most one full score
/// per element.
proof fn lemma_seq_sum_bound(scores: Seq<u64>)
    requires
        forall|i: int| 0 <= i < scores.len() ==> valid_score(#[trigger] scores[i]),
    ensures
        0 <= seq_sum(scores) <= scores.len() * SCORE_SCALE,
    decreases scores.len(),
{
    if scores.len() == 0 {
    } else {
        lemma_seq_sum_bound(scores.drop_last());
        vstd::arithmetic::mul::lemma_mul_is_distributive_add_other_way(
            SCORE_SCALE as int,
            scores.len() - 1,
            1,
        );
    }
}

/// Running-mean correctness: after recording usages with confidence scores
/// `s1 .. sn`, all inside [0, 1], the model's usage count is `n`, its
/// confidence sum is `s1 + .. + sn` exactly, and its average confidence score
/// is `(s1 + .. + sn) / n`, rounded down.
pub proof fn lemma_running_mean(m: ModelRegistry, now: i64, scores: Seq<u64>)
    requires
        m.usage_count == 0,
        m.confidence_sum == 0,
        scores.len() <= u64::MAX,
        forall|i: int| 0 <= i < scores.len() ==> valid_score(#[trigger] scores[i]),
    ensures
        record_usages(m, now, scores).usage_count == scores.len(),
        record_usages(m, now, scores).confidence_sum == seq_sum(scores),
        scores.len() > 0 ==> record_usages(m, now, scores).avg_confidence_score == seq_sum(
            scores,
        ) / (scores.len() as int),
    decreases scores.len(),
{
    if scores.len() == 0 {
    } else {
        lemma_running_mean(m, now, scores.drop_last());
        lemma_seq_sum_bound(scores.drop_last());
        lemma_seq_sum_bound(scores);
        let prev = record_usages(m, now, scores.drop_last());
        let r = record_usages(m, now, scores);
        assert(record_usage_step(prev, now, scores.last()) is Ok);
        lemma_mean_in_range(seq_sum(scores), scores.len() as int);
        assert(r.avg_confidence_score == spec_mean(r.confidence_sum, r.usage_count));
    }
}

} // verus!
