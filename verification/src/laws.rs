use vstd::prelude::*;

use crate::algorithm_type::AlgorithmType;
use crate::control::{
    ControlView, EstimatorAction, IndexSource, fresh_state, in_initial_blackout, plan_for,
    raw_ticks_for, state_after_sample, state_after_samples,
};

verus! {

/// A VOC algorithm always forms its gas index from the MOX model.
pub proof fn lemma_voc_always_uses_model(s: ControlView, sraw: u16)
    requires
        s.algorithm_type == AlgorithmType::Voc,
    ensures
        plan_for(s, sraw).index_source == IndexSource::MoxModel,
{
}

/// Once the estimator is initialized, every sample forms its gas index from
/// the MOX model and updates the estimator; it is never initialized again.
pub proof fn lemma_initialized_estimator_uses_model(s: ControlView, sraw: u16)
    requires
        s.estimator_initialized,
    ensures
        plan_for(s, sraw).index_source == IndexSource::MoxModel,
        plan_for(s, sraw).estimator_action == EstimatorAction::Update,
        state_after_sample(s).estimator_initialized,
{
}

/// Every computed sample is at least one tick and at most 32767 ticks above
/// the sensor's minimum, so it always reaches the estimator.
pub proof fn lemma_raw_ticks_positive(sraw: u16, algorithm_type: AlgorithmType)
    ensures
        1 <= raw_ticks_for(sraw as int, algorithm_type) <= 32767,
{
}

/// The low-pass filter is seeded by the first sample after a start and by
/// none after it.
pub proof fn lemma_lowpass_seeded_once(s: ControlView, first: u16, second: u16)
    ensures
        plan_for(s, first).seed_lowpass == !s.lowpass_initialized,
        !plan_for(state_after_sample(s), second).seed_lowpass,
{
}

/// The blackout happens once: after a computed sample no sample falls in the
/// initial blackout, whatever the uptime, until a reset.
pub proof fn lemma_blackout_only_initial(s: ControlView, uptime_in_blackout: bool, n: nat)
    requires
        n > 0,
    ensures
        !in_initial_blackout(state_after_samples(s, n), uptime_in_blackout),
    decreases n,
{
    if n > 1 {
        lemma_blackout_only_initial(s, uptime_in_blackout, (n - 1) as nat);
    }
}

/// After one computed sample or more, the type is unchanged and the
/// blackout, the estimator and the low-pass filter have all started; after
/// none the state is unchanged.
pub proof fn lemma_state_after_samples(s: ControlView, n: nat)
    ensures
        state_after_samples(s, n) == (if n == 0 {
            s
        } else {
            ControlView {
                algorithm_type: s.algorithm_type,
                blackout_over: true,
                estimator_initialized: true,
                lowpass_initialized: true,
            }
        }),
    decreases n,
{
    if n > 0 {
        lemma_state_after_samples(s, (n - 1) as nat);
    }
}

/// After a start, a NOx algorithm forms the gas index of its first computed
/// sample from the index offset, seeds the low-pass filter with it and
/// initializes the estimator with it; every later sample takes its index
/// from the MOX model, seeds nothing and updates the estimator.
pub proof fn lemma_nox_learning(n: nat, sraw: u16)
    ensures
        ({
            let plan = plan_for(state_after_samples(fresh_state(AlgorithmType::Nox), n), sraw);
            &&& plan.index_source == (if n == 0 {
                IndexSource::IndexOffset
            } else {
                IndexSource::MoxModel
            })
            &&& plan.estimator_action == (if n == 0 {
                EstimatorAction::Initialize
            } else {
                EstimatorAction::Update
            })
            &&& plan.seed_lowpass == (n == 0)
        }),
{
    lemma_state_after_samples(fresh_state(AlgorithmType::Nox), n);
}

/// After its states are given, the estimator is updated by the next sample
/// and the gas index comes from the MOX model.
pub proof fn lemma_restored_states_update(s: ControlView, sraw: u16)
    ensures
        ({
            let plan = plan_for(ControlView { estimator_initialized: true, ..s }, sraw);
            &&& plan.index_source == IndexSource::MoxModel
            &&& plan.estimator_action == EstimatorAction::Update
        }),
{
}

/// Every algorithm type sits out the initial blackout: a sample falls in it
/// exactly when the uptime is within the blackout and no sample has been
/// computed since the last reset, whatever the type, the estimator and the
/// low-pass filter.
pub proof fn lemma_blackout_for_every_state(
    s: ControlView,
    uptime_in_blackout: bool,
    algorithm_type: AlgorithmType,
    estimator_initialized: bool,
    lowpass_initialized: bool,
)
    ensures
        in_initial_blackout(s, uptime_in_blackout) <==> (uptime_in_blackout && !s.blackout_over),
        in_initial_blackout(
            ControlView { algorithm_type, estimator_initialized, lowpass_initialized, ..s },
            uptime_in_blackout,
        ) == in_initial_blackout(s, uptime_in_blackout),
        in_initial_blackout(fresh_state(algorithm_type), true),
        !in_initial_blackout(s, false),
{
}

/// Giving the estimator its states neither starts nor ends the blackout.
pub proof fn lemma_restored_states_keep_blackout(s: ControlView, uptime_in_blackout: bool)
    ensures
        in_initial_blackout(ControlView { estimator_initialized: true, ..s }, uptime_in_blackout)
            == in_initial_blackout(s, uptime_in_blackout),
        in_initial_blackout(
            ControlView { estimator_initialized: true, ..fresh_state(s.algorithm_type) },
            true,
        ),
{
}

/// An uninitialized estimator is initialized by the next computed sample and
/// an initialized one is updated, whatever the type, the blackout and the
/// low-pass filter.
pub proof fn lemma_estimator_initialized_by_next_sample(s: ControlView, sraw: u16)
    ensures
        (plan_for(s, sraw).estimator_action == EstimatorAction::Initialize)
            <==> !s.estimator_initialized,
        (plan_for(s, sraw).estimator_action == EstimatorAction::Update)
            <==> s.estimator_initialized,
{
}

/// Rebuilding the estimator and the filter (a change of tuning parameters)
/// after any number of samples makes the next sample initialize the estimator
/// and seed the filter again, for every type; the blackout stays over.
pub proof fn lemma_restart_relearns(s: ControlView, n: nat, sraw: u16)
    requires
        n > 0,
    ensures
        ({
            let restarted = ControlView {
                estimator_initialized: false,
                lowpass_initialized: false,
                ..state_after_samples(s, n)
            };
            &&& plan_for(restarted, sraw).estimator_action == EstimatorAction::Initialize
            &&& plan_for(restarted, sraw).seed_lowpass
            &&& !in_initial_blackout(restarted, true)
        }),
{
    lemma_state_after_samples(s, n);
}

/// The plan of a sample: the index comes from the index offset exactly for a
/// NOx algorithm whose estimator is not initialized; the filter is seeded
/// exactly when it has not started; the raw value depends only on the type.
pub proof fn lemma_plan_parts(s: ControlView, t: ControlView, sraw: u16)
    ensures
        (plan_for(s, sraw).index_source == IndexSource::IndexOffset) <==> (s.algorithm_type
            == AlgorithmType::Nox && !s.estimator_initialized),
        plan_for(s, sraw).seed_lowpass <==> !s.lowpass_initialized,
        s.algorithm_type == t.algorithm_type ==> plan_for(s, sraw).raw_ticks == plan_for(
            t,
            sraw,
        ).raw_ticks,
        1 <= plan_for(s, sraw).raw_ticks <= 32767,
{
}

/// The raw value of a sample is its distance above the sensor's minimum
/// (20000 for VOC, 10000 for NOx), clamped to `1..=32767`.
pub proof fn lemma_raw_ticks_clamp(sraw: u16, algorithm_type: AlgorithmType)
    ensures
        ({
            let minimum: int = if algorithm_type == AlgorithmType::Voc { 20000 } else { 10000 };
            let r = raw_ticks_for(sraw as int, algorithm_type);
            &&& sraw as int - minimum <= 1 ==> r == 1
            &&& sraw as int - minimum >= 32767 ==> r == 32767
            &&& 1 <= sraw as int - minimum <= 32767 ==> r == sraw as int - minimum
        }),
{
}

/// A new or reset algorithm has started nothing: the blackout is ahead, the
/// estimator and the filter have not taken a sample, and its type is kept.
pub proof fn lemma_fresh_state(algorithm_type: AlgorithmType)
    ensures
        fresh_state(algorithm_type).algorithm_type == algorithm_type,
        !fresh_state(algorithm_type).blackout_over,
        !fresh_state(algorithm_type).estimator_initialized,
        !fresh_state(algorithm_type).lowpass_initialized,
{
}

} // verus!
