use sensirion_gas_index_algorithm::{
    raw_ticks, AlgorithmType, EstimatorAction, GasIndexControl, IndexSource, StepPlan,
};

fn plan(
    raw_ticks: u16,
    index_source: IndexSource,
    seed_lowpass: bool,
    estimator_action: EstimatorAction,
) -> StepPlan {
    StepPlan { raw_ticks, index_source, seed_lowpass, estimator_action }
}

#[test]
fn algorithm_type_defaults_to_voc() {
    assert_eq!(AlgorithmType::default(), AlgorithmType::Voc);
    assert_ne!(AlgorithmType::Voc, AlgorithmType::Nox);
}

#[test]
fn raw_ticks_are_clamped_above_the_minimum() {
    assert_eq!(raw_ticks(0, AlgorithmType::Voc), 1);
    assert_eq!(raw_ticks(20000, AlgorithmType::Voc), 1);
    assert_eq!(raw_ticks(20001, AlgorithmType::Voc), 1);
    assert_eq!(raw_ticks(20002, AlgorithmType::Voc), 2);
    assert_eq!(raw_ticks(30000, AlgorithmType::Voc), 10000);
    assert_eq!(raw_ticks(52767, AlgorithmType::Voc), 32767);
    assert_eq!(raw_ticks(65535, AlgorithmType::Voc), 32767);
    assert_eq!(raw_ticks(30000, AlgorithmType::Nox), 20000);
    assert_eq!(raw_ticks(10000, AlgorithmType::Nox), 1);
    assert_eq!(raw_ticks(42767, AlgorithmType::Nox), 32767);
    assert_eq!(raw_ticks(65535, AlgorithmType::Nox), 32767);
}

#[test]
fn new_control_has_not_started() {
    let c = GasIndexControl::new(AlgorithmType::Nox);
    assert_eq!(c.algorithm_type(), AlgorithmType::Nox);
    assert!(!c.blackout_over());
    assert!(!c.estimator_initialized());
    assert!(!c.lowpass_initialized());
    let d = GasIndexControl::default();
    assert_eq!(d.algorithm_type(), AlgorithmType::Voc);
    assert!(!d.blackout_over());
    assert!(!d.estimator_initialized());
    assert!(!d.lowpass_initialized());
}

#[test]
fn blackout_changes_nothing() {
    let mut c = GasIndexControl::new(AlgorithmType::Voc);
    assert_eq!(c.step(true, 30000), None);
    assert_eq!(c.step(true, 0), None);
    assert!(!c.blackout_over());
    assert!(!c.estimator_initialized());
    assert!(!c.lowpass_initialized());
}

#[test]
fn blackout_happens_once_until_reset() {
    let mut c = GasIndexControl::new(AlgorithmType::Voc);
    assert_eq!(c.step(true, 30000), None);
    assert!(c.step(false, 30000).is_some());
    assert!(c.blackout_over());
    assert!(c.step(true, 30000).is_some());
    c.restart();
    assert!(c.blackout_over());
    assert!(c.step(true, 30000).is_some());
    c.reset();
    assert!(!c.blackout_over());
    assert_eq!(c.step(true, 30000), None);
}

#[test]
fn voc_first_samples() {
    let mut c = GasIndexControl::new(AlgorithmType::Voc);
    assert_eq!(
        c.step(false, 30000),
        Some(plan(10000, IndexSource::MoxModel, true, EstimatorAction::Initialize))
    );
    assert_eq!(
        c.step(false, 25000),
        Some(plan(5000, IndexSource::MoxModel, false, EstimatorAction::Update))
    );
    assert_eq!(
        c.step(false, 100),
        Some(plan(1, IndexSource::MoxModel, false, EstimatorAction::Update))
    );
}

#[test]
fn nox_uses_offset_until_estimator_learns() {
    let mut c = GasIndexControl::new(AlgorithmType::Nox);
    assert_eq!(
        c.step(false, 16000),
        Some(plan(6000, IndexSource::IndexOffset, true, EstimatorAction::Initialize))
    );
    assert!(c.estimator_initialized());
    assert!(c.lowpass_initialized());
    assert_eq!(
        c.step(false, 16000),
        Some(plan(6000, IndexSource::MoxModel, false, EstimatorAction::Update))
    );
}

#[test]
fn restart_forgets_learning() {
    let mut c = GasIndexControl::new(AlgorithmType::Nox);
    c.step(false, 16000);
    c.step(false, 16000);
    c.restart();
    assert_eq!(c.algorithm_type(), AlgorithmType::Nox);
    assert!(c.blackout_over());
    assert!(!c.estimator_initialized());
    assert!(!c.lowpass_initialized());
    assert_eq!(
        c.step(false, 16000),
        Some(plan(6000, IndexSource::IndexOffset, true, EstimatorAction::Initialize))
    );
}

#[test]
fn reset_starts_afresh() {
    let mut c = GasIndexControl::new(AlgorithmType::Voc);
    c.step(false, 30000);
    c.reset();
    assert_eq!(c.algorithm_type(), AlgorithmType::Voc);
    assert!(!c.blackout_over());
    assert!(!c.estimator_initialized());
    assert!(!c.lowpass_initialized());
}

#[test]
fn restored_states_count_as_learned() {
    let mut c = GasIndexControl::new(AlgorithmType::Nox);
    c.restore_states();
    assert!(c.estimator_initialized());
    assert!(!c.lowpass_initialized());
    assert_eq!(
        c.step(false, 16000),
        Some(plan(6000, IndexSource::MoxModel, true, EstimatorAction::Update))
    );
}

#[test]
fn run_of_samples_sets_flags() {
    let mut c = GasIndexControl::new(AlgorithmType::Voc);
    for _ in 0..3 {
        assert!(c.step(false, 0).is_some());
    }
    assert!(c.blackout_over());
    assert!(c.lowpass_initialized());
    assert!(c.estimator_initialized());
}
