use vstd::prelude::*;

use crate::algorithm_type::AlgorithmType;

verus! {

/// How the gas index of a sample is formed before it is low-pass filtered.
#[derive(Clone, Copy, Debug, PartialEq, Eq, Structural)]
pub enum IndexSource {
    /// From the raw signal, through the MOX model and the scaled sigmoid.
    MoxModel,
    /// The index offset of the tuning parameters, taken as it is.
    IndexOffset,
}

/// What a sample does to the mean/variance estimator.
#[derive(Clone, Copy, Debug, PartialEq, Eq, Structural)]
pub enum EstimatorAction {
    /// The sample becomes the estimator's offset, with a mean of zero, and
    /// the estimator counts as initialized from then on.
    Initialize,
    /// The estimated mean and deviation are updated with the sample.
    Update,
}

/// What the algorithm does with one sample after the initial blackout.
#[derive(Clone, Copy, Debug, PartialEq, Eq, Structural)]
pub struct StepPlan {
    /// The raw value above the sensor's minimum, clamped to `1..=32767`.
    pub raw_ticks: u16,
    /// How the gas index is formed.
    pub index_source: IndexSource,
    /// Whether the adaptive low-pass filter first takes the gas index as the
    /// value of all three of its stages.
    pub seed_lowpass: bool,
    /// What happens to the mean/variance estimator after the index is formed.
    pub estimator_action: EstimatorAction,
}

/// The state that the decisions of the algorithm depend on.
pub struct ControlView {
    pub algorithm_type: AlgorithmType,
    /// Whether a sample has been computed since the last reset, which ends
    /// the initial blackout for good.
    pub blackout_over: bool,
    /// Whether the mean/variance estimator has taken its first sample, or
    /// has been given its states.
    pub estimator_initialized: bool,
    /// Whether the adaptive low-pass filter has taken its first sample.
    pub lowpass_initialized: bool,
}

/// The state of a freshly built (or reset) algorithm of the given type.
pub open spec fn fresh_state(algorithm_type: AlgorithmType) -> ControlView {
    ControlView {
        algorithm_type,
        blackout_over: false,
        estimator_initialized: false,
        lowpass_initialized: false,
    }
}

/// The raw value that the sensor gives at the bottom of its range.
pub open spec fn raw_minimum(algorithm_type: AlgorithmType) -> int {
    match algorithm_type {
        AlgorithmType::Voc => 20000,
        AlgorithmType::Nox => 10000,
    }
}

/// The raw value above the minimum, clamped to `1..=32767`.
pub open spec fn raw_ticks_for(sraw: int, algorithm_type: AlgorithmType) -> int {
    let d = sraw - raw_minimum(algorithm_type);
    if d < 1 {
        1
    } else if d > 32767 {
        32767
    } else {
        d
    }
}

/// The gas index comes from the MOX model for VOC, and for NOx once its
/// estimator is initialized; until then a NOx index is the index offset.
pub open spec fn index_source_for(
    algorithm_type: AlgorithmType,
    estimator_initialized: bool,
) -> IndexSource {
    if algorithm_type == AlgorithmType::Voc || estimator_initialized {
        IndexSource::MoxModel
    } else {
        IndexSource::IndexOffset
    }
}

/// The first sample initializes the estimator; later ones update it.
pub open spec fn estimator_action_for(estimator_initialized: bool) -> EstimatorAction {
    if estimator_initialized {
        EstimatorAction::Update
    } else {
        EstimatorAction::Initialize
    }
}

/// Whether a sample falls in the initial blackout: the caller finds the
/// uptime within the blackout, and no sample has been computed since the
/// last reset.
pub open spec fn in_initial_blackout(s: ControlView, uptime_in_blackout: bool) -> bool {
    uptime_in_blackout && !s.blackout_over
}

/// The plan for the raw value `sraw` taken in state `s`.
pub open spec fn plan_for(s: ControlView, sraw: u16) -> StepPlan {
    StepPlan {
        raw_ticks: raw_ticks_for(sraw as int, s.algorithm_type) as u16,
        index_source: index_source_for(s.algorithm_type, s.estimator_initialized),
        seed_lowpass: !s.lowpass_initialized,
        estimator_action: estimator_action_for(s.estimator_initialized),
    }
}

/// The state after a sample computed in state `s`.
pub open spec fn state_after_sample(s: ControlView) -> ControlView {
    ControlView {
        algorithm_type: s.algorithm_type,
        blackout_over: true,
        estimator_initialized: true,
        lowpass_initialized: true,
    }
}

/// The state after `n` samples computed one after the other.
pub open spec fn state_after_samples(s: ControlView, n: nat) -> ControlView
    decreases n,
{
    if n == 0 {
        s
    } else {
        state_after_sample(state_after_samples(s, (n - 1) as nat))
    }
}

/// The raw value above the sensor's minimum for the given type, clamped to
/// `1..=32767`.
pub fn raw_ticks(sraw: u16, algorithm_type: AlgorithmType) -> (r: u16)
    ensures
        r as int == raw_ticks_for(sraw as int, algorithm_type),
        1 <= r <= 32767,
{
    let minimum: u16 = match algorithm_type {
        AlgorithmType::Voc => 20000,
        AlgorithmType::Nox => 10000,
    };
    if sraw <= minimum {
        1
    } else if sraw - minimum > 32767 {
        32767
    } else {
        sraw - minimum
    }
}

/// The decision state of a gas index algorithm: its type, whether the
/// initial blackout is over, and whether its mean/variance estimator and its
/// adaptive low-pass filter have started.
pub struct GasIndexControl {
    algorithm_type: AlgorithmType,
    blackout_over: bool,
    estimator_initialized: bool,
    lowpass_initialized: bool,
}

impl View for GasIndexControl {
    type V = ControlView;

    closed spec fn view(&self) -> ControlView {
        ControlView {
            algorithm_type: self.algorithm_type,
            blackout_over: self.blackout_over,
            estimator_initialized: self.estimator_initialized,
            lowpass_initialized: self.lowpass_initialized,
        }
    }
}

impl GasIndexControl {
    /// The state of a new algorithm of the given type: nothing has started.
    pub fn new(algorithm_type: AlgorithmType) -> (r: Self)
        ensures
            r@ == fresh_state(algorithm_type),
    {
        GasIndexControl {
            algorithm_type,
            blackout_over: false,
            estimator_initialized: false,
            lowpass_initialized: false,
        }
    }

    pub fn algorithm_type(&self) -> (r: AlgorithmType)
        ensures
            r == self@.algorithm_type,
    {
        self.algorithm_type
    }

    pub fn blackout_over(&self) -> (r: bool)
        ensures
            r == self@.blackout_over,
    {
        self.blackout_over
    }

    pub fn estimator_initialized(&self) -> (r: bool)
        ensures
            r == self@.estimator_initialized,
    {
        self.estimator_initialized
    }

    pub fn lowpass_initialized(&self) -> (r: bool)
        ensures
            r == self@.lowpass_initialized,
    {
        self.lowpass_initialized
    }

    /// A reset: the blackout starts again and the estimator and the low-pass
    /// filter are built anew; the type stays.
    pub fn reset(&mut self)
        ensures
            final(self)@ == fresh_state(old(self)@.algorithm_type),
    {
        self.blackout_over = false;
        self.estimator_initialized = false;
        self.lowpass_initialized = false;
    }

    /// The estimator and the low-pass filter are built anew (when the tuning
    /// parameters change); the type and the blackout stay as they are.
    pub fn restart(&mut self)
        ensures
            final(self)@ == (ControlView {
                estimator_initialized: false,
                lowpass_initialized: false,
                ..old(self)@
            }),
    {
        self.estimator_initialized = false;
        self.lowpass_initialized = false;
    }

    /// The estimator is given a mean and a deviation from outside, and counts
    /// as initialized from then on; the rest is left as it is.
    pub fn restore_states(&mut self)
        ensures
            final(self)@ == (ControlView { estimator_initialized: true, ..old(self)@ }),
    {
        self.estimator_initialized = true;
    }

    /// Decides what the raw value `sraw` does. `uptime_in_blackout` tells
    /// whether the uptime is still within the initial blackout. During the
    /// initial blackout nothing is computed and the state stays; afterwards
    /// the plan of the sample is returned and the state moves on. Once a
    /// sample has been computed, every sample is computed until a reset.
    pub fn step(&mut self, uptime_in_blackout: bool, sraw: u16) -> (r: Option<StepPlan>)
        ensures
            in_initial_blackout(old(self)@, uptime_in_blackout) ==> r is None && final(self)@
                == old(self)@,
            !in_initial_blackout(old(self)@, uptime_in_blackout) ==> r == Some(
                plan_for(old(self)@, sraw),
            ) && final(self)@ == state_after_sample(old(self)@),
            old(self)@.blackout_over ==> r is Some,
            uptime_in_blackout && !old(self)@.blackout_over ==> r is None,
            r matches Some(p) ==> ((p.estimator_action == EstimatorAction::Initialize)
                <==> !old(self)@.estimator_initialized),
            r matches Some(p) ==> (p.seed_lowpass <==> !old(self)@.lowpass_initialized),
            r matches Some(p) ==> ((p.index_source == IndexSource::IndexOffset) <==> (old(
                self,
            )@.algorithm_type == AlgorithmType::Nox && !old(self)@.estimator_initialized)),
    {
        if uptime_in_blackout && !self.blackout_over {
            return None;
        }
        let raw_ticks = raw_ticks(sraw, self.algorithm_type);
        let index_source = if self.algorithm_type == AlgorithmType::Voc
            || self.estimator_initialized {
            IndexSource::MoxModel
        } else {
            IndexSource::IndexOffset
        };
        let estimator_action = if self.estimator_initialized {
            EstimatorAction::Update
        } else {
            EstimatorAction::Initialize
        };
        let seed_lowpass = !self.lowpass_initialized;
        self.blackout_over = true;
        self.lowpass_initialized = true;
        self.estimator_initialized = true;
        Some(StepPlan { raw_ticks, index_source, seed_lowpass, estimator_action })
    }
}

impl Default for GasIndexControl {
    /// The state of a default VOC algorithm.
    fn default() -> (r: Self)
        ensures
            r@ == fresh_state(AlgorithmType::Voc),
    {
        GasIndexControl::new(AlgorithmType::Voc)
    }
}

} // verus!
