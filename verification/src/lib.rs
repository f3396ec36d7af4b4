//! The decision logic of Sensirion's VOC/NOx gas index algorithm.

use vstd::prelude::*;

pub mod algorithm_type;

pub use algorithm_type::AlgorithmType;
pub mod control;

pub use control::{raw_ticks, EstimatorAction, GasIndexControl, IndexSource, StepPlan};
pub mod laws;
