use vstd::prelude::*;

verus! {

/// Which gas the algorithm turns into an index: volatile organic compounds
/// or nitrogen oxides.
#[derive(Clone, Copy, Debug, PartialEq, Eq, Structural)]
pub enum AlgorithmType {
    Voc,
    Nox,
}

impl Default for AlgorithmType {
    /// The VOC engine is the default.
    fn default() -> (r: Self)
        ensures
            r == AlgorithmType::Voc,
    {
        AlgorithmType::Voc
    }
}

} // verus!
