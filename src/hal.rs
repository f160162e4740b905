//! Values exchanged with the hardware abstraction layer.
use vstd::prelude::*;

verus! {

/// An error reported by the hardware abstraction layer, with its status code.
#[derive(Clone, Copy, Debug, PartialEq, Eq, Structural)]
pub struct HalError {
    pub code: i32,
}

/// The result of a call into the hardware abstraction layer.
pub type HalResult<T> = Result<T, HalError>;

/// How often the pulse generator emits a pulse, as a multiple of its base period.
#[derive(Clone, Copy, Debug, PartialEq, Eq, Structural)]
pub enum PeriodMultiplier {
    Multiplier1x,
    Multiplier2x,
    Multiplier4x,
}

/// The squelch mask that the hardware layer takes for a period multiplier.
pub open spec fn squelch_mask_of(m: PeriodMultiplier) -> int {
    match m {
        PeriodMultiplier::Multiplier1x => 0,
        PeriodMultiplier::Multiplier2x => 1,
        PeriodMultiplier::Multiplier4x => 3,
    }
}

impl PeriodMultiplier {
    /// The squelch mask handed to the hardware layer: every pulse is kept for
    /// 1x, every second one for 2x, every fourth one for 4x.
    pub fn squelch_mask(&self) -> (r: i32)
        ensures
            r == squelch_mask_of(*self),
    {
        match self {
            PeriodMultiplier::Multiplier1x => 0,
            PeriodMultiplier::Multiplier2x => 1,
            PeriodMultiplier::Multiplier4x => 3,
        }
    }
}

} // verus!
