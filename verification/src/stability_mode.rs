//! Stability modes and the thresholds that separate them.

use crate::error::CoreError;
use crate::fixed_point::UFix64;
use vstd::prelude::*;

verus! {

/// The health of the system, from healthiest to most stressed.
#[derive(Clone, Copy, Debug, PartialEq, Eq, PartialOrd, Ord, Hash, Structural)]
pub enum StabilityMode {
    Stable,
    Decay,
    Depeg,
}

impl StabilityMode {
    /// The position of the mode in the order of stress: 0 for `Stable`, 1
    /// for `Decay`, 2 for `Depeg`.
    pub open spec fn ordinal_spec(self) -> nat {
        match self {
            StabilityMode::Stable => 0,
            StabilityMode::Decay => 1,
            StabilityMode::Depeg => 2,
        }
    }

    pub fn ordinal(&self) -> (r: u8)
        ensures
            r == self.ordinal_spec(),
    {
        match self {
            StabilityMode::Stable => 0,
            StabilityMode::Decay => 1,
            StabilityMode::Depeg => 2,
        }
    }

    /// The more stressed of two modes; `b` where they are equal.
    pub open spec fn worse_of(a: StabilityMode, b: StabilityMode) -> StabilityMode {
        if b.ordinal_spec() < a.ordinal_spec() {
            a
        } else {
            b
        }
    }
}

/// The mode of a collateral ratio under two thresholds, all three as bits
/// of one scale. A ratio equal to a threshold belongs to the healthier side.
pub open spec fn mode_of_ratio(threshold_1: int, threshold_2: int, ratio: int) -> StabilityMode {
    if ratio >= threshold_1 {
        StabilityMode::Stable
    } else if ratio >= threshold_2 {
        StabilityMode::Decay
    } else {
        StabilityMode::Depeg
    }
}

/// Two descending collateral-ratio thresholds.
#[derive(Clone, Copy, Debug, PartialEq, Eq)]
pub struct StabilityController {
    pub stability_threshold_1: UFix64<9>,
    pub stability_threshold_2: UFix64<9>,
}

impl StabilityController {
    /// The first threshold lies strictly above the second.
    pub open spec fn wf(&self) -> bool {
        self.stability_threshold_1.bits > self.stability_threshold_2.bits
    }

    /// A controller of the two thresholds, which must descend.
    pub fn new(stability_threshold_1: UFix64<9>, stability_threshold_2: UFix64<9>) -> (r: Result<
        StabilityController,
        CoreError,
    >)
        ensures
            stability_threshold_1.bits > stability_threshold_2.bits ==> r == Ok::<
                StabilityController,
                CoreError,
            >(StabilityController { stability_threshold_1, stability_threshold_2 }),
            stability_threshold_1.bits <= stability_threshold_2.bits ==> r == Err::<
                StabilityController,
                CoreError,
            >(CoreError::InvalidStabilityThresholds),
            r is Ok ==> r->Ok_0.wf(),
    {
        if stability_threshold_1.bits > stability_threshold_2.bits {
            Ok(StabilityController { stability_threshold_1, stability_threshold_2 })
        } else {
            Err(CoreError::InvalidStabilityThresholds)
        }
    }

    /// The mode that this controller gives a collateral ratio.
    pub open spec fn mode_spec(&self, collateral_ratio: UFix64<9>) -> StabilityMode {
        mode_of_ratio(
            self.stability_threshold_1.bits as int,
            self.stability_threshold_2.bits as int,
            collateral_ratio.bits as int,
        )
    }

    /// `Stable` at or above the first threshold, `Decay` from the second up
    /// to the first, `Depeg` below the second.
    pub fn stability_mode(&self, collateral_ratio: UFix64<9>) -> (r: StabilityMode)
        ensures
            r == self.mode_spec(collateral_ratio),
    {
        if collateral_ratio.bits >= self.stability_threshold_1.bits {
            StabilityMode::Stable
        } else if collateral_ratio.bits >= self.stability_threshold_2.bits {
            StabilityMode::Decay
        } else {
            StabilityMode::Depeg
        }
    }

    /// The lowest threshold: the floor for mint ceilings.
    pub fn min_stability_threshold(&self) -> (r: UFix64<9>)
        ensures
            r == self.stability_threshold_2,
    {
        self.stability_threshold_2
    }

    /// The threshold that the ratio meets next as it falls out of a mode.
    pub open spec fn next_threshold_spec(&self, mode: StabilityMode) -> Option<UFix64<9>> {
        match mode {
            StabilityMode::Stable => Some(self.stability_threshold_1),
            StabilityMode::Decay => Some(self.stability_threshold_2),
            StabilityMode::Depeg => None,
        }
    }

    /// The threshold under the given mode: the first under `Stable`, the
    /// second under `Decay`, none under `Depeg`.
    pub fn next_stability_threshold(&self, mode: StabilityMode) -> (r: Option<UFix64<9>>)
        ensures
            r == self.next_threshold_spec(mode),
    {
        match mode {
            StabilityMode::Stable => Some(self.stability_threshold_1),
            StabilityMode::Decay => Some(self.stability_threshold_2),
            StabilityMode::Depeg => None,
        }
    }
}

/// As the ratio falls, the mode never becomes healthier.
pub proof fn lemma_stability_mode_monotonic(
    controller: StabilityController,
    lower: UFix64<9>,
    higher: UFix64<9>,
)
    requires
        lower.bits <= higher.bits,
    ensures
        controller.mode_spec(higher).ordinal_spec() <= controller.mode_spec(lower).ordinal_spec(),
{
}

/// A ratio equal to a threshold is classed with the healthier mode beside
/// it: `Stable` at the first threshold, `Decay` at the second.
pub proof fn lemma_stability_mode_boundaries(controller: StabilityController)
    requires
        controller.wf(),
    ensures
        controller.mode_spec(controller.stability_threshold_1) == StabilityMode::Stable,
        controller.mode_spec(controller.stability_threshold_2) == StabilityMode::Decay,
        forall|r: UFix64<9>|
            r.bits < controller.stability_threshold_2.bits ==> #[trigger] controller.mode_spec(r)
                == StabilityMode::Depeg,
        forall|r: UFix64<9>|
            controller.stability_threshold_2.bits <= r.bits < controller.stability_threshold_1.bits
                ==> #[trigger] controller.mode_spec(r) == StabilityMode::Decay,
        forall|r: UFix64<9>|
            r.bits >= controller.stability_threshold_1.bits ==> #[trigger] controller.mode_spec(r)
                == StabilityMode::Stable,
{
}

} // verus!
