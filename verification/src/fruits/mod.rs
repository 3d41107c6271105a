//! Fruit-catching charts: the attributes of a chart and the rating of a score.

use vstd::prelude::*;
use crate::ratio::Ratio;

pub mod pp;

verus! {

/// What a difficulty calculation knows of a fruit-catching chart in counts.
#[derive(Clone, Copy, Debug, PartialEq, Eq, Structural)]
pub struct FruitsDifficultyAttributes {
    /// The amount of fruits.
    pub n_fruits: usize,
    /// The amount of droplets.
    pub n_droplets: usize,
    /// The amount of tiny droplets.
    pub n_tiny_droplets: usize,
    /// The maximum combo.
    pub max_combo: usize,
}

impl FruitsDifficultyAttributes {
    /// Fruits and droplets, and nothing else, make up the combo, and the
    /// judged objects together are a count.
    pub open spec fn wf(self) -> bool {
        &&& self.n_fruits + self.n_droplets == self.max_combo
        &&& self.total_objects() <= usize::MAX
    }

    /// Every object that is judged: those of the combo and the tiny droplets.
    pub open spec fn total_objects(self) -> int {
        self.max_combo + self.n_tiny_droplets
    }
}

impl Default for FruitsDifficultyAttributes {
    fn default() -> (r: Self)
        ensures
            r == (FruitsDifficultyAttributes {
                n_fruits: 0,
                n_droplets: 0,
                n_tiny_droplets: 0,
                max_combo: 0,
            }),
            r.wf(),
    {
        FruitsDifficultyAttributes { n_fruits: 0, n_droplets: 0, n_tiny_droplets: 0, max_combo: 0 }
    }
}

/// The integral side of a score's rating: the chart's attributes, and every
/// count, ratio and switch that the point formula is evaluated on.
#[derive(Clone, Copy, Debug, PartialEq, Eq, Structural)]
pub struct FruitsPerformanceAttributes {
    /// The difficulty attributes that the score was held against.
    pub attributes: FruitsDifficultyAttributes,
    /// The combo-relevant judgements that the length bonus grows with.
    pub length_hits: usize,
    /// The misses, each of which costs a fixed share of the rating.
    pub n_misses: usize,
    /// The share of the chart's combo that the score reached, at most one.
    pub combo_scaling: Ratio,
    /// The share of judged objects that were caught.
    pub accuracy: Ratio,
    /// Whether the bonus for fading objects applies.
    pub hidden: bool,
    /// Whether the bonus for a darkened field applies.
    pub flashlight: bool,
    /// Whether the penalty for a play that cannot fail applies.
    pub no_fail: bool,
}

} // verus!
