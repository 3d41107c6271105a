//! Difficulty and performance rating of rhythm-game charts, over integers.
//!
//! The crate holds the combinatorial side of the rating: how spatially
//! coincident objects are stacked, how the timeline is cut into strain
//! sections, how per-section peaks are combined, and how a score's judgement
//! counts are completed and turned into the counts, ratios and switches that
//! the point formula is evaluated on. Every function here is proved against
//! its contract and free of panics; real-valued arithmetic is left to the
//! caller, who hands over times in ticks, positions in grid steps, strains
//! in whole units and accuracies in hundredths of a percent.

use vstd::prelude::*;

pub mod fruits;
pub mod mods;
pub mod osu;
pub mod ratio;

pub use fruits::pp::{FruitsAttributeProvider, FruitsPP, FruitsPPInner};
pub use fruits::{FruitsDifficultyAttributes, FruitsPerformanceAttributes};
pub use osu::{Beatmap, OsuDifficultyAttributes, OsuPerformanceAttributes, SkillPeaks, Strains};
pub use ratio::Ratio;

verus! {

/// The result of a difficulty calculation, of whichever sort the chart is.
#[derive(Clone, Copy, Debug, PartialEq, Eq, Structural)]
pub enum DifficultyAttributes {
    /// The attributes of a fruit-catching chart.
    Fruits(FruitsDifficultyAttributes),
    /// The attributes of a chart of circles, sliders and spinners.
    Osu(OsuDifficultyAttributes),
}

/// The result of a performance calculation, of whichever sort the chart is.
#[derive(Clone, Copy, Debug, PartialEq, Eq, Structural)]
pub enum PerformanceAttributes {
    /// The rating of a score on a fruit-catching chart.
    Fruits(FruitsPerformanceAttributes),
    /// The rating of a score on a chart of circles, sliders and spinners.
    Osu(OsuPerformanceAttributes),
}

} // verus!
