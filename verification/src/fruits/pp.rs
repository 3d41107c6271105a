//! The rating of a score on a fruit-catching chart.
//!
//! A score is described step by step through [`FruitsPP`]. Judgement counts
//! that were left out are completed against the chart's attributes, and the
//! completed score is reduced to what the point formula reads.

use vstd::prelude::*;
use crate::fruits::{FruitsDifficultyAttributes, FruitsPerformanceAttributes};
use crate::mods;
use crate::ratio::Ratio;
use crate::{DifficultyAttributes, PerformanceAttributes};

verus! {

/// An accuracy of one hundred percent, in hundredths of a percent.
pub const FULL_ACCURACY: u32 = 10_000;

/// `a - b` where that is positive, else zero.
pub open spec fn sat_sub(a: int, b: int) -> int {
    if a >= b {
        a - b
    } else {
        0
    }
}

/// The count that was given, or zero.
pub open spec fn or_zero(count: Option<usize>) -> int {
    match count {
        Some(n) => n as int,
        None => 0,
    }
}

/// The number of caught objects that the accuracy `acc`, in hundredths of a
/// percent, asks for among `total` judged objects: `acc * total / 10_000`,
/// rounded to the nearest count, a half upwards.
pub open spec fn target_hits(acc: u32, total: int) -> int {
    (2 * (acc as int) * total + FULL_ACCURACY) / (2 * FULL_ACCURACY)
}

/// Performance calculator on fruit-catching charts.
///
/// Counts that are never set are completed when the score is rated.
#[derive(Clone, Copy, Debug)]
pub struct FruitsPP {
    /// The attributes of the chart under the mods of the score.
    pub attributes: FruitsDifficultyAttributes,
    /// The mods of the score, as bit flags.
    pub mods: u32,
    /// The highest combo of the score.
    pub combo: Option<usize>,
    /// The caught fruits.
    pub n_fruits: Option<usize>,
    /// The caught droplets.
    pub n_droplets: Option<usize>,
    /// The caught tiny droplets.
    pub n_tiny_droplets: Option<usize>,
    /// The tiny droplets that were not caught.
    pub n_tiny_droplet_misses: Option<usize>,
    /// The fruits and droplets that were not caught.
    pub n_misses: usize,
    /// The objects that were played, where the play stopped early.
    pub passed_objects: Option<usize>,
}

/// A score whose judgement counts are complete.
#[derive(Clone, Copy, Debug)]
pub struct FruitsPPInner {
    /// The attributes of the chart under the mods of the score.
    pub attributes: FruitsDifficultyAttributes,
    /// The mods of the score, as bit flags.
    pub mods: u32,
    /// The highest combo of the score.
    pub combo: Option<usize>,
    /// The caught fruits.
    pub n_fruits: usize,
    /// The caught droplets.
    pub n_droplets: usize,
    /// The caught tiny droplets.
    pub n_tiny_droplets: usize,
    /// The tiny droplets that were not caught.
    pub n_tiny_droplet_misses: usize,
    /// The fruits and droplets that were not caught.
    pub n_misses: usize,
}

impl FruitsPP {
    /// Fruits, droplets and misses are known and add up to the chart's combo.
    pub open spec fn combo_hits_settled(self, attributes: FruitsDifficultyAttributes) -> bool {
        &&& self.n_fruits is Some
        &&& self.n_droplets is Some
        &&& or_zero(self.n_fruits) + or_zero(self.n_droplets) + self.n_misses
            == attributes.max_combo
    }

    /// The fruits are known, and the misses alone can account for those of
    /// the chart that were not caught.
    pub open spec fn fruits_settled(self, attributes: FruitsDifficultyAttributes) -> bool {
        &&& self.n_fruits is Some
        &&& or_zero(self.n_fruits) >= sat_sub(attributes.n_fruits as int, self.n_misses as int)
    }

    /// The droplets are known, and the misses alone can account for those of
    /// the chart that were not caught.
    pub open spec fn droplets_settled(self, attributes: FruitsDifficultyAttributes) -> bool {
        &&& self.n_droplets is Some
        &&& or_zero(self.n_droplets) >= sat_sub(
            attributes.n_droplets as int,
            self.n_misses as int,
        )
    }

    /// The tiny droplets, caught and not, are known and add up to the chart's.
    pub open spec fn tinies_settled(self, attributes: FruitsDifficultyAttributes) -> bool {
        &&& self.n_tiny_droplets is Some
        &&& self.n_tiny_droplet_misses is Some
        &&& or_zero(self.n_tiny_droplets) + or_zero(self.n_tiny_droplet_misses)
            == attributes.n_tiny_droplets
    }

    /// The judgement counts were all given and agree with the chart.
    pub open spec fn hitresults_settled(self, attributes: FruitsDifficultyAttributes) -> bool {
        &&& self.combo_hits_settled(attributes)
        &&& self.fruits_settled(attributes)
        &&& self.droplets_settled(attributes)
        &&& self.tinies_settled(attributes)
    }

    /// The combo objects of the chart that fruits, droplets and misses leave
    /// unaccounted for.
    pub open spec fn missing(self, attributes: FruitsDifficultyAttributes) -> int {
        sat_sub(
            sat_sub(
                sat_sub(attributes.max_combo as int, or_zero(self.n_fruits)),
                or_zero(self.n_droplets),
            ),
            self.n_misses as int,
        )
    }

    /// The part of [`Self::missing`] that the chart's droplets cannot take
    /// up, and that therefore counts as fruits.
    pub open spec fn missing_fruits(self, attributes: FruitsDifficultyAttributes) -> int {
        sat_sub(
            self.missing(attributes),
            sat_sub(attributes.n_droplets as int, or_zero(self.n_droplets)),
        )
    }

    /// The tiny droplets of the chart that are accounted for neither as
    /// caught nor as missed.
    pub open spec fn missing_tinies(self, attributes: FruitsDifficultyAttributes) -> int {
        sat_sub(
            sat_sub(attributes.n_tiny_droplets as int, or_zero(self.n_tiny_droplets)),
            or_zero(self.n_tiny_droplet_misses),
        )
    }

    /// The score with its judgement counts completed against `attributes`.
    ///
    /// What is unaccounted for of the combo goes to the droplets as far as
    /// the chart has droplets left, and to the fruits beyond that; what is
    /// unaccounted for of the tiny droplets counts as caught. Counts that
    /// already reach or exceed the chart's are kept.
    pub open spec fn completed(self, attributes: FruitsDifficultyAttributes) -> FruitsPPInner {
        FruitsPPInner {
            attributes,
            mods: self.mods,
            combo: self.combo,
            n_fruits: (or_zero(self.n_fruits) + self.missing_fruits(attributes)) as usize,
            n_droplets: (or_zero(self.n_droplets) + self.missing(attributes)
                - self.missing_fruits(attributes)) as usize,
            n_tiny_droplets: (or_zero(self.n_tiny_droplets) + self.missing_tinies(
                attributes,
            )) as usize,
            n_tiny_droplet_misses: or_zero(self.n_tiny_droplet_misses) as usize,
            n_misses: self.n_misses,
        }
    }

    /// The score after its judgement counts were derived from the accuracy
    /// `acc`, in hundredths of a percent.
    ///
    /// Droplets that were not given are those of the chart less the misses;
    /// fruits that were not given are the rest of the combo. Tiny droplets
    /// that were not given fill up the number of caught objects that `acc`
    /// asks for, and the tiny droplets of the chart beyond them are misses.
    pub open spec fn with_accuracy(self, acc: u32) -> FruitsPP {
        let a = self.attributes;
        let target = target_hits(acc, a.total_objects());
        let target = if target > usize::MAX {
            usize::MAX as int
        } else {
            target
        };
        let d = match self.n_droplets {
            Some(d) => d as int,
            None => sat_sub(a.n_droplets as int, self.n_misses as int),
        };
        let f = match self.n_fruits {
            Some(f) => f as int,
            None => sat_sub(sat_sub(a.max_combo as int, self.n_misses as int), d),
        };
        let t = match self.n_tiny_droplets {
            Some(t) => t as int,
            None => sat_sub(sat_sub(target, f), d),
        };
        FruitsPP {
            n_fruits: Some(f as usize),
            n_droplets: Some(d as usize),
            n_tiny_droplets: Some(t as usize),
            n_tiny_droplet_misses: Some(sat_sub(a.n_tiny_droplets as int, t) as usize),
            ..self
        }
    }

    /// Create a new performance calculator for a chart with the given
    /// attributes: a score without mods, misses or any known count.
    pub fn new(attributes: FruitsDifficultyAttributes) -> (r: Self)
        ensures
            r == (FruitsPP {
                attributes,
                mods: 0,
                combo: None,
                n_fruits: None,
                n_droplets: None,
                n_tiny_droplets: None,
                n_tiny_droplet_misses: None,
                n_misses: 0,
                passed_objects: None,
            }),
    {
        FruitsPP {
            attributes,
            mods: 0,
            combo: None,
            n_fruits: None,
            n_droplets: None,
            n_tiny_droplets: None,
            n_tiny_droplet_misses: None,
            n_misses: 0,
            passed_objects: None,
        }
    }

    /// Complete the judgement counts against `attributes`.
    ///
    /// Counts that were all given and agree with the chart come back as they
    /// are; otherwise the shortfall is distributed as [`Self::completed`] says.
    pub fn assert_hitresults(self, attributes: FruitsDifficultyAttributes) -> (r: FruitsPPInner)
        ensures
            r == self.completed(attributes),
            self.hitresults_settled(attributes) ==> {
                &&& r.n_fruits == or_zero(self.n_fruits)
                &&& r.n_droplets == or_zero(self.n_droplets)
                &&& r.n_tiny_droplets == or_zero(self.n_tiny_droplets)
                &&& r.n_tiny_droplet_misses == or_zero(self.n_tiny_droplet_misses)
            },
    {
        let n_fruits: usize = self.n_fruits.unwrap_or(0);
        let n_droplets: usize = self.n_droplets.unwrap_or(0);
        let n_tiny_droplets: usize = self.n_tiny_droplets.unwrap_or(0);
        let n_tiny_droplet_misses: usize = self.n_tiny_droplet_misses.unwrap_or(0);

        let missing: usize = attributes.max_combo.saturating_sub(n_fruits).saturating_sub(
            n_droplets,
        ).saturating_sub(self.n_misses);
        let missing_fruits: usize = missing.saturating_sub(
            attributes.n_droplets.saturating_sub(n_droplets),
        );
        let missing_tinies: usize = attributes.n_tiny_droplets.saturating_sub(
            n_tiny_droplets,
        ).saturating_sub(n_tiny_droplet_misses);

        FruitsPPInner {
            attributes,
            mods: self.mods,
            combo: self.combo,
            n_fruits: n_fruits + missing_fruits,
            n_droplets: n_droplets + (missing - missing_fruits),
            n_tiny_droplets: n_tiny_droplets + missing_tinies,
            n_tiny_droplet_misses,
            n_misses: self.n_misses,
        }
    }

    /// Provide the result of a previous difficulty or performance
    /// calculation for the chart under the same mods. Where `attributes`
    /// holds none for a fruit-catching chart, nothing changes.
    pub fn attributes<P: FruitsAttributeProvider>(self, attributes: P) -> (r: Self)
        ensures
            r == match attributes.provided() {
                Some(provided) => (FruitsPP { attributes: provided, ..self }),
                None => self,
            },
    {
        match attributes.attributes() {
            Some(provided) => FruitsPP { attributes: provided, ..self },
            None => self,
        }
    }

    /// Specify mods through their bit values.
    pub fn mods(self, mods: u32) -> (r: Self)
        ensures
            r == (FruitsPP { mods, ..self }),
    {
        FruitsPP { mods, ..self }
    }

    /// Specify the max combo of the play.
    pub fn combo(self, combo: usize) -> (r: Self)
        ensures
            r == (FruitsPP { combo: Some(combo), ..self }),
    {
        FruitsPP { combo: Some(combo), ..self }
    }

    /// Specify the amount of fruits of a play.
    pub fn fruits(self, n_fruits: usize) -> (r: Self)
        ensures
            r == (FruitsPP { n_fruits: Some(n_fruits), ..self }),
    {
        FruitsPP { n_fruits: Some(n_fruits), ..self }
    }

    /// Specify the amount of droplets of a play.
    pub fn droplets(self, n_droplets: usize) -> (r: Self)
        ensures
            r == (FruitsPP { n_droplets: Some(n_droplets), ..self }),
    {
        FruitsPP { n_droplets: Some(n_droplets), ..self }
    }

    /// Specify the amount of tiny droplets of a play.
    pub fn tiny_droplets(self, n_tiny_droplets: usize) -> (r: Self)
        ensures
            r == (FruitsPP { n_tiny_droplets: Some(n_tiny_droplets), ..self }),
    {
        FruitsPP { n_tiny_droplets: Some(n_tiny_droplets), ..self }
    }

    /// Specify the amount of tiny droplet misses of a play.
    pub fn tiny_droplet_misses(self, n_tiny_droplet_misses: usize) -> (r: Self)
        ensures
            r == (FruitsPP { n_tiny_droplet_misses: Some(n_tiny_droplet_misses), ..self }),
    {
        FruitsPP { n_tiny_droplet_misses: Some(n_tiny_droplet_misses), ..self }
    }

    /// Specify the amount of fruit and droplet misses of the play.
    pub fn misses(self, n_misses: usize) -> (r: Self)
        ensures
            r == (FruitsPP { n_misses, ..self }),
    {
        FruitsPP { n_misses, ..self }
    }

    /// Amount of passed objects for partial plays, e.g. a fail.
    pub fn passed_objects(self, passed_objects: usize) -> (r: Self)
        ensures
            r == (FruitsPP { passed_objects: Some(passed_objects), ..self }),
    {
        FruitsPP { passed_objects: Some(passed_objects), ..self }
    }

    /// Generate the hit results with respect to the accuracy `acc`, given in
    /// hundredths of a percent between `0` and [`FULL_ACCURACY`].
    ///
    /// Set the misses beforehand, and the attributes of the chart.
    pub fn accuracy(self, acc: u32) -> (r: Self)
        ensures
            r == self.with_accuracy(acc),
    {
        let attributes = self.attributes;
        let n_droplets: usize = match self.n_droplets {
            Some(d) => d,
            None => attributes.n_droplets.saturating_sub(self.n_misses),
        };
        let n_fruits: usize = match self.n_fruits {
            Some(f) => f,
            None => attributes.max_combo.saturating_sub(self.n_misses).saturating_sub(n_droplets),
        };
        let n_tiny_droplets: usize = match self.n_tiny_droplets {
            Some(t) => t,
            None => target_hits_rounded(
                acc,
                attributes.max_combo,
                attributes.n_tiny_droplets,
            ).saturating_sub(n_fruits).saturating_sub(n_droplets),
        };
        let n_tiny_droplet_misses: usize = attributes.n_tiny_droplets.saturating_sub(
            n_tiny_droplets,
        );

        FruitsPP {
            n_fruits: Some(n_fruits),
            n_droplets: Some(n_droplets),
            n_tiny_droplets: Some(n_tiny_droplets),
            n_tiny_droplet_misses: Some(n_tiny_droplet_misses),
            ..self
        }
    }

    /// Calculate all that the point formula reads of the score: the counts
    /// are completed against the attributes of the chart, and the completed
    /// score is reduced as [`FruitsPPInner::calculate`] says.
    ///
    /// The combo scaling never exceeds one, and is one where the score
    /// reached the combo of the chart, where its combo is unknown, and where
    /// the chart has no combo. The accuracy lies between zero and one.
    pub fn calculate(self) -> (r: FruitsPerformanceAttributes)
        requires
            self.completed(self.attributes).counts_fit(),
        ensures
            r == self.completed(self.attributes).rated(),
            r.combo_scaling.is_share(),
            r.accuracy.is_share(),
            (self.combo is None || self.attributes.max_combo == 0 || self.combo->0
                >= self.attributes.max_combo) ==> r.combo_scaling.is_whole(),
    {
        self.assert_hitresults(self.attributes).calculate()
    }
}

/// The number of caught objects that the accuracy `acc`, in hundredths of a
/// percent, asks for on a chart of `max_combo` combo objects and
/// `n_tiny_droplets` tiny droplets: [`target_hits`] of them all, held to the
/// largest count there is.
pub fn target_hits_rounded(acc: u32, max_combo: usize, n_tiny_droplets: usize) -> (r: usize)
    ensures
        r == if target_hits(acc, max_combo + n_tiny_droplets) > usize::MAX {
            usize::MAX as int
        } else {
            target_hits(acc, max_combo + n_tiny_droplets)
        },
{
    let total: u128 = max_combo as u128 + n_tiny_droplets as u128;
    assert(2 * (acc as int) * (total as int) <= 2 * 0xffff_ffff * 0x2_0000_0000_0000_0000)
        by (nonlinear_arith)
        requires
            0 <= acc <= 0xffff_ffff,
            0 <= total <= 0x2_0000_0000_0000_0000,
    ;
    let target: u128 = (2 * (acc as u128) * total + FULL_ACCURACY as u128) / (2
        * FULL_ACCURACY as u128);
    if target > usize::MAX as u128 {
        usize::MAX
    } else {
        target as usize
    }
}

impl FruitsPPInner {
    /// The judgement counts together are a count themselves.
    pub open spec fn counts_fit(self) -> bool {
        self.n_fruits + self.n_droplets + self.n_tiny_droplets + self.n_tiny_droplet_misses
            + self.n_misses <= usize::MAX
    }

    /// The judgements that bear on the combo: fruits, droplets and misses.
    pub open spec fn combo_hits_count(self) -> int {
        self.n_fruits + self.n_droplets + self.n_misses
    }

    /// The objects that were caught.
    pub open spec fn successful_hits_count(self) -> int {
        self.n_fruits + self.n_droplets + self.n_tiny_droplets
    }

    /// The objects that were judged.
    pub open spec fn total_hits_count(self) -> int {
        self.successful_hits_count() + self.n_tiny_droplet_misses + self.n_misses
    }

    /// The share of judged objects that were caught; one where none was judged.
    pub open spec fn accuracy_share(self) -> Ratio {
        if self.total_hits_count() == 0 {
            Ratio { numer: 1, denom: 1 }
        } else {
            Ratio {
                numer: self.successful_hits_count() as usize,
                denom: self.total_hits_count() as usize,
            }
        }
    }

    /// The combo-relevant judgements that the length bonus grows with: those
    /// of the score, or the combo of the chart where the score has none.
    pub open spec fn length_hits(self) -> int {
        if self.combo_hits_count() == 0 {
            self.attributes.max_combo as int
        } else {
            self.combo_hits_count()
        }
    }

    /// The share of the chart's combo that the score reached, held to one.
    /// One where the combo of the score is unknown or the chart has none.
    pub open spec fn combo_share(self) -> Ratio {
        match self.combo {
            Some(combo) if self.attributes.max_combo > 0 => Ratio {
                numer: if combo < self.attributes.max_combo {
                    combo
                } else {
                    self.attributes.max_combo
                },
                denom: self.attributes.max_combo,
            },
            _ => Ratio { numer: 1, denom: 1 },
        }
    }

    /// What the point formula reads of the score.
    pub open spec fn rated(self) -> FruitsPerformanceAttributes {
        FruitsPerformanceAttributes {
            attributes: self.attributes,
            length_hits: self.length_hits() as usize,
            n_misses: self.n_misses,
            combo_scaling: self.combo_share(),
            accuracy: self.accuracy_share(),
            hidden: mods::has(self.mods, mods::HIDDEN),
            flashlight: mods::has(self.mods, mods::FLASHLIGHT),
            no_fail: mods::has(self.mods, mods::NO_FAIL),
        }
    }

    /// Reduce the score to what the point formula reads.
    ///
    /// The combo scaling never exceeds one, and is one where the score
    /// reached the combo of the chart, where its combo is unknown, and where
    /// the chart has no combo. The accuracy lies between zero and one.
    pub fn calculate(self) -> (r: FruitsPerformanceAttributes)
        requires
            self.counts_fit(),
        ensures
            r == self.rated(),
            r.combo_scaling.is_share(),
            r.accuracy.is_share(),
            (self.combo is None || self.attributes.max_combo == 0 || self.combo->0
                >= self.attributes.max_combo) ==> r.combo_scaling.is_whole(),
    {
        let attributes = self.attributes;
        let mut combo_hits: usize = self.combo_hits();

        if combo_hits == 0 {
            combo_hits = attributes.max_combo;
        }

        let combo_scaling = match self.combo {
            Some(combo) => {
                if attributes.max_combo > 0 {
                    Ratio {
                        numer: if combo < attributes.max_combo {
                            combo
                        } else {
                            attributes.max_combo
                        },
                        denom: attributes.max_combo,
                    }
                } else {
                    Ratio::whole()
                }
            },
            None => Ratio::whole(),
        };

        FruitsPerformanceAttributes {
            attributes,
            length_hits: combo_hits,
            n_misses: self.n_misses,
            combo_scaling,
            accuracy: self.acc(),
            hidden: mods::hd(self.mods),
            flashlight: mods::fl(self.mods),
            no_fail: mods::nf(self.mods),
        }
    }

    /// Whether the judgement counts together are a count themselves, as
    /// rating the score takes for granted.
    pub fn check_counts(&self) -> (r: bool)
        ensures
            r == self.counts_fit(),
    {
        let sum: u128 = self.n_fruits as u128 + self.n_droplets as u128
            + self.n_tiny_droplets as u128 + self.n_tiny_droplet_misses as u128
            + self.n_misses as u128;
        sum <= usize::MAX as u128
    }

    /// The judgements that bear on the combo: fruits, droplets and misses.
    pub fn combo_hits(&self) -> (r: usize)
        requires
            self.counts_fit(),
        ensures
            r == self.combo_hits_count(),
    {
        self.n_fruits + self.n_droplets + self.n_misses
    }

    /// The objects that were caught.
    pub fn successful_hits(&self) -> (r: usize)
        requires
            self.counts_fit(),
        ensures
            r == self.successful_hits_count(),
    {
        self.n_fruits + self.n_droplets + self.n_tiny_droplets
    }

    /// The objects that were judged.
    pub fn total_hits(&self) -> (r: usize)
        requires
            self.counts_fit(),
        ensures
            r == self.total_hits_count(),
    {
        self.successful_hits() + self.n_tiny_droplet_misses + self.n_misses
    }

    /// The share of judged objects that were caught, between zero and one;
    /// one where no object was judged.
    pub fn acc(&self) -> (r: Ratio)
        requires
            self.counts_fit(),
        ensures
            r == self.accuracy_share(),
            r.is_share(),
    {
        let total_hits: usize = self.total_hits();

        if total_hits == 0 {
            Ratio::whole()
        } else {
            Ratio { numer: self.successful_hits(), denom: total_hits }
        }
    }
}

/// Abstract type to provide flexibility when passing difficulty attributes to
/// a performance calculation.
pub trait FruitsAttributeProvider: Sized {
    /// The attributes that the value holds for a fruit-catching chart.
    spec fn provided(self) -> Option<FruitsDifficultyAttributes>;

    /// Provide the actual difficulty attributes.
    fn attributes(self) -> (r: Option<FruitsDifficultyAttributes>)
        ensures
            r == self.provided(),
    ;
}

impl FruitsAttributeProvider for FruitsDifficultyAttributes {
    open spec fn provided(self) -> Option<FruitsDifficultyAttributes> {
        Some(self)
    }

    fn attributes(self) -> (r: Option<FruitsDifficultyAttributes>) {
        Some(self)
    }
}

impl FruitsAttributeProvider for FruitsPerformanceAttributes {
    open spec fn provided(self) -> Option<FruitsDifficultyAttributes> {
        Some(self.attributes)
    }

    fn attributes(self) -> (r: Option<FruitsDifficultyAttributes>) {
        Some(self.attributes)
    }
}

impl FruitsAttributeProvider for DifficultyAttributes {
    open spec fn provided(self) -> Option<FruitsDifficultyAttributes> {
        match self {
            DifficultyAttributes::Fruits(attributes) => Some(attributes),
            _ => None,
        }
    }

    fn attributes(self) -> (r: Option<FruitsDifficultyAttributes>) {
        match self {
            DifficultyAttributes::Fruits(attributes) => Some(attributes),
            _ => None,
        }
    }
}

impl FruitsAttributeProvider for PerformanceAttributes {
    open spec fn provided(self) -> Option<FruitsDifficultyAttributes> {
        match self {
            PerformanceAttributes::Fruits(attributes) => Some(attributes.attributes),
            _ => None,
        }
    }

    fn attributes(self) -> (r: Option<FruitsDifficultyAttributes>) {
        match self {
            PerformanceAttributes::Fruits(attributes) => Some(attributes.attributes),
            _ => None,
        }
    }
}

/// Completing a score conserves the counts of the chart exactly where the
/// score does not claim more than the chart holds: fruits, droplets and
/// misses then add up to the chart's combo, and the tiny droplets, caught
/// and not, to the chart's tiny droplets.
pub proof fn completed_conserves_counts(score: FruitsPP, attributes: FruitsDifficultyAttributes)
    ensures
        ({
            let r = score.completed(attributes);
            r.n_fruits + r.n_droplets + r.n_misses == attributes.max_combo
        }) <==> or_zero(score.n_fruits) + or_zero(score.n_droplets) + score.n_misses
            <= attributes.max_combo,
        ({
            let r = score.completed(attributes);
            r.n_tiny_droplets + r.n_tiny_droplet_misses == attributes.n_tiny_droplets
        }) <==> or_zero(score.n_tiny_droplets) + or_zero(score.n_tiny_droplet_misses)
            <= attributes.n_tiny_droplets,
{
}

/// Deriving the counts of a score from an accuracy conserves the counts of
/// the chart: where no count was given, the misses do not exceed the combo,
/// and the accuracy asks for no more caught objects than the misses leave,
/// the score is settled, its fruits, droplets and misses add up to the
/// chart's combo, and its tiny droplets to the chart's.
pub proof fn accuracy_conserves_counts(score: FruitsPP, acc: u32)
    requires
        score.attributes.wf(),
        score.n_fruits is None,
        score.n_droplets is None,
        score.n_tiny_droplets is None,
        score.n_misses <= score.attributes.max_combo,
        target_hits(acc, score.attributes.total_objects()) <= score.attributes.total_objects()
            - score.n_misses,
    ensures
        ({
            let r = score.with_accuracy(acc);
            &&& r.hitresults_settled(score.attributes)
            &&& or_zero(r.n_fruits) + or_zero(r.n_droplets) + r.n_misses
                == score.attributes.max_combo
            &&& or_zero(r.n_tiny_droplets) + or_zero(r.n_tiny_droplet_misses)
                == score.attributes.n_tiny_droplets
        }),
{
}

/// An accuracy of at most one hundred percent never asks for more caught
/// objects than are judged.
pub proof fn target_hits_bounded(acc: u32, total: int)
    requires
        acc <= FULL_ACCURACY,
        0 <= total,
    ensures
        0 <= target_hits(acc, total) <= total,
{
    let doubled = 2 * (acc as int) * total;
    assert(0 <= doubled <= 20_000 * total) by (nonlinear_arith)
        requires
            doubled == 2 * (acc as int) * total,
            0 <= acc <= 10_000,
            0 <= total,
    ;
    assert(target_hits(acc, total) == (doubled + 10_000) / 20_000);
}

/// Accuracy round trip: a score without misses whose counts are derived from
/// an accuracy of at most one hundred percent, and of at least the share that
/// the combo objects make up, has an accuracy within half an object of the
/// one asked for; on a chart of fifty judged objects or more, that is within
/// one percentage point.
pub proof fn accuracy_round_trip(score: FruitsPP, acc: u32)
    requires
        score.attributes.wf(),
        score.attributes.total_objects() > 0,
        score.n_fruits is None,
        score.n_droplets is None,
        score.n_tiny_droplets is None,
        score.n_misses == 0,
        acc <= FULL_ACCURACY,
        target_hits(acc, score.attributes.total_objects()) >= score.attributes.max_combo,
    ensures
        ({
            let share = score.with_accuracy(acc).completed(score.attributes).accuracy_share();
            &&& share.is_share()
            &&& share.numer == target_hits(acc, score.attributes.total_objects())
            &&& share.denom == score.attributes.total_objects()
            &&& -FULL_ACCURACY <= 2 * (FULL_ACCURACY * share.numer - acc * share.denom)
                <= FULL_ACCURACY
            &&& share.denom >= 50 ==> -(FULL_ACCURACY * share.denom) <= 100 * (FULL_ACCURACY
                * share.numer - acc * share.denom) <= FULL_ACCURACY * share.denom
        }),
{
    let total = score.attributes.total_objects();
    let product = (acc as int) * total;
    target_hits_bounded(acc, total);
    accuracy_conserves_counts(score, acc);
    let target = target_hits(acc, total);
    assert(target == (2 * product + 10_000) / 20_000) by (nonlinear_arith)
        requires
            target == (2 * (acc as int) * total + 10_000) / 20_000,
            product == (acc as int) * total,
    ;
    let share = score.with_accuracy(acc).completed(score.attributes).accuracy_share();
    assert(share.numer == target);
    assert(share.denom == total);
    assert((acc as int) * share.denom == product);
}

/// Combo scaling bound: the share of the chart's combo that a score is
/// scaled by never exceeds one, and is one where the score reached the combo
/// of the chart, where its combo is unknown, and where the chart has no
/// combo.
pub proof fn combo_scaling_bounded(score: FruitsPPInner)
    ensures
        score.combo_share().is_share(),
        (score.combo is None || score.attributes.max_combo == 0 || score.combo->0
            >= score.attributes.max_combo) ==> score.combo_share().is_whole(),
        score.combo_share().is_whole() ==> score.combo is None || score.attributes.max_combo
            == 0 || score.combo->0 >= score.attributes.max_combo,
{
}

} // verus!
