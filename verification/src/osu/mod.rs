//! Charts of circles, sliders and spinners.
//!
//! The objects of a chart are cut to those that were played, stacked by the
//! rule of the chart's format, and moved aside by their stack heights. What
//! comes out is what the skills are fed with, in order of time.

use vstd::prelude::*;
use vstd::std_specs::convert::FromSpecImpl;
use crate::osu::osu_object::OsuObject;
use crate::osu::sections::{section_length, section_length_of};
use crate::osu::stacking::{
    apart_objects_stay,
    legacy_heights,
    modern_heights,
    no_coincidence,
    old_stacking,
    stacking,
    with_heights,
};

pub mod osu_object;
pub mod sections;
pub mod stacking;

verus! {

/// The first version of the chart format that is stacked by the newer rule.
pub const MODERN_STACKING_VERSION: u8 = 6;

/// A chart, as far as its objects are concerned.
#[derive(Clone, Debug)]
pub struct Beatmap {
    /// The version of the format that the chart was written in.
    pub version: u8,
    /// The amount of circles.
    pub n_circles: u32,
    /// The amount of sliders.
    pub n_sliders: u32,
    /// The amount of spinners.
    pub n_spinners: u32,
    /// The objects of the chart, in order of time.
    pub hit_objects: Vec<OsuObject>,
}

/// What a difficulty calculation knows of a chart in counts.
#[derive(Clone, Copy, Debug, PartialEq, Eq, Structural)]
pub struct OsuDifficultyAttributes {
    /// The amount of circles.
    pub n_circles: usize,
    /// The amount of sliders.
    pub n_sliders: usize,
    /// The amount of spinners.
    pub n_spinners: usize,
    /// The maximum combo.
    pub max_combo: usize,
}

/// The integral side of a score's rating on such a chart.
#[derive(Clone, Copy, Debug, PartialEq, Eq, Structural)]
pub struct OsuPerformanceAttributes {
    /// The difficulty attributes that were used for the performance calculation.
    pub difficulty: OsuDifficultyAttributes,
}

impl Default for OsuDifficultyAttributes {
    fn default() -> (r: Self)
        ensures
            r == (OsuDifficultyAttributes {
                n_circles: 0,
                n_sliders: 0,
                n_spinners: 0,
                max_combo: 0,
            }),
    {
        OsuDifficultyAttributes { n_circles: 0, n_sliders: 0, n_spinners: 0, max_combo: 0 }
    }
}

impl OsuPerformanceAttributes {
    /// Return the maximum combo of the map.
    pub fn max_combo(&self) -> (r: usize)
        ensures
            r == self.difficulty.max_combo,
    {
        self.difficulty.max_combo
    }
}

impl From<OsuPerformanceAttributes> for OsuDifficultyAttributes {
    fn from(attributes: OsuPerformanceAttributes) -> (r: Self) {
        attributes.difficulty
    }
}

impl FromSpecImpl<OsuPerformanceAttributes> for OsuDifficultyAttributes {
    open spec fn obeys_from_spec() -> bool {
        true
    }

    open spec fn from_spec(attributes: OsuPerformanceAttributes) -> Self {
        attributes.difficulty
    }
}

/// The number of objects, of `len`, that count as played: all of them, or
/// the first `passed_objects` where the play stopped early.
pub open spec fn taken(len: nat, passed_objects: Option<usize>) -> nat {
    match passed_objects {
        Some(passed) if passed < len => passed as nat,
        _ => len,
    }
}

/// A chart of which fewer than two objects were played has no difficulty.
pub open spec fn degenerate(len: nat, passed_objects: Option<usize>) -> bool {
    taken(len, passed_objects) < 2
}

/// The objects `objs`, stacked by the rule that the format `version` asks for.
pub open spec fn stacked(objs: Seq<OsuObject>, version: u8, threshold: i64) -> Seq<OsuObject> {
    if version >= MODERN_STACKING_VERSION {
        with_heights(objs, modern_heights(objs, threshold))
    } else {
        with_heights(objs, legacy_heights(objs, threshold))
    }
}

/// The objects `objs`, each moved from where it starts by its stack height
/// in steps of `offset`.
pub open spec fn placed(objs: Seq<OsuObject>, offset: i32) -> Seq<OsuObject> {
    Seq::new(
        objs.len(),
        |k: int| OsuObject { pos: objs[k].pos.shifted(objs[k].stack_height, offset), ..objs[k] },
    )
}

/// The objects that the skills of the chart are fed with, or `None` where
/// fewer than two objects were played.
///
/// The objects are cut to those that were played, then stacked, with
/// `stack_threshold` the time within which objects stack, and then moved by
/// their stack heights in steps of `stack_offset`.
pub fn prepare_objects(
    map: &Beatmap,
    passed_objects: Option<usize>,
    stack_threshold: i64,
    stack_offset: i32,
) -> (r: Option<Vec<OsuObject>>)
    ensures
        r is None <==> degenerate(map.hit_objects@.len(), passed_objects),
        r matches Some(objects) ==> objects@ == placed(
            stacked(
                map.hit_objects@.take(taken(map.hit_objects@.len(), passed_objects) as int),
                map.version,
                stack_threshold,
            ),
            stack_offset,
        ),
{
    let len = map.hit_objects.len();
    let take: usize = match passed_objects {
        Some(passed) => if passed < len {
            passed
        } else {
            len
        },
        None => len,
    };

    if take < 2 {
        return None;
    }
    let mut hit_objects: Vec<OsuObject> = Vec::with_capacity(take);
    let mut k: usize = 0;

    while k < take
        invariant
            k <= take <= map.hit_objects.len(),
            hit_objects@ == map.hit_objects@.take(k as int),
        decreases take - k,
    {
        hit_objects.push(map.hit_objects[k]);
        assert(hit_objects@ =~= map.hit_objects@.take(k + 1));
        k += 1;
    }

    if map.version >= MODERN_STACKING_VERSION {
        stacking(&mut hit_objects, stack_threshold);
    } else {
        old_stacking(&mut hit_objects, stack_threshold);
    }
    let ghost piled = hit_objects@;
    let mut k: usize = 0;

    while k < take
        invariant
            k <= take,
            take == piled.len(),
            hit_objects@.len() == take,
            forall|m: int| 0 <= m < k ==> hit_objects@[m] == placed(piled, stack_offset)[m],
            forall|m: int| k <= m < take ==> hit_objects@[m] == piled[m],
        decreases take - k,
    {
        let mut object = hit_objects[k];
        object.pos = object.pos.shift(object.stack_height, stack_offset);
        hit_objects.set(k, object);
        k += 1;
    }
    assert(hit_objects@ =~= placed(piled, stack_offset));

    Some(hit_objects)
}

/// The counts of the chart's difficulty: those of the chart with the combo
/// `max_combo` of the objects that were played, or nothing but zeros where
/// fewer than two objects were played.
pub fn difficulty_counts(map: &Beatmap, passed_objects: Option<usize>, max_combo: usize) -> (r:
    OsuDifficultyAttributes)
    ensures
        degenerate(map.hit_objects@.len(), passed_objects) ==> r == (OsuDifficultyAttributes {
            n_circles: 0,
            n_sliders: 0,
            n_spinners: 0,
            max_combo: 0,
        }),
        !degenerate(map.hit_objects@.len(), passed_objects) ==> r == (OsuDifficultyAttributes {
            n_circles: map.n_circles as usize,
            n_sliders: map.n_sliders as usize,
            n_spinners: map.n_spinners as usize,
            max_combo,
        }),
{
    let len = map.hit_objects.len();
    let few = match passed_objects {
        Some(passed) => passed < 2 || len < 2,
        None => len < 2,
    };

    if few {
        OsuDifficultyAttributes::default()
    } else {
        OsuDifficultyAttributes {
            n_circles: map.n_circles as usize,
            n_sliders: map.n_sliders as usize,
            n_spinners: map.n_spinners as usize,
            max_combo,
        }
    }
}

/// Stacking leaves a chart without coincidences alone: where no object
/// starts on the start or the end of an earlier one and none has a stack
/// height yet, every object comes out with a stack height of zero, at the
/// position it had, whatever the format, the threshold and the offset.
pub proof fn apart_objects_unmoved(
    objs: Seq<OsuObject>,
    version: u8,
    threshold: i64,
    offset: i32,
)
    requires
        no_coincidence(objs),
        forall|k: int| 0 <= k < objs.len() ==> (#[trigger] objs[k]).stack_height == 0,
    ensures
        placed(stacked(objs, version, threshold), offset) == objs,
        forall|k: int|
            0 <= k < objs.len() ==> (#[trigger] stacked(objs, version, threshold)[k]).stack_height
                == 0,
{
    apart_objects_stay(objs, threshold);
    assert forall|k: int| 0 <= k < objs.len() implies #[trigger] placed(objs, offset)[k]
        == objs[k] by {
        assert(objs[k].stack_height == 0);
        assert(0 * offset == 0);
    }
    assert(placed(objs, offset) =~= objs);
}

/// The peaks of the skills of a chart, one of each skill for each section,
/// in whole units of strain.
#[derive(Clone, Debug)]
pub struct SkillPeaks {
    /// The peaks of the aim skill.
    pub aim: Vec<u64>,
    /// The peaks of the speed skill, where it was followed.
    pub speed: Option<Vec<u64>>,
    /// The peaks of the flashlight skill, where it was followed.
    pub flashlight: Option<Vec<u64>>,
}

/// The strain of a chart over time.
#[derive(Clone, Debug)]
pub struct Strains {
    /// The time between two strains, in ticks of the chart.
    pub section_length: i64,
    /// The strain of each section, all skills together.
    pub strains: Vec<u64>,
}

/// The strain `v`, held to what a strain can be.
pub open spec fn clamp_strain(v: int) -> u64 {
    if v > u64::MAX {
        u64::MAX
    } else {
        v as u64
    }
}

impl SkillPeaks {
    /// What the skills other than aim add to the strain of the section `k`:
    /// the peaks of those that were followed, as far as each of them has a
    /// peak for that section.
    pub open spec fn added(self, k: int) -> int {
        match (self.speed, self.flashlight) {
            (Some(speed), Some(flashlight)) => if k < speed@.len() && k < flashlight@.len() {
                speed@[k] + flashlight@[k]
            } else {
                0
            },
            (Some(speed), None) => if k < speed@.len() {
                speed@[k] as int
            } else {
                0
            },
            (None, Some(flashlight)) => if k < flashlight@.len() {
                flashlight@[k] as int
            } else {
                0
            },
            (None, None) => 0,
        }
    }

    /// The strain of each section that aim has a peak for, all skills
    /// together.
    pub open spec fn combined(self) -> Seq<u64> {
        Seq::new(self.aim@.len(), |k: int| clamp_strain(self.aim@[k] + self.added(k)))
    }
}

/// Add to each of the first peaks of `aim` the peak of `other` for the same
/// section, as far as both reach.
fn add_peaks(aim: &mut Vec<u64>, other: &Vec<u64>)
    ensures
        final(aim)@.len() == old(aim)@.len(),
        forall|k: int|
            0 <= k < old(aim)@.len() ==> final(aim)@[k] == if k < other@.len() {
                clamp_strain(old(aim)@[k] + other@[k])
            } else {
                old(aim)@[k]
            },
{
    let len = if aim.len() < other.len() {
        aim.len()
    } else {
        other.len()
    };
    let mut k: usize = 0;

    while k < len
        invariant
            k <= len,
            len <= other@.len(),
            len <= aim@.len(),
            aim@.len() == old(aim)@.len(),
            forall|m: int| 0 <= m < k ==> aim@[m] == clamp_strain(old(aim)@[m] + other@[m]),
            forall|m: int| k <= m < aim@.len() ==> aim@[m] == old(aim)@[m],
        decreases len - k,
    {
        let sum = aim[k].saturating_add(other[k]);
        aim.set(k, sum);
        k += 1;
    }
}

/// The strain of a chart over time, from the peaks of its skills: for each
/// section, the peaks of all skills together. A chart without skills, one of
/// which fewer than two objects were played, has no strains.
///
/// Suitable to plot the difficulty of a map over time.
pub fn strains(skills: Option<SkillPeaks>, mods: u32) -> (r: Strains)
    ensures
        match skills {
            Some(skills) => r.section_length == section_length_of(mods) && r.strains@
                == skills.combined(),
            None => r.section_length == 0 && r.strains@.len() == 0,
        },
{
    let skills = match skills {
        Some(skills) => skills,
        None => return Strains { section_length: 0, strains: Vec::new() },
    };
    let ghost given = skills;
    let mut aim = skills.aim;

    match (skills.speed, skills.flashlight) {
        (Some(speed), Some(flashlight)) => {
            let len = if speed.len() < flashlight.len() {
                speed.len()
            } else {
                flashlight.len()
            };
            let len = if aim.len() < len {
                aim.len()
            } else {
                len
            };
            let mut k: usize = 0;

            while k < len
                invariant
                    k <= len,
                    len <= speed@.len(),
                    len <= flashlight@.len(),
                    len <= aim@.len(),
                    aim@.len() == given.aim@.len(),
                    forall|m: int|
                        0 <= m < k ==> aim@[m] == clamp_strain(
                            given.aim@[m] + speed@[m] + flashlight@[m],
                        ),
                    forall|m: int| k <= m < aim@.len() ==> aim@[m] == given.aim@[m],
                decreases len - k,
            {
                let sum = aim[k].saturating_add(speed[k].saturating_add(flashlight[k]));
                aim.set(k, sum);
                k += 1;
            }
            assert(aim@ =~= given.combined());
        },
        (Some(speed), None) => {
            add_peaks(&mut aim, &speed);
            assert(aim@ =~= given.combined());
        },
        (None, Some(flashlight)) => {
            add_peaks(&mut aim, &flashlight);
            assert(aim@ =~= given.combined());
        },
        (None, None) => {
            assert(aim@ =~= given.combined());
        },
    }

    Strains { section_length: section_length(mods), strains: aim }
}

} // verus!
