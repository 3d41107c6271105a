//! The sections of a chart's timeline.
//!
//! Strain is followed section by section. Sections are of one length and
//! lie side by side, each ending on a multiple of that length; the peak of a
//! section is saved when an object is met that starts after the section's
//! end. [`Sections`] keeps count of where the timeline stands and of the
//! peaks that were saved, while the caller feeds the skills.

use vstd::prelude::*;
use crate::mods;

verus! {

/// The length of a section at the chart's own speed, in ticks.
pub const SECTION_LEN: i64 = 400;

/// The length of a section in ticks of the chart, under `mods`:
/// [`SECTION_LEN`] times the speed at which the chart runs.
pub open spec fn section_length_of(mods: u32) -> i64 {
    (SECTION_LEN * mods::clock_rate_of(mods).numer / (mods::clock_rate_of(mods).denom as int))
        as i64
}

/// The number of the first section, of length `length`, that does not end
/// before `time`: `time / length`, rounded up.
pub open spec fn section_of(time: i64, length: i64) -> int {
    -((-time) / (length as int))
}

/// The length of a section in ticks of the chart, under `mods`: 600, 300
/// or 400 ticks, as the chart runs faster, slower or at its own speed.
pub fn section_length(mods: u32) -> (r: i64)
    ensures
        r == section_length_of(mods),
        r == 300 || r == 400 || r == 600,
{
    let rate = mods::clock_rate(mods);
    assert(rate.numer == 3 && rate.denom == 2 || rate.numer == 3 && rate.denom == 4 || rate.numer
        == 1 && rate.denom == 1);
    SECTION_LEN * (rate.numer as i64) / (rate.denom as i64)
}

/// The number of the section that `time` falls in. It is the least number
/// whose section does not end before `time`.
fn section_index(time: i64, length: i64) -> (r: i64)
    requires
        length == 300 || length == 400 || length == 600,
    ensures
        r == section_of(time, length),
        r * length >= time,
        (r - 1) * length < time,
        -0x100_0000_0000_0000 <= r <= 0x100_0000_0000_0000,
{
    let wide: i128 = time as i128;
    let len: i128 = length as i128;

    if wide >= 0 {
        let index: i128 = (wide + (len - 1)) / len;
        proof {
            if length == 300 {
                assert(index == -((-wide) / 300));
            } else if length == 400 {
                assert(index == -((-wide) / 400));
            } else {
                assert(index == -((-wide) / 600));
            }
        }
        index as i64
    } else {
        let index: i128 = 0 - (0 - wide) / len;
        proof {
            if length == 300 {
                assert(index == -((-wide) / 300));
            } else if length == 400 {
                assert(index == -((-wide) / 400));
            } else {
                assert(index == -((-wide) / 600));
            }
        }
        index as i64
    }
}

/// What meeting an object did to the sections.
#[derive(Clone, Copy, Debug, PartialEq, Eq, Structural)]
pub enum Crossing {
    /// So many sections ended before any strain was there to be saved: each
    /// is begun anew and no peak is kept.
    Skipped(u64),
    /// So many sections ended: the peak of each is saved, in order, and a
    /// new section begun after it.
    Saved(u64),
}

/// Where the timeline of a chart stands, section by section.
#[derive(Clone, Copy, Debug, PartialEq, Eq, Structural)]
pub struct Sections {
    /// The length of a section, in ticks of the chart.
    pub length: i64,
    /// The number of the section that the timeline stands in.
    pub current: i64,
    /// The number of the section in which the second object was met, once
    /// it was met: peaks are saved from then on.
    pub counted_from: Option<i64>,
}

impl Sections {
    /// Sections are of one of the three lengths that the mods give, and
    /// their numbers leave room to count between them.
    pub open spec fn wf(self) -> bool {
        &&& self.length == 300 || self.length == 400 || self.length == 600
        &&& -0x100_0000_0000_0000 <= self.current <= 0x100_0000_0000_0000
        &&& self.counted_from matches Some(from) ==> -0x100_0000_0000_0000 <= from
            <= self.current
    }

    /// The time at which the section that the timeline stands in ends.
    pub open spec fn section_end(self) -> int {
        self.current * self.length
    }

    /// The peaks that were saved so far: one for each section that ended
    /// since the second object was met.
    pub open spec fn saved_peaks(self) -> int {
        match self.counted_from {
            Some(from) => self.current - from,
            None => 0,
        }
    }

    /// The number of the section that the timeline stands in once an object
    /// at `time` was met: the one it stood in, or the first that does not end
    /// before `time`, whichever is later.
    pub open spec fn section_after(self, time: i64) -> int {
        if section_of(time, self.length) > self.current {
            section_of(time, self.length)
        } else {
            self.current as int
        }
    }

    /// The sections of a chart under `mods` whose first object starts at
    /// `first_time`. The timeline stands in the section of that object, which
    /// ends on the first multiple of the section length not before it.
    pub fn new(first_time: i64, mods: u32) -> (r: Sections)
        ensures
            r.wf(),
            r.length == section_length_of(mods),
            r.current == section_of(first_time, r.length),
            r.counted_from is None,
            first_time <= r.section_end() < first_time + r.length,
    {
        let length = section_length(mods);
        let current = section_index(first_time, length);
        assert((current - 1) * length == current * length - length) by (nonlinear_arith);

        Sections { length, current, counted_from: None }
    }

    /// Meet the next object, which starts at `time`.
    ///
    /// The timeline moves on to the first section that does not end before
    /// `time`, if it does not stand there or further already. The sections
    /// passed over are counted. Up to the second object of the chart they
    /// are skipped; from then on the peak of each is saved.
    pub fn advance(&mut self, time: i64) -> (r: Crossing)
        requires
            old(self).wf(),
        ensures
            final(self).wf(),
            final(self).length == old(self).length,
            final(self).current == old(self).section_after(time),
            final(self).section_end() >= time,
            final(self).counted_from == match old(self).counted_from {
                Some(from) => Some(from),
                None => Some(final(self).current),
            },
            r == match old(self).counted_from {
                Some(_) => Crossing::Saved((final(self).current - old(self).current) as u64),
                None => Crossing::Skipped((final(self).current - old(self).current) as u64),
            },
    {
        let reached = section_index(time, self.length);
        let crossed: u64 = if reached > self.current {
            let crossed = (reached - self.current) as u64;
            self.current = reached;
            crossed
        } else {
            assert(self.current * self.length >= reached * self.length) by (nonlinear_arith)
                requires
                    self.current >= reached,
                    self.length > 0,
            ;
            0
        };

        match self.counted_from {
            Some(_) => Crossing::Saved(crossed),
            None => {
                self.counted_from = Some(self.current);
                Crossing::Skipped(crossed)
            },
        }
    }

    /// The number of peaks that a skill holds once the last object was met
    /// and the peak of the section it fell in was saved too: one more than
    /// were saved on the way.
    pub fn peaks(&self) -> (r: u64)
        requires
            self.wf(),
        ensures
            r == self.saved_peaks() + 1,
    {
        match self.counted_from {
            Some(from) => (self.current - from) as u64 + 1,
            None => 1,
        }
    }
}

/// Meeting an object never sets the timeline back, and meeting two objects
/// in order of time leaves it where meeting the later one alone would.
pub proof fn sections_follow_time(sections: Sections, earlier: i64, later: i64)
    requires
        sections.wf(),
        earlier <= later,
    ensures
        sections.current <= sections.section_after(earlier) <= sections.section_after(later),
        (Sections { current: sections.section_after(earlier) as i64, ..sections }).section_after(
            later,
        ) == sections.section_after(later),
{
    let length = sections.length;
    if length == 300 {
        assert(-((-earlier) / 300) <= -((-later) / 300));
    } else if length == 400 {
        assert(-((-earlier) / 400) <= -((-later) / 400));
    } else {
        assert(-((-earlier) / 600) <= -((-later) / 600));
    }
}

} // verus!
