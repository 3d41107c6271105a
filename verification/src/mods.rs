//! Gameplay modifiers, held as a set of bit flags.

use vstd::prelude::*;
use crate::ratio::Ratio;

verus! {

/// The play cannot be failed.
pub const NO_FAIL: u32 = 1;

/// Objects are larger and approach more slowly.
pub const EASY: u32 = 2;

/// Objects fade out before they are hit.
pub const HIDDEN: u32 = 8;

/// Objects are smaller, approach faster, and the field is mirrored.
pub const HARD_ROCK: u32 = 16;

/// The chart runs at one and a half times its speed.
pub const DOUBLE_TIME: u32 = 64;

/// Hits need no key press.
pub const RELAX: u32 = 128;

/// The chart runs at three quarters of its speed.
pub const HALF_TIME: u32 = 256;

/// Only the surroundings of the cursor are visible.
pub const FLASHLIGHT: u32 = 1024;

/// Whether the set `mods` holds the modifier `flag`.
pub open spec fn has(mods: u32, flag: u32) -> bool {
    mods & flag != 0
}

/// The speed at which the chart runs under `mods`, as a multiple of its own
/// speed: three halves under [`DOUBLE_TIME`], else three quarters under
/// [`HALF_TIME`], else one.
pub open spec fn clock_rate_of(mods: u32) -> Ratio {
    if has(mods, DOUBLE_TIME) {
        Ratio { numer: 3, denom: 2 }
    } else if has(mods, HALF_TIME) {
        Ratio { numer: 3, denom: 4 }
    } else {
        Ratio { numer: 1, denom: 1 }
    }
}

/// Whether `mods` holds [`NO_FAIL`].
pub fn nf(mods: u32) -> (r: bool)
    ensures
        r == has(mods, NO_FAIL),
{
    mods & NO_FAIL != 0
}

/// Whether `mods` holds [`HIDDEN`].
pub fn hd(mods: u32) -> (r: bool)
    ensures
        r == has(mods, HIDDEN),
{
    mods & HIDDEN != 0
}

/// Whether `mods` holds [`FLASHLIGHT`].
pub fn fl(mods: u32) -> (r: bool)
    ensures
        r == has(mods, FLASHLIGHT),
{
    mods & FLASHLIGHT != 0
}

/// Whether `mods` holds [`DOUBLE_TIME`].
pub fn dt(mods: u32) -> (r: bool)
    ensures
        r == has(mods, DOUBLE_TIME),
{
    mods & DOUBLE_TIME != 0
}

/// Whether `mods` holds [`HALF_TIME`].
pub fn ht(mods: u32) -> (r: bool)
    ensures
        r == has(mods, HALF_TIME),
{
    mods & HALF_TIME != 0
}

/// Whether `mods` holds [`EASY`].
pub fn ez(mods: u32) -> (r: bool)
    ensures
        r == has(mods, EASY),
{
    mods & EASY != 0
}

/// Whether `mods` holds [`HARD_ROCK`].
pub fn hr(mods: u32) -> (r: bool)
    ensures
        r == has(mods, HARD_ROCK),
{
    mods & HARD_ROCK != 0
}

/// Whether `mods` holds [`RELAX`].
pub fn rx(mods: u32) -> (r: bool)
    ensures
        r == has(mods, RELAX),
{
    mods & RELAX != 0
}

/// The speed at which the chart runs under `mods`, as a multiple of its own
/// speed.
pub fn clock_rate(mods: u32) -> (r: Ratio)
    ensures
        r == clock_rate_of(mods),
        r.denom > 0,
{
    if dt(mods) {
        Ratio { numer: 3, denom: 2 }
    } else if ht(mods) {
        Ratio { numer: 3, denom: 4 }
    } else {
        Ratio::whole()
    }
}

} // verus!
