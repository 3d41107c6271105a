//! Hit objects on the integer grid.
//!
//! Positions are held in grid steps, [`GRID_STEPS`] to one unit of the
//! playfield, and times in whole ticks of the chart's clock.

use vstd::prelude::*;

verus! {

/// The grid steps that make up one unit of the playfield.
pub const GRID_STEPS: i64 = 256;

/// The distance, in grid steps, below which two positions coincide: three
/// units of the playfield.
pub const STACK_DISTANCE: i64 = 768;

/// A position on the grid.
#[derive(Clone, Copy, Debug, PartialEq, Eq, Structural)]
pub struct Pos2 {
    /// The horizontal coordinate, in grid steps.
    pub x: i32,
    /// The vertical coordinate, in grid steps.
    pub y: i32,
}

/// What an object is, with what only that sort of object has.
#[derive(Clone, Copy, Debug, PartialEq, Eq, Structural)]
pub enum OsuObjectKind {
    /// A circle: hit at one time, in one place.
    Circle,
    /// A slider: followed from its start to where and when it ends.
    Slider {
        /// The time at which the slider ends.
        end_time: i64,
        /// The position at which the slider ends.
        end_pos: Pos2,
    },
    /// A spinner: held until it ends.
    Spinner {
        /// The time at which the spinner ends.
        end_time: i64,
    },
}

/// A hit object as the difficulty calculation sees it.
#[derive(Clone, Copy, Debug, PartialEq, Eq, Structural)]
pub struct OsuObject {
    /// The time at which the object starts.
    pub time: i64,
    /// The position at which the object starts.
    pub pos: Pos2,
    /// How far the object is moved aside, in steps of the stack offset.
    pub stack_height: i32,
    /// The sort of object.
    pub kind: OsuObjectKind,
}

/// The square of the distance between two positions, in grid steps.
pub open spec fn dist_sq(a: Pos2, b: Pos2) -> int {
    (a.x - b.x) * (a.x - b.x) + (a.y - b.y) * (a.y - b.y)
}

/// Whether two positions coincide: they are less than [`STACK_DISTANCE`]
/// apart.
pub open spec fn near(a: Pos2, b: Pos2) -> bool {
    dist_sq(a, b) < STACK_DISTANCE * STACK_DISTANCE
}

/// The number `v`, held to the 32 bits of a coordinate or a stack height.
pub open spec fn clamped(v: int) -> i32 {
    if v < i32::MIN {
        i32::MIN
    } else if v > i32::MAX {
        i32::MAX
    } else {
        v as i32
    }
}

impl Pos2 {
    /// Whether the position coincides with `other`.
    pub fn is_near(self, other: Pos2) -> (r: bool)
        ensures
            r == near(self, other),
    {
        let dx: i128 = self.x as i128 - other.x as i128;
        let dy: i128 = self.y as i128 - other.y as i128;
        assert(0 <= dx * dx <= 0x1_0000_0000 * 0x1_0000_0000) by (nonlinear_arith)
            requires
                -0x1_0000_0000 <= dx <= 0x1_0000_0000,
        ;
        assert(0 <= dy * dy <= 0x1_0000_0000 * 0x1_0000_0000) by (nonlinear_arith)
            requires
                -0x1_0000_0000 <= dy <= 0x1_0000_0000,
        ;
        assert(STACK_DISTANCE * STACK_DISTANCE == 589_824);
        dx * dx + dy * dy < 589_824
    }

    /// The position moved by `height` steps of `offset` along both axes,
    /// held to the grid.
    pub open spec fn shifted(self, height: i32, offset: i32) -> Pos2 {
        Pos2 {
            x: clamped(self.x + height * offset),
            y: clamped(self.y + height * offset),
        }
    }

    /// Move the position by `height` steps of `offset` along both axes. A
    /// height of zero leaves it where it is.
    pub fn shift(self, height: i32, offset: i32) -> (r: Pos2)
        ensures
            r == self.shifted(height, offset),
            height == 0 ==> r == self,
    {
        assert(-0x4000_0000_0000_0000 <= height * offset <= 0x4000_0000_0000_0000)
            by (nonlinear_arith)
            requires
                -0x8000_0000 <= height <= 0x8000_0000,
                -0x8000_0000 <= offset <= 0x8000_0000,
        ;
        let by: i64 = (height as i64) * (offset as i64);
        Pos2 { x: clamp(self.x as i64 + by), y: clamp(self.y as i64 + by) }
    }
}

/// The number `v`, held to the 32 bits of a coordinate or a stack height.
pub fn clamp(v: i64) -> (r: i32)
    ensures
        r == clamped(v as int),
{
    if v < i32::MIN as i64 {
        i32::MIN
    } else if v > i32::MAX as i64 {
        i32::MAX
    } else {
        v as i32
    }
}

impl OsuObject {
    /// Whether the object is a circle.
    pub open spec fn circle(self) -> bool {
        self.kind is Circle
    }

    /// Whether the object is a slider.
    pub open spec fn slider(self) -> bool {
        self.kind is Slider
    }

    /// Whether the object is a spinner.
    pub open spec fn spinner(self) -> bool {
        self.kind is Spinner
    }

    /// The time at which the object ends: for a circle, when it starts.
    pub open spec fn ends_at(self) -> i64 {
        match self.kind {
            OsuObjectKind::Circle => self.time,
            OsuObjectKind::Slider { end_time, .. } => end_time,
            OsuObjectKind::Spinner { end_time } => end_time,
        }
    }

    /// The position at which the object ends: for all but a slider, where
    /// it starts.
    pub open spec fn ends_on(self) -> Pos2 {
        match self.kind {
            OsuObjectKind::Slider { end_pos, .. } => end_pos,
            _ => self.pos,
        }
    }

    /// The object with the stack height `height`, all else as it is.
    pub open spec fn at_height(self, height: i32) -> OsuObject {
        OsuObject { stack_height: height, ..self }
    }

    /// Whether the object is a circle.
    pub fn is_circle(&self) -> (r: bool)
        ensures
            r == self.circle(),
    {
        matches!(self.kind, OsuObjectKind::Circle)
    }

    /// Whether the object is a slider.
    pub fn is_slider(&self) -> (r: bool)
        ensures
            r == self.slider(),
    {
        matches!(self.kind, OsuObjectKind::Slider { .. })
    }

    /// Whether the object is a spinner.
    pub fn is_spinner(&self) -> (r: bool)
        ensures
            r == self.spinner(),
    {
        matches!(self.kind, OsuObjectKind::Spinner { .. })
    }

    /// The time at which the object ends.
    pub fn end_time(&self) -> (r: i64)
        ensures
            r == self.ends_at(),
    {
        match self.kind {
            OsuObjectKind::Circle => self.time,
            OsuObjectKind::Slider { end_time, .. } => end_time,
            OsuObjectKind::Spinner { end_time } => end_time,
        }
    }

    /// The position at which the object ends.
    pub fn end_pos(&self) -> (r: Pos2)
        ensures
            r == self.ends_on(),
    {
        match self.kind {
            OsuObjectKind::Slider { end_pos, .. } => end_pos,
            _ => self.pos,
        }
    }
}

} // verus!
