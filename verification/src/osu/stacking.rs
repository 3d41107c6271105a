//! Stacking: objects that follow one another closely in one place are moved
//! aside, step by step, so that each stays visible.
//!
//! Two rules exist. Which one a chart is read by depends on the version of
//! its format. Both only ever change stack heights; when, where and what an
//! object is stays as it was. Heights are held to 32 bits.

use vstd::prelude::*;
use crate::osu::osu_object::{clamped, clamp, near, OsuObject};

verus! {

/// The stack heights of `objs`, in order.
pub open spec fn heights_of(objs: Seq<OsuObject>) -> Seq<i32> {
    Seq::new(objs.len(), |k: int| objs[k].stack_height)
}

/// The objects `objs`, each at the height that `heights` gives it.
pub open spec fn with_heights(objs: Seq<OsuObject>, heights: Seq<i32>) -> Seq<OsuObject> {
    Seq::new(objs.len(), |k: int| objs[k].at_height(heights[k]))
}

/// The older rule, for one anchor `i`, from the follower `j` on.
///
/// `chain_end` is the time at which the last object stacked so far ends, and
/// `slider_stack` the number of followers found on the anchor's end. A
/// follower that starts more than `threshold` after `chain_end` ends the
/// scan. One that starts on the anchor's start raises the anchor by one; one
/// that starts on the anchor's end is lowered by the number of such
/// followers up to and including itself.
pub open spec fn legacy_scan(
    objs: Seq<OsuObject>,
    heights: Seq<i32>,
    i: int,
    j: int,
    chain_end: i64,
    slider_stack: i32,
    threshold: i64,
) -> Seq<i32>
    decreases objs.len() - j,
{
    if !(0 <= i < j < objs.len()) || objs[j].time - chain_end > threshold {
        heights
    } else if near(objs[i].pos, objs[j].pos) {
        legacy_scan(
            objs,
            heights.update(i, clamped(heights[i] + 1)),
            i,
            j + 1,
            objs[j].ends_at(),
            slider_stack,
            threshold,
        )
    } else if near(objs[i].ends_on(), objs[j].pos) {
        let below = clamped(slider_stack + 1);
        legacy_scan(
            objs,
            heights.update(j, clamped(heights[j] - below)),
            i,
            j + 1,
            objs[j].ends_at(),
            below,
            threshold,
        )
    } else {
        legacy_scan(objs, heights, i, j + 1, chain_end, slider_stack, threshold)
    }
}

/// Whether the older rule takes the object `i` as an anchor: its height is
/// still zero, or it is a slider.
pub open spec fn legacy_anchor(objs: Seq<OsuObject>, heights: Seq<i32>, i: int) -> bool {
    heights[i] == 0 || objs[i].slider()
}

/// The older rule from the object `i` on: each anchor in turn has its
/// followers scanned.
pub open spec fn legacy_from(
    objs: Seq<OsuObject>,
    heights: Seq<i32>,
    i: int,
    threshold: i64,
) -> Seq<i32>
    decreases objs.len() - i,
{
    if !(0 <= i < objs.len()) {
        heights
    } else if legacy_anchor(objs, heights, i) {
        legacy_from(
            objs,
            legacy_scan(objs, heights, i, i + 1, objs[i].ends_at(), 0, threshold),
            i + 1,
            threshold,
        )
    } else {
        legacy_from(objs, heights, i + 1, threshold)
    }
}

/// The stack heights that the older rule gives the objects `objs`.
pub open spec fn legacy_heights(objs: Seq<OsuObject>, threshold: i64) -> Seq<i32> {
    legacy_from(objs, heights_of(objs), 0, threshold)
}

/// `a + b`, held to what a stack height can be.
fn height_sum(a: i32, b: i32) -> (r: i32)
    ensures
        r == clamped(a + b),
{
    clamp(a as i64 + b as i64)
}

/// `a - b`, held to what a stack height can be.
fn height_diff(a: i32, b: i32) -> (r: i32)
    ensures
        r == clamped(a - b),
{
    clamp(a as i64 - b as i64)
}

/// Put the object `k` at the height `height`.
fn set_height(hit_objects: &mut Vec<OsuObject>, k: usize, height: i32)
    requires
        k < old(hit_objects).len(),
    ensures
        final(hit_objects)@ == old(hit_objects)@.update(
            k as int,
            old(hit_objects)@[k as int].at_height(height),
        ),
        heights_of(final(hit_objects)@) == heights_of(old(hit_objects)@).update(k as int, height),
{
    let mut object = hit_objects[k];
    object.stack_height = height;
    hit_objects.set(k, object);
    assert(heights_of(hit_objects@) =~= heights_of(old(hit_objects)@).update(k as int, height));
}

/// Whether `later` lies more than `threshold` after `earlier`.
fn out_of_range(later: i64, earlier: i64, threshold: i64) -> (r: bool)
    ensures
        r == (later - earlier > threshold),
{
    later as i128 - earlier as i128 > threshold as i128
}

/// The objects `now` are the objects `then` but for their stack heights.
pub open spec fn restacked(then: Seq<OsuObject>, now: Seq<OsuObject>) -> bool {
    now == with_heights(then, heights_of(now))
}

/// Stack the objects by the older rule.
///
/// Each object in turn, unless it is no slider and was moved already, is the
/// anchor of a scan through the objects after it; see [`legacy_scan`].
pub fn old_stacking(hit_objects: &mut Vec<OsuObject>, stack_threshold: i64)
    ensures
        final(hit_objects)@ == with_heights(
            old(hit_objects)@,
            legacy_heights(old(hit_objects)@, stack_threshold),
        ),
{
    let ghost objs = hit_objects@;
    let len = hit_objects.len();
    let mut i: usize = 0;

    assert(hit_objects@ =~= with_heights(objs, heights_of(hit_objects@)));

    while i < len
        invariant
            i <= len,
            len == objs.len(),
            hit_objects@.len() == len,
            restacked(objs, hit_objects@),
            legacy_from(objs, heights_of(hit_objects@), i as int, stack_threshold)
                == legacy_heights(objs, stack_threshold),
        decreases len - i,
    {
        let anchor = hit_objects[i];
        assert(anchor == objs[i as int].at_height(heights_of(hit_objects@)[i as int]));

        if anchor.stack_height == 0 || anchor.is_slider() {
            let ghost before = heights_of(hit_objects@);
            let mut start_time = anchor.end_time();
            let end_pos = anchor.end_pos();
            let mut slider_stack: i32 = 0;
            let mut j: usize = i + 1;

            while j < len
                invariant
                    i < j <= len,
                    len == objs.len(),
                    hit_objects@.len() == len,
                    restacked(objs, hit_objects@),
                    anchor.pos == objs[i as int].pos,
                    end_pos == objs[i as int].ends_on(),
                    legacy_scan(
                        objs,
                        heights_of(hit_objects@),
                        i as int,
                        j as int,
                        start_time,
                        slider_stack,
                        stack_threshold,
                    ) == legacy_scan(
                        objs,
                        before,
                        i as int,
                        i + 1,
                        objs[i as int].ends_at(),
                        0,
                        stack_threshold,
                    ),
                ensures
                    hit_objects@.len() == len,
                    restacked(objs, hit_objects@),
                    heights_of(hit_objects@) == legacy_scan(
                        objs,
                        before,
                        i as int,
                        i + 1,
                        objs[i as int].ends_at(),
                        0,
                        stack_threshold,
                    ),
                decreases len - j,
            {
                let follower = hit_objects[j];
                assert(follower == objs[j as int].at_height(heights_of(hit_objects@)[j as int]));

                if out_of_range(follower.time, start_time, stack_threshold) {
                    break ;
                }
                if anchor.pos.is_near(follower.pos) {
                    let raised = height_sum(hit_objects[i].stack_height, 1);
                    set_height(hit_objects, i, raised);
                    start_time = follower.end_time();
                } else if end_pos.is_near(follower.pos) {
                    slider_stack = height_sum(slider_stack, 1);
                    let lowered = height_diff(follower.stack_height, slider_stack);
                    set_height(hit_objects, j, lowered);
                    start_time = follower.end_time();
                }
                assert(hit_objects@ =~= with_heights(objs, heights_of(hit_objects@)));
                j += 1;
            }
        }
        i += 1;
    }
}

/// The newer rule, where circles were found to lie on the end of the slider
/// `n`: each object from `j` up to the base `i` that starts on that end is
/// lowered by `offset`, so that the circles come to lie beneath the slider's
/// end and not above it.
pub open spec fn lower_under(
    objs: Seq<OsuObject>,
    heights: Seq<i32>,
    n: int,
    j: int,
    i: int,
    offset: i32,
) -> Seq<i32>
    decreases i + 1 - j,
{
    if !(0 <= n < j <= i < objs.len()) {
        heights
    } else if near(objs[n].ends_on(), objs[j].pos) {
        lower_under(
            objs,
            heights.update(j, clamped(heights[j] - offset)),
            n,
            j + 1,
            i,
            offset,
        )
    } else {
        lower_under(objs, heights, n, j + 1, i, offset)
    }
}

/// The newer rule for a circle `i`, with `top` the object last put on the
/// stack and the objects before `n` still to be looked at, last first.
///
/// Spinners are passed over. An object that ends more than `threshold`
/// before `top` starts ends the walk. A slider that ends on `top` ends it
/// too, after the objects stacked so far were lowered beneath it; see
/// [`lower_under`]. Any other object that starts on `top` is put one above
/// it and is the new top.
pub open spec fn circle_walk(
    objs: Seq<OsuObject>,
    heights: Seq<i32>,
    i: int,
    top: int,
    n: int,
    threshold: i64,
) -> Seq<i32>
    decreases n,
{
    if !(0 < n <= top <= i < objs.len()) {
        heights
    } else {
        let c = n - 1;
        if objs[c].spinner() {
            circle_walk(objs, heights, i, top, c, threshold)
        } else if objs[top].time - objs[c].ends_at() > threshold {
            heights
        } else if objs[c].slider() && near(objs[c].ends_on(), objs[top].pos) {
            lower_under(
                objs,
                heights,
                c,
                c + 1,
                i,
                clamped(heights[top] - heights[c] + 1),
            )
        } else if near(objs[c].pos, objs[top].pos) {
            circle_walk(
                objs,
                heights.update(c, clamped(heights[top] + 1)),
                i,
                c,
                c,
                threshold,
            )
        } else {
            circle_walk(objs, heights, i, top, c, threshold)
        }
    }
}

/// The newer rule for a slider, with `top` the object last put on the stack
/// and the objects before `n` still to be looked at, last first.
///
/// Spinners are passed over. An object that starts more than `threshold`
/// before `top` starts ends the walk. An object that ends on the start of
/// `top` is put one above it and is the new top.
pub open spec fn slider_walk(
    objs: Seq<OsuObject>,
    heights: Seq<i32>,
    top: int,
    n: int,
    threshold: i64,
) -> Seq<i32>
    decreases n,
{
    if !(0 < n <= top < objs.len()) {
        heights
    } else {
        let c = n - 1;
        if objs[c].spinner() {
            slider_walk(objs, heights, top, c, threshold)
        } else if objs[top].time - objs[c].time > threshold {
            heights
        } else if near(objs[c].ends_on(), objs[top].pos) {
            slider_walk(
                objs,
                heights.update(c, clamped(heights[top] + 1)),
                c,
                c,
                threshold,
            )
        } else {
            slider_walk(objs, heights, top, c, threshold)
        }
    }
}

/// Whether the newer rule takes the object `i` as the base of a stack: it is
/// no spinner and its height is still zero.
pub open spec fn modern_base(objs: Seq<OsuObject>, heights: Seq<i32>, i: int) -> bool {
    heights[i] == 0 && !objs[i].spinner()
}

/// The newer rule from the object `i` down to the second: each base in turn
/// has the objects before it walked through.
pub open spec fn modern_from(
    objs: Seq<OsuObject>,
    heights: Seq<i32>,
    i: int,
    threshold: i64,
) -> Seq<i32>
    decreases i,
{
    if !(0 < i < objs.len()) {
        heights
    } else if !modern_base(objs, heights, i) {
        modern_from(objs, heights, i - 1, threshold)
    } else if objs[i].circle() {
        modern_from(objs, circle_walk(objs, heights, i, i, i, threshold), i - 1, threshold)
    } else {
        modern_from(objs, slider_walk(objs, heights, i, i, threshold), i - 1, threshold)
    }
}

/// The stack heights that the newer rule gives the objects `objs`.
pub open spec fn modern_heights(objs: Seq<OsuObject>, threshold: i64) -> Seq<i32> {
    modern_from(objs, heights_of(objs), objs.len() - 1, threshold)
}

/// Lower by `offset` each object after the slider `n`, up to `i`, that
/// starts on the slider's end.
fn lower_under_slider(
    hit_objects: &mut Vec<OsuObject>,
    n: usize,
    i: usize,
    offset: i32,
    Ghost(objs): Ghost<Seq<OsuObject>>,
)
    requires
        n < i < old(hit_objects).len(),
        old(hit_objects).len() == objs.len(),
        restacked(objs, old(hit_objects)@),
    ensures
        final(hit_objects).len() == objs.len(),
        restacked(objs, final(hit_objects)@),
        heights_of(final(hit_objects)@) == lower_under(
            objs,
            heights_of(old(hit_objects)@),
            n as int,
            n + 1,
            i as int,
            offset,
        ),
{
    let ghost before = heights_of(hit_objects@);
    let slider_end = hit_objects[n].end_pos();
    assert(hit_objects@[n as int] == objs[n as int].at_height(before[n as int]));
    let mut j: usize = n + 1;

    while j <= i
        invariant
            n < j <= i + 1,
            i < objs.len(),
            hit_objects.len() == objs.len(),
            restacked(objs, hit_objects@),
            slider_end == objs[n as int].ends_on(),
            lower_under(objs, heights_of(hit_objects@), n as int, j as int, i as int, offset)
                == lower_under(objs, before, n as int, n + 1, i as int, offset),
        decreases i + 1 - j,
    {
        let object = hit_objects[j];
        assert(object == objs[j as int].at_height(heights_of(hit_objects@)[j as int]));

        if slider_end.is_near(object.pos) {
            let lowered = height_diff(object.stack_height, offset);
            set_height(hit_objects, j, lowered);
            assert(hit_objects@ =~= with_heights(objs, heights_of(hit_objects@)));
        }
        j += 1;
    }
}

/// Stack the objects before the circle `i` by the newer rule.
fn stack_under_circle(
    hit_objects: &mut Vec<OsuObject>,
    i: usize,
    stack_threshold: i64,
    Ghost(objs): Ghost<Seq<OsuObject>>,
)
    requires
        i < old(hit_objects).len(),
        old(hit_objects).len() == objs.len(),
        restacked(objs, old(hit_objects)@),
    ensures
        final(hit_objects).len() == objs.len(),
        restacked(objs, final(hit_objects)@),
        heights_of(final(hit_objects)@) == circle_walk(
            objs,
            heights_of(old(hit_objects)@),
            i as int,
            i as int,
            i as int,
            stack_threshold,
        ),
{
    let ghost before = heights_of(hit_objects@);
    let mut n: usize = i;
    let mut top: usize = i;

    while n > 0
        invariant_except_break
            circle_walk(
                objs,
                heights_of(hit_objects@),
                i as int,
                top as int,
                n as int,
                stack_threshold,
            ) == circle_walk(objs, before, i as int, i as int, i as int, stack_threshold),
        invariant
            n <= top <= i < objs.len(),
            hit_objects.len() == objs.len(),
            restacked(objs, hit_objects@),
        ensures
            hit_objects.len() == objs.len(),
            restacked(objs, hit_objects@),
            heights_of(hit_objects@) == circle_walk(
                objs,
                before,
                i as int,
                i as int,
                i as int,
                stack_threshold,
            ),
        decreases n,
    {
        n -= 1;
        let candidate = hit_objects[n];
        let above = hit_objects[top];
        assert(candidate == objs[n as int].at_height(heights_of(hit_objects@)[n as int]));
        assert(above == objs[top as int].at_height(heights_of(hit_objects@)[top as int]));

        if !candidate.is_spinner() {
            if out_of_range(above.time, candidate.end_time(), stack_threshold) {
                break ;
            }
            if candidate.is_slider() && candidate.end_pos().is_near(above.pos) {
                let offset = clamp(
                    above.stack_height as i64 - candidate.stack_height as i64 + 1,
                );
                lower_under_slider(hit_objects, n, i, offset, Ghost(objs));
                break ;
            }
            if candidate.pos.is_near(above.pos) {
                let raised = height_sum(above.stack_height, 1);
                set_height(hit_objects, n, raised);
                assert(hit_objects@ =~= with_heights(objs, heights_of(hit_objects@)));
                top = n;
            }
        }
    }
}

/// Stack the objects before the slider `i` by the newer rule.
fn stack_under_slider(
    hit_objects: &mut Vec<OsuObject>,
    i: usize,
    stack_threshold: i64,
    Ghost(objs): Ghost<Seq<OsuObject>>,
)
    requires
        i < old(hit_objects).len(),
        old(hit_objects).len() == objs.len(),
        restacked(objs, old(hit_objects)@),
    ensures
        final(hit_objects).len() == objs.len(),
        restacked(objs, final(hit_objects)@),
        heights_of(final(hit_objects)@) == slider_walk(
            objs,
            heights_of(old(hit_objects)@),
            i as int,
            i as int,
            stack_threshold,
        ),
{
    let ghost before = heights_of(hit_objects@);
    let mut n: usize = i;
    let mut top: usize = i;

    while n > 0
        invariant_except_break
            slider_walk(objs, heights_of(hit_objects@), top as int, n as int, stack_threshold)
                == slider_walk(objs, before, i as int, i as int, stack_threshold),
        invariant
            n <= top < objs.len(),
            hit_objects.len() == objs.len(),
            restacked(objs, hit_objects@),
        ensures
            hit_objects.len() == objs.len(),
            restacked(objs, hit_objects@),
            heights_of(hit_objects@) == slider_walk(
                objs,
                before,
                i as int,
                i as int,
                stack_threshold,
            ),
        decreases n,
    {
        n -= 1;
        let candidate = hit_objects[n];
        let above = hit_objects[top];
        assert(candidate == objs[n as int].at_height(heights_of(hit_objects@)[n as int]));
        assert(above == objs[top as int].at_height(heights_of(hit_objects@)[top as int]));

        if !candidate.is_spinner() {
            if out_of_range(above.time, candidate.time, stack_threshold) {
                break ;
            }
            if candidate.end_pos().is_near(above.pos) {
                let raised = height_sum(above.stack_height, 1);
                set_height(hit_objects, n, raised);
                assert(hit_objects@ =~= with_heights(objs, heights_of(hit_objects@)));
                top = n;
            }
        }
    }
}

/// Stack the objects by the newer rule.
///
/// From the last object down to the second, each object that is no spinner
/// and was not moved yet is the base of a stack: the objects before it are
/// walked through as [`circle_walk`] says where it is a circle, and as
/// [`slider_walk`] says where it is a slider. The objects under
/// consideration always begin with the first of the chart, so a walk never
/// meets an object whose height would have to be set back first.
pub fn stacking(hit_objects: &mut Vec<OsuObject>, stack_threshold: i64)
    ensures
        final(hit_objects)@ == with_heights(
            old(hit_objects)@,
            modern_heights(old(hit_objects)@, stack_threshold),
        ),
{
    let ghost objs = hit_objects@;
    let len = hit_objects.len();
    assert(hit_objects@ =~= with_heights(objs, heights_of(hit_objects@)));
    if len == 0 {
        return ;
    }
    let mut i: usize = len - 1;

    while i > 0
        invariant
            i < len,
            len == objs.len(),
            hit_objects.len() == len,
            restacked(objs, hit_objects@),
            modern_from(objs, heights_of(hit_objects@), i as int, stack_threshold)
                == modern_heights(objs, stack_threshold),
        decreases i,
    {
        let base = hit_objects[i];
        assert(base == objs[i as int].at_height(heights_of(hit_objects@)[i as int]));

        if base.stack_height == 0 && !base.is_spinner() {
            if base.is_circle() {
                stack_under_circle(hit_objects, i, stack_threshold, Ghost(objs));
            } else {
                stack_under_slider(hit_objects, i, stack_threshold, Ghost(objs));
            }
        }
        i -= 1;
    }
}

/// No object starts where an earlier object starts or ends.
pub open spec fn no_coincidence(objs: Seq<OsuObject>) -> bool {
    forall|a: int, b: int|
        #![trigger objs[a], objs[b]]
        0 <= a < b < objs.len() ==> !near(objs[a].pos, objs[b].pos) && !near(
            objs[a].ends_on(),
            objs[b].pos,
        )
}

proof fn legacy_scan_idle(
    objs: Seq<OsuObject>,
    heights: Seq<i32>,
    i: int,
    j: int,
    chain_end: i64,
    slider_stack: i32,
    threshold: i64,
)
    requires
        no_coincidence(objs),
    ensures
        legacy_scan(objs, heights, i, j, chain_end, slider_stack, threshold) == heights,
    decreases objs.len() - j,
{
    if 0 <= i < j < objs.len() && !(objs[j].time - chain_end > threshold) {
        assert(!near(objs[i].pos, objs[j].pos) && !near(objs[i].ends_on(), objs[j].pos));
        legacy_scan_idle(objs, heights, i, j + 1, chain_end, slider_stack, threshold);
    }
}

proof fn legacy_from_idle(objs: Seq<OsuObject>, heights: Seq<i32>, i: int, threshold: i64)
    requires
        no_coincidence(objs),
    ensures
        legacy_from(objs, heights, i, threshold) == heights,
    decreases objs.len() - i,
{
    if 0 <= i < objs.len() {
        legacy_scan_idle(objs, heights, i, i + 1, objs[i].ends_at(), 0, threshold);
        legacy_from_idle(objs, heights, i + 1, threshold);
    }
}

proof fn circle_walk_idle(
    objs: Seq<OsuObject>,
    heights: Seq<i32>,
    i: int,
    top: int,
    n: int,
    threshold: i64,
)
    requires
        no_coincidence(objs),
    ensures
        circle_walk(objs, heights, i, top, n, threshold) == heights,
    decreases n,
{
    if 0 < n <= top <= i < objs.len() {
        let c = n - 1;
        assert(!near(objs[c].pos, objs[top].pos) && !near(objs[c].ends_on(), objs[top].pos));
        circle_walk_idle(objs, heights, i, top, c, threshold);
    }
}

proof fn slider_walk_idle(
    objs: Seq<OsuObject>,
    heights: Seq<i32>,
    top: int,
    n: int,
    threshold: i64,
)
    requires
        no_coincidence(objs),
    ensures
        slider_walk(objs, heights, top, n, threshold) == heights,
    decreases n,
{
    if 0 < n <= top < objs.len() {
        let c = n - 1;
        assert(!near(objs[c].pos, objs[top].pos) && !near(objs[c].ends_on(), objs[top].pos));
        slider_walk_idle(objs, heights, top, c, threshold);
    }
}

proof fn modern_from_idle(objs: Seq<OsuObject>, heights: Seq<i32>, i: int, threshold: i64)
    requires
        no_coincidence(objs),
    ensures
        modern_from(objs, heights, i, threshold) == heights,
    decreases i,
{
    if 0 < i < objs.len() {
        circle_walk_idle(objs, heights, i, i, i, threshold);
        slider_walk_idle(objs, heights, i, i, threshold);
        modern_from_idle(objs, heights, i - 1, threshold);
    }
}

/// Where no object starts on the start or the end of an earlier one, neither
/// rule moves anything: every object keeps the stack height it had, so one
/// that had none has none, and its position stays what it was.
pub proof fn apart_objects_stay(objs: Seq<OsuObject>, threshold: i64)
    requires
        no_coincidence(objs),
    ensures
        modern_heights(objs, threshold) == heights_of(objs),
        legacy_heights(objs, threshold) == heights_of(objs),
        with_heights(objs, modern_heights(objs, threshold)) == objs,
        with_heights(objs, legacy_heights(objs, threshold)) == objs,
        forall|k: int, offset: i32|
            0 <= k < objs.len() && objs[k].stack_height == 0 ==> #[trigger] objs[k].pos.shifted(
                modern_heights(objs, threshold)[k],
                offset,
            ) == objs[k].pos,
        forall|k: int, offset: i32|
            0 <= k < objs.len() && objs[k].stack_height == 0 ==> #[trigger] objs[k].pos.shifted(
                legacy_heights(objs, threshold)[k],
                offset,
            ) == objs[k].pos,
{
    modern_from_idle(objs, heights_of(objs), objs.len() - 1, threshold);
    legacy_from_idle(objs, heights_of(objs), 0, threshold);
    assert(with_heights(objs, heights_of(objs)) =~= objs);
    assert forall|k: int, offset: i32| 0 <= k < objs.len() && objs[k].stack_height == 0 implies (
    #[trigger] objs[k].pos.shifted(0, offset)) == objs[k].pos by {
        assert(0 * offset == 0);
    }
}

} // verus!
