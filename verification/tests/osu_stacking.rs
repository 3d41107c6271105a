use rosu_pp::osu::osu_object::{OsuObject, OsuObjectKind, Pos2, GRID_STEPS, STACK_DISTANCE};
use rosu_pp::osu::stacking::{old_stacking, stacking};

fn at(x: i32, y: i32) -> Pos2 {
    Pos2 { x, y }
}

fn circle(time: i64, pos: Pos2) -> OsuObject {
    OsuObject {
        time,
        pos,
        stack_height: 0,
        kind: OsuObjectKind::Circle,
    }
}

fn slider(time: i64, pos: Pos2, end_time: i64, end_pos: Pos2) -> OsuObject {
    OsuObject {
        time,
        pos,
        stack_height: 0,
        kind: OsuObjectKind::Slider { end_time, end_pos },
    }
}

fn spinner(time: i64, pos: Pos2, end_time: i64) -> OsuObject {
    OsuObject {
        time,
        pos,
        stack_height: 0,
        kind: OsuObjectKind::Spinner { end_time },
    }
}

fn heights(objects: &[OsuObject]) -> Vec<i32> {
    objects.iter().map(|object| object.stack_height).collect()
}

fn unstacked(objects: &[OsuObject]) -> Vec<OsuObject> {
    objects
        .iter()
        .map(|object| OsuObject {
            stack_height: 0,
            ..*object
        })
        .collect()
}

#[test]
fn three_units_make_the_stack_distance() {
    assert_eq!(GRID_STEPS, 256);
    assert_eq!(STACK_DISTANCE, 3 * GRID_STEPS);
}

#[test]
fn positions_coincide_below_the_stack_distance() {
    let origin = at(0, 0);

    assert!(origin.is_near(origin));
    assert!(origin.is_near(at(767, 0)));
    assert!(!origin.is_near(at(768, 0)));
    assert!(origin.is_near(at(-542, 542)));
    assert!(!origin.is_near(at(544, 544)));
    assert!(!at(i32::MIN, i32::MIN).is_near(at(i32::MAX, i32::MAX)));
    assert!(at(i32::MAX, i32::MIN).is_near(at(i32::MAX, i32::MIN + 1)));
}

#[test]
fn objects_end_where_and_when_their_kind_says() {
    let c = circle(10, at(1, 2));
    let s = slider(10, at(1, 2), 50, at(30, 40));
    let p = spinner(10, at(1, 2), 90);

    assert!(c.is_circle() && !c.is_slider() && !c.is_spinner());
    assert!(!s.is_circle() && s.is_slider() && !s.is_spinner());
    assert!(!p.is_circle() && !p.is_slider() && p.is_spinner());
    assert_eq!(c.end_time(), 10);
    assert_eq!(s.end_time(), 50);
    assert_eq!(p.end_time(), 90);
    assert_eq!(c.end_pos(), at(1, 2));
    assert_eq!(s.end_pos(), at(30, 40));
    assert_eq!(p.end_pos(), at(1, 2));
}

#[test]
fn positions_shift_by_height_times_offset() {
    assert_eq!(at(100, 200).shift(0, -1638), at(100, 200));
    assert_eq!(at(100, 200).shift(2, -10), at(80, 180));
    assert_eq!(at(100, 200).shift(-3, -10), at(130, 230));
    assert_eq!(at(i32::MAX, 0).shift(1, 1), at(i32::MAX, 1));
    assert_eq!(
        at(0, 0).shift(i32::MIN, i32::MAX),
        at(i32::MIN, i32::MIN)
    );
}

#[test]
fn stacking_of_no_objects_does_nothing() {
    let mut none: Vec<OsuObject> = Vec::new();
    stacking(&mut none, 1000);
    assert!(none.is_empty());
    old_stacking(&mut none, 1000);
    assert!(none.is_empty());

    let mut one = vec![circle(0, at(0, 0))];
    stacking(&mut one, 1000);
    assert_eq!(one, vec![circle(0, at(0, 0))]);
    old_stacking(&mut one, 1000);
    assert_eq!(one, vec![circle(0, at(0, 0))]);
}

#[test]
fn circles_in_one_place_stack_upwards() {
    let place = at(25_600, 25_600);
    let objects = vec![circle(0, place), circle(100, place), circle(200, place)];

    let mut modern = objects.clone();
    stacking(&mut modern, 1000);
    assert_eq!(heights(&modern), vec![2, 1, 0]);
    assert_eq!(unstacked(&modern), objects);

    let mut legacy = objects.clone();
    old_stacking(&mut legacy, 1000);
    assert_eq!(heights(&legacy), vec![2, 1, 0]);
    assert_eq!(unstacked(&legacy), objects);
}

#[test]
fn circles_far_apart_in_time_do_not_stack() {
    let place = at(0, 0);
    let objects = vec![circle(0, place), circle(1001, place)];

    let mut modern = objects.clone();
    stacking(&mut modern, 1000);
    assert_eq!(modern, objects);

    let mut legacy = objects.clone();
    old_stacking(&mut legacy, 1000);
    assert_eq!(legacy, objects);
}

#[test]
fn circles_at_the_threshold_still_stack() {
    let place = at(0, 0);
    let objects = vec![circle(0, place), circle(1000, place)];

    let mut modern = objects.clone();
    stacking(&mut modern, 1000);
    assert_eq!(heights(&modern), vec![1, 0]);

    let mut legacy = objects.clone();
    old_stacking(&mut legacy, 1000);
    assert_eq!(heights(&legacy), vec![1, 0]);
}

#[test]
fn chart_without_coincidences_is_left_alone() {
    let objects = vec![
        circle(0, at(0, 0)),
        slider(100, at(10_000, 0), 300, at(20_000, 0)),
        spinner(400, at(30_000, 30_000), 900),
        circle(1000, at(40_000, 0)),
        circle(1100, at(40_000, 768)),
        slider(1200, at(0, 50_000), 1300, at(768, 50_000)),
    ];

    let mut modern = objects.clone();
    stacking(&mut modern, 100_000);
    assert_eq!(modern, objects);

    let mut legacy = objects.clone();
    old_stacking(&mut legacy, 100_000);
    assert_eq!(legacy, objects);
}

#[test]
fn circle_on_a_slider_end_goes_beneath_it() {
    let objects = vec![
        slider(0, at(0, 0), 200, at(10_000, 0)),
        circle(300, at(10_000, 0)),
        circle(400, at(10_000, 0)),
    ];

    let mut modern = objects.clone();
    stacking(&mut modern, 1000);
    assert_eq!(heights(&modern), vec![0, -1, -2]);

    let mut legacy = objects.clone();
    old_stacking(&mut legacy, 1000);
    assert_eq!(heights(&legacy), vec![0, -1, -2]);
}

#[test]
fn slider_start_on_earlier_ends_stacks_upwards() {
    // each object ends where the next one starts
    let objects = vec![
        circle(0, at(0, 0)),
        slider(100, at(0, 0), 200, at(5_000, 5_000)),
        slider(300, at(5_000, 5_000), 400, at(9_000, 9_000)),
    ];

    let mut modern = objects.clone();
    stacking(&mut modern, 1000);
    assert_eq!(heights(&modern), vec![2, 1, 0]);

    // the circle lies on the end of the first slider, not on its start
    let objects = vec![
        circle(0, at(5_000, 5_000)),
        slider(100, at(0, 0), 200, at(5_000, 5_000)),
        slider(300, at(5_000, 5_000), 400, at(9_000, 9_000)),
    ];

    let mut modern = objects.clone();
    stacking(&mut modern, 1000);
    assert_eq!(heights(&modern), vec![0, 1, 0]);
}

#[test]
fn slider_walk_measures_from_start_to_start() {
    // the earlier slider ends within the threshold of the later one's
    // start, but starts before it
    let objects = vec![
        slider(0, at(0, 0), 900, at(5_000, 5_000)),
        slider(1001, at(5_000, 5_000), 1100, at(9_000, 9_000)),
    ];

    let mut modern = objects.clone();
    stacking(&mut modern, 1000);
    assert_eq!(heights(&modern), vec![0, 0]);

    let objects = vec![
        slider(1, at(0, 0), 900, at(5_000, 5_000)),
        slider(1001, at(5_000, 5_000), 1100, at(9_000, 9_000)),
    ];

    let mut modern = objects.clone();
    stacking(&mut modern, 1000);
    assert_eq!(heights(&modern), vec![1, 0]);
}

#[test]
fn circle_walk_measures_from_end_to_start() {
    let objects = vec![
        slider(0, at(0, 0), 900, at(5_000, 5_000)),
        circle(1900, at(0, 0)),
    ];

    let mut modern = objects.clone();
    stacking(&mut modern, 1000);
    assert_eq!(heights(&modern), vec![1, 0]);

    let objects = vec![
        slider(0, at(0, 0), 900, at(5_000, 5_000)),
        circle(1901, at(0, 0)),
    ];

    let mut modern = objects.clone();
    stacking(&mut modern, 1000);
    assert_eq!(heights(&modern), vec![0, 0]);
}

#[test]
fn the_rules_differ_on_spinners() {
    let place = at(0, 0);
    let objects = vec![circle(0, place), spinner(100, place, 150), circle(200, place)];

    let mut modern = objects.clone();
    stacking(&mut modern, 1000);
    assert_eq!(heights(&modern), vec![1, 0, 0]);

    let mut legacy = objects.clone();
    old_stacking(&mut legacy, 1000);
    assert_eq!(heights(&legacy), vec![2, 1, 0]);
}

#[test]
fn interwoven_stacks_are_told_apart() {
    let left = at(0, 0);
    let right = at(50_000, 0);
    let objects = vec![
        circle(0, left),
        circle(100, right),
        circle(200, left),
        circle(300, right),
    ];

    let mut modern = objects.clone();
    stacking(&mut modern, 1000);
    assert_eq!(heights(&modern), vec![1, 1, 0, 0]);

    let mut legacy = objects.clone();
    old_stacking(&mut legacy, 1000);
    assert_eq!(heights(&legacy), vec![1, 1, 0, 0]);
}

#[test]
fn slider_beneath_stacked_circles_lowers_them_all() {
    // two circles stack on one another, then a slider is found to end
    // beneath them: both circles go below the slider's end
    let end = at(10_000, 0);
    let objects = vec![
        slider(0, at(0, 0), 100, end),
        circle(200, end),
        circle(300, end),
        circle(400, end),
    ];

    let mut modern = objects.clone();
    stacking(&mut modern, 1000);
    assert_eq!(heights(&modern), vec![0, -1, -2, -3]);
}

#[test]
fn legacy_chain_reaches_on_from_the_last_stacked_object() {
    let place = at(0, 0);
    let objects = vec![
        circle(0, place),
        circle(900, place),
        circle(1800, place),
        circle(2801, place),
    ];

    let mut legacy = objects.clone();
    old_stacking(&mut legacy, 1000);
    assert_eq!(heights(&legacy), vec![2, 1, 0, 0]);
}

#[test]
fn legacy_passes_over_moved_objects_that_are_no_sliders() {
    let place = at(0, 0);
    let mut objects = vec![circle(0, place), circle(100, place)];
    objects[0].stack_height = 5;

    old_stacking(&mut objects, 1000);
    assert_eq!(heights(&objects), vec![5, 0]);

    let mut objects = vec![
        slider(0, place, 50, at(9_000, 9_000)),
        circle(100, place),
    ];
    objects[0].stack_height = 5;

    old_stacking(&mut objects, 1000);
    assert_eq!(heights(&objects), vec![6, 0]);
}

#[test]
fn modern_passes_over_moved_objects() {
    let place = at(0, 0);
    let mut objects = vec![circle(0, place), circle(100, place)];
    objects[1].stack_height = 3;

    stacking(&mut objects, 1000);
    assert_eq!(heights(&objects), vec![0, 3]);
}

#[test]
fn stack_heights_are_held_to_their_bounds() {
    let place = at(0, 0);
    let mut objects = vec![
        slider(0, place, 50, at(9_000, 9_000)),
        circle(100, place),
    ];
    objects[0].stack_height = i32::MAX;

    old_stacking(&mut objects, 1000);
    assert_eq!(heights(&objects), vec![i32::MAX, 0]);
}
