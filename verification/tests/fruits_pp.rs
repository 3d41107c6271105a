use rosu_pp::fruits::pp::target_hits_rounded;
use rosu_pp::{
    DifficultyAttributes, FruitsAttributeProvider, FruitsDifficultyAttributes, FruitsPP,
    FruitsPPInner, FruitsPerformanceAttributes, OsuDifficultyAttributes,
    OsuPerformanceAttributes, PerformanceAttributes, Ratio,
};

fn attributes() -> FruitsDifficultyAttributes {
    FruitsDifficultyAttributes {
        n_fruits: 1234,
        n_droplets: 567,
        n_tiny_droplets: 2345,
        max_combo: 1234 + 567,
        ..Default::default()
    }
}

#[test]
fn fruits_only_accuracy() {
    let map = FruitsDifficultyAttributes::default();
    let attributes = attributes();

    let total_objects = attributes.n_fruits + attributes.n_droplets;
    let target_acc = 97.5;

    let calculator = FruitsPP::new(map)
        .attributes(attributes)
        .passed_objects(total_objects)
        .accuracy(9750);

    let numerator = calculator.n_fruits.unwrap_or(0)
        + calculator.n_droplets.unwrap_or(0)
        + calculator.n_tiny_droplets.unwrap_or(0);
    let denominator =
        numerator + calculator.n_tiny_droplet_misses.unwrap_or(0) + calculator.n_misses;
    let acc = 100.0 * numerator as f64 / denominator as f64;

    assert!(
        (target_acc - acc).abs() < 1.0,
        "Expected: {} | Actual: {}",
        target_acc,
        acc
    );
}

#[test]
fn fruits_accuracy_droplets_and_tiny_droplets() {
    let map = FruitsDifficultyAttributes::default();
    let attributes = attributes();

    let total_objects = attributes.n_fruits + attributes.n_droplets;
    let target_acc = 97.5;
    let n_droplets = 550;
    let n_tiny_droplets = 2222;

    let calculator = FruitsPP::new(map)
        .attributes(attributes)
        .passed_objects(total_objects)
        .droplets(n_droplets)
        .tiny_droplets(n_tiny_droplets)
        .accuracy(9750);

    assert_eq!(
        n_droplets,
        calculator.n_droplets.unwrap(),
        "Expected: {} | Actual: {}",
        n_droplets,
        calculator.n_droplets.unwrap()
    );

    let numerator = calculator.n_fruits.unwrap_or(0)
        + calculator.n_droplets.unwrap_or(0)
        + calculator.n_tiny_droplets.unwrap_or(0);
    let denominator =
        numerator + calculator.n_tiny_droplet_misses.unwrap_or(0) + calculator.n_misses;
    let acc = 100.0 * numerator as f64 / denominator as f64;

    assert!(
        (target_acc - acc).abs() < 1.0,
        "Expected: {} | Actual: {}",
        target_acc,
        acc
    );
}

#[test]
fn fruits_missing_objects() {
    let map = FruitsDifficultyAttributes::default();
    let attributes = attributes();

    let total_objects = attributes.n_fruits + attributes.n_droplets;
    let n_fruits = attributes.n_fruits - 10;
    let n_droplets = attributes.n_droplets - 5;
    let n_tiny_droplets = attributes.n_tiny_droplets - 50;
    let n_tiny_droplet_misses = 20;
    let n_misses = 2;

    let calculator = FruitsPP::new(map)
        .attributes(attributes.clone())
        .passed_objects(total_objects)
        .fruits(n_fruits)
        .droplets(n_droplets)
        .tiny_droplets(n_tiny_droplets)
        .tiny_droplet_misses(n_tiny_droplet_misses)
        .misses(n_misses)
        .assert_hitresults(attributes.clone());

    assert!(
        (attributes.n_fruits as i32 - calculator.n_fruits as i32).abs() <= n_misses as i32,
        "Expected: {} | Actual: {} [+/- {} misses]",
        attributes.n_fruits,
        calculator.n_fruits,
        n_misses
    );

    assert_eq!(
        attributes.n_droplets,
        calculator.n_droplets - (n_misses - (attributes.n_fruits - calculator.n_fruits)),
        "Expected: {} | Actual: {}",
        attributes.n_droplets,
        calculator.n_droplets - (n_misses - (attributes.n_fruits - calculator.n_fruits)),
    );

    assert_eq!(
        attributes.n_tiny_droplets,
        calculator.n_tiny_droplets + calculator.n_tiny_droplet_misses,
        "Expected: {} | Actual: {}",
        attributes.n_tiny_droplets,
        calculator.n_tiny_droplets + calculator.n_tiny_droplet_misses,
    );
}

#[test]
fn new_calculator_knows_nothing_of_the_score() {
    let calculator = FruitsPP::new(attributes());

    assert_eq!(calculator.attributes, attributes());
    assert_eq!(calculator.mods, 0);
    assert_eq!(calculator.combo, None);
    assert_eq!(calculator.n_fruits, None);
    assert_eq!(calculator.n_droplets, None);
    assert_eq!(calculator.n_tiny_droplets, None);
    assert_eq!(calculator.n_tiny_droplet_misses, None);
    assert_eq!(calculator.n_misses, 0);
    assert_eq!(calculator.passed_objects, None);
}

#[test]
fn setters_set_one_field_each() {
    let calculator = FruitsPP::new(attributes())
        .mods(8 + 64)
        .combo(1234)
        .fruits(1)
        .droplets(2)
        .tiny_droplets(3)
        .tiny_droplet_misses(4)
        .misses(5)
        .passed_objects(6);

    assert_eq!(calculator.attributes, attributes());
    assert_eq!(calculator.mods, 72);
    assert_eq!(calculator.combo, Some(1234));
    assert_eq!(calculator.n_fruits, Some(1));
    assert_eq!(calculator.n_droplets, Some(2));
    assert_eq!(calculator.n_tiny_droplets, Some(3));
    assert_eq!(calculator.n_tiny_droplet_misses, Some(4));
    assert_eq!(calculator.n_misses, 5);
    assert_eq!(calculator.passed_objects, Some(6));
}

#[test]
fn attributes_are_taken_from_every_provider_of_fruits() {
    let given = attributes();
    let rated = FruitsPP::new(given).calculate();

    assert_eq!(given.attributes(), Some(given));
    assert_eq!(rated.attributes(), Some(given));
    assert_eq!(DifficultyAttributes::Fruits(given).attributes(), Some(given));
    assert_eq!(PerformanceAttributes::Fruits(rated).attributes(), Some(given));

    let empty = FruitsDifficultyAttributes::default();
    assert_eq!(FruitsPP::new(empty).attributes(given).attributes, given);
    assert_eq!(FruitsPP::new(empty).attributes(rated).attributes, given);
    assert_eq!(
        FruitsPP::new(empty)
            .attributes(DifficultyAttributes::Fruits(given))
            .attributes,
        given
    );
    assert_eq!(
        FruitsPP::new(empty)
            .attributes(PerformanceAttributes::Fruits(rated))
            .attributes,
        given
    );
}

#[test]
fn attributes_of_another_sort_of_chart_change_nothing() {
    let other = OsuDifficultyAttributes {
        n_circles: 1,
        n_sliders: 2,
        n_spinners: 3,
        max_combo: 9,
    };

    assert_eq!(DifficultyAttributes::Osu(other).attributes(), None);
    assert_eq!(
        PerformanceAttributes::Osu(OsuPerformanceAttributes { difficulty: other }).attributes(),
        None
    );
    assert_eq!(
        FruitsPP::new(attributes())
            .attributes(DifficultyAttributes::Osu(other))
            .attributes,
        attributes()
    );
}

#[test]
fn settled_hitresults_come_back_unchanged() {
    let attributes = attributes();
    let inner = FruitsPP::new(attributes)
        .fruits(1233)
        .droplets(566)
        .tiny_droplets(2300)
        .tiny_droplet_misses(45)
        .misses(2)
        .mods(8)
        .combo(700)
        .assert_hitresults(attributes);

    assert_eq!(inner.attributes, attributes);
    assert_eq!(inner.mods, 8);
    assert_eq!(inner.combo, Some(700));
    assert_eq!(inner.n_fruits, 1233);
    assert_eq!(inner.n_droplets, 566);
    assert_eq!(inner.n_tiny_droplets, 2300);
    assert_eq!(inner.n_tiny_droplet_misses, 45);
    assert_eq!(inner.n_misses, 2);
}

#[test]
fn missing_objects_go_to_droplets_first_then_to_fruits() {
    let attributes = attributes();
    let inner = FruitsPP::new(attributes)
        .fruits(1224)
        .droplets(562)
        .tiny_droplets(2295)
        .tiny_droplet_misses(20)
        .misses(2)
        .assert_hitresults(attributes);

    // 13 combo objects are unaccounted for; 5 droplets are left in the chart.
    assert_eq!(inner.n_fruits, 1232);
    assert_eq!(inner.n_droplets, 567);
    assert_eq!(inner.n_tiny_droplets, 2325);
    assert_eq!(inner.n_tiny_droplet_misses, 20);
    assert_eq!(inner.n_misses, 2);
}

#[test]
fn unknown_hitresults_are_completed_to_a_full_score() {
    let attributes = attributes();
    let inner = FruitsPP::new(attributes).assert_hitresults(attributes);

    assert_eq!(inner.n_fruits, 1234);
    assert_eq!(inner.n_droplets, 567);
    assert_eq!(inner.n_tiny_droplets, 2345);
    assert_eq!(inner.n_tiny_droplet_misses, 0);
    assert_eq!(inner.n_misses, 0);
}

#[test]
fn completed_counts_add_up_to_the_chart() {
    let attributes = attributes();

    for (fruits, droplets, tinies, tiny_misses, misses) in [
        (None, None, None, None, 0),
        (Some(1000), None, None, None, 7),
        (None, Some(500), Some(10), None, 0),
        (Some(0), Some(0), Some(0), Some(0), 1801),
        (Some(1234), Some(567), Some(2345), Some(0), 0),
        (Some(100), Some(567), None, Some(2345), 30),
    ] {
        let mut calculator = FruitsPP::new(attributes).misses(misses);
        if let Some(n) = fruits {
            calculator = calculator.fruits(n);
        }
        if let Some(n) = droplets {
            calculator = calculator.droplets(n);
        }
        if let Some(n) = tinies {
            calculator = calculator.tiny_droplets(n);
        }
        if let Some(n) = tiny_misses {
            calculator = calculator.tiny_droplet_misses(n);
        }
        let inner = calculator.assert_hitresults(attributes);

        assert_eq!(
            inner.n_fruits + inner.n_droplets + inner.n_misses,
            attributes.max_combo
        );
        assert_eq!(
            inner.n_tiny_droplets + inner.n_tiny_droplet_misses,
            attributes.n_tiny_droplets
        );
    }
}

#[test]
fn counts_beyond_the_chart_are_kept() {
    let attributes = attributes();
    let inner = FruitsPP::new(attributes)
        .fruits(2000)
        .droplets(600)
        .tiny_droplets(3000)
        .tiny_droplet_misses(1)
        .misses(4)
        .assert_hitresults(attributes);

    assert_eq!(inner.n_fruits, 2000);
    assert_eq!(inner.n_droplets, 600);
    assert_eq!(inner.n_tiny_droplets, 3000);
    assert_eq!(inner.n_tiny_droplet_misses, 1);
    assert_eq!(inner.n_misses, 4);
}

#[test]
fn target_hits_round_to_the_nearest_count() {
    // 97.5 % of 4146 objects are 4042.35
    assert_eq!(target_hits_rounded(9750, 1801, 2345), 4042);
    // a half goes upwards: 50 % of 3 objects are 1.5
    assert_eq!(target_hits_rounded(5000, 1, 2), 2);
    // just below a half goes downwards: 49.99 % of 3 objects are 1.4997
    assert_eq!(target_hits_rounded(4999, 1, 2), 1);
    assert_eq!(target_hits_rounded(0, 1801, 2345), 0);
    assert_eq!(target_hits_rounded(10_000, 1801, 2345), 4146);
    assert_eq!(target_hits_rounded(10_000, 0, 0), 0);
    // the largest count is not exceeded
    assert_eq!(target_hits_rounded(u32::MAX, usize::MAX, usize::MAX), usize::MAX);
}

#[test]
fn accuracy_fills_the_unknown_counts() {
    let calculator = FruitsPP::new(attributes()).accuracy(9750);

    assert_eq!(calculator.n_droplets, Some(567));
    assert_eq!(calculator.n_fruits, Some(1234));
    assert_eq!(calculator.n_tiny_droplets, Some(2241));
    assert_eq!(calculator.n_tiny_droplet_misses, Some(104));
    assert_eq!(calculator.n_misses, 0);
}

#[test]
fn accuracy_takes_misses_from_droplets_first() {
    let calculator = FruitsPP::new(attributes()).misses(10).accuracy(10_000);

    assert_eq!(calculator.n_droplets, Some(557));
    assert_eq!(calculator.n_fruits, Some(1234));
    assert_eq!(calculator.n_tiny_droplets, Some(4146 - 1234 - 557));
    assert_eq!(calculator.n_tiny_droplet_misses, Some(0));
}

#[test]
fn accuracy_keeps_the_counts_that_were_given() {
    let calculator = FruitsPP::new(attributes())
        .fruits(1200)
        .droplets(550)
        .tiny_droplets(2222)
        .tiny_droplet_misses(7)
        .accuracy(9750);

    assert_eq!(calculator.n_fruits, Some(1200));
    assert_eq!(calculator.n_droplets, Some(550));
    assert_eq!(calculator.n_tiny_droplets, Some(2222));
    assert_eq!(calculator.n_tiny_droplet_misses, Some(123));
}

#[test]
fn accuracy_of_nothing_and_of_everything() {
    let none = FruitsPP::new(attributes()).accuracy(0);
    assert_eq!(none.n_tiny_droplets, Some(0));
    assert_eq!(none.n_tiny_droplet_misses, Some(2345));

    let all = FruitsPP::new(attributes()).accuracy(10_000);
    assert_eq!(all.n_tiny_droplets, Some(2345));
    assert_eq!(all.n_tiny_droplet_misses, Some(0));

    let beyond = FruitsPP::new(attributes()).accuracy(u32::MAX);
    assert_eq!(beyond.n_tiny_droplet_misses, Some(0));
}

#[test]
fn accuracy_round_trip_stays_within_one_point() {
    let attributes = attributes();
    let total = attributes.max_combo + attributes.n_tiny_droplets;

    for acc in (4400..=10_000u32).step_by(7) {
        let rated = FruitsPP::new(attributes).accuracy(acc).calculate();
        let share = rated.accuracy;

        assert_eq!(share.denom, total);
        let asked = acc as i128 * share.denom as i128;
        let got = 10_000 * share.numer as i128;
        assert!(
            100 * (asked - got).abs() <= 10_000 * share.denom as i128,
            "Expected: {} | Actual: {}",
            acc,
            got / share.denom as i128
        );
    }
}

#[test]
fn accuracy_conserves_the_counts_of_the_chart() {
    let attributes = attributes();

    for acc in [4400u32, 5000, 7321, 9750, 9999, 10_000] {
        let calculator = FruitsPP::new(attributes).accuracy(acc);

        assert_eq!(
            calculator.n_fruits.unwrap() + calculator.n_droplets.unwrap() + calculator.n_misses,
            attributes.max_combo
        );
        assert_eq!(
            calculator.n_tiny_droplets.unwrap() + calculator.n_tiny_droplet_misses.unwrap(),
            attributes.n_tiny_droplets
        );
    }
}

#[test]
fn rating_of_a_full_score() {
    let attributes = attributes();
    let rated = FruitsPP::new(attributes).calculate();

    assert_eq!(
        rated,
        FruitsPerformanceAttributes {
            attributes,
            length_hits: 1801,
            n_misses: 0,
            combo_scaling: Ratio { numer: 1, denom: 1 },
            accuracy: Ratio {
                numer: 4146,
                denom: 4146
            },
            hidden: false,
            flashlight: false,
            no_fail: false,
        }
    );
}

#[test]
fn rating_reads_counts_ratios_and_switches() {
    let attributes = attributes();
    let rated = FruitsPP::new(attributes)
        .mods(1 + 8 + 1024)
        .combo(900)
        .fruits(1224)
        .droplets(562)
        .tiny_droplets(2295)
        .tiny_droplet_misses(20)
        .misses(2)
        .calculate();

    assert_eq!(rated.attributes, attributes);
    assert_eq!(rated.length_hits, 1801);
    assert_eq!(rated.n_misses, 2);
    assert_eq!(
        rated.combo_scaling,
        Ratio {
            numer: 900,
            denom: 1801
        }
    );
    assert_eq!(
        rated.accuracy,
        Ratio {
            numer: 1232 + 567 + 2325,
            denom: 1232 + 567 + 2325 + 20 + 2
        }
    );
    assert!(rated.hidden);
    assert!(rated.flashlight);
    assert!(rated.no_fail);
}

#[test]
fn combo_scaling_never_exceeds_one() {
    let attributes = attributes();

    for combo in [0usize, 1, 900, 1800, 1801, 1802, 5000, usize::MAX] {
        let scaling = FruitsPP::new(attributes)
            .combo(combo)
            .calculate()
            .combo_scaling;

        assert!(scaling.denom > 0);
        assert!(scaling.numer <= scaling.denom);
        if combo >= attributes.max_combo {
            assert_eq!(scaling.numer, scaling.denom);
        } else {
            assert_eq!(scaling.numer, combo);
            assert_eq!(scaling.denom, attributes.max_combo);
        }
    }
}

#[test]
fn combo_scaling_is_one_without_a_combo() {
    let unknown = FruitsPP::new(attributes()).calculate();
    assert_eq!(unknown.combo_scaling, Ratio { numer: 1, denom: 1 });

    let empty = FruitsPP::new(FruitsDifficultyAttributes::default())
        .combo(0)
        .calculate();
    assert_eq!(empty.combo_scaling, Ratio { numer: 1, denom: 1 });
}

#[test]
fn empty_chart_has_full_accuracy() {
    let attributes = FruitsDifficultyAttributes::default();
    let inner = FruitsPP::new(attributes).assert_hitresults(attributes);

    assert_eq!(inner.combo_hits(), 0);
    assert_eq!(inner.successful_hits(), 0);
    assert_eq!(inner.total_hits(), 0);
    assert_eq!(inner.acc(), Ratio { numer: 1, denom: 1 });

    let rated = inner.calculate();
    assert_eq!(rated.length_hits, 0);
    assert_eq!(rated.accuracy, Ratio { numer: 1, denom: 1 });
}

#[test]
fn hits_are_counted_by_what_they_bear_on() {
    let attributes = attributes();
    let inner = FruitsPP::new(attributes)
        .fruits(1000)
        .droplets(500)
        .tiny_droplets(2000)
        .tiny_droplet_misses(345)
        .misses(301)
        .assert_hitresults(attributes);

    assert_eq!(inner.combo_hits(), 1801);
    assert_eq!(inner.successful_hits(), 3500);
    assert_eq!(inner.total_hits(), 4146);
    assert_eq!(
        inner.acc(),
        Ratio {
            numer: 3500,
            denom: 4146
        }
    );
    assert!(inner.check_counts());
}

#[test]
fn counts_that_do_not_fit_are_told() {
    let attributes = attributes();
    let inner = FruitsPP::new(attributes)
        .fruits(usize::MAX)
        .misses(1)
        .assert_hitresults(attributes);

    assert!(!inner.check_counts());
}

#[test]
fn length_bonus_grows_with_the_chart_where_the_score_is_empty() {
    let attributes = attributes();
    let rated = FruitsPP::new(attributes)
        .fruits(0)
        .droplets(0)
        .misses(0)
        .tiny_droplets(0)
        .tiny_droplet_misses(2345)
        .calculate();

    // the completion makes up for the combo objects that were left out
    assert_eq!(rated.length_hits, 1801);

    let over = FruitsPP::new(attributes)
        .fruits(3000)
        .droplets(0)
        .calculate();
    assert_eq!(over.length_hits, 3000);
}

#[test]
fn score_without_combo_hits_is_as_long_as_the_chart() {
    let attributes = attributes();
    let inner = FruitsPPInner {
        attributes,
        mods: 0,
        combo: None,
        n_fruits: 0,
        n_droplets: 0,
        n_tiny_droplets: 5,
        n_tiny_droplet_misses: 0,
        n_misses: 0,
    };

    assert_eq!(inner.combo_hits(), 0);
    assert_eq!(inner.calculate().length_hits, 1801);
}
