use std::cell::Cell;

use verified_basics::closures::{
    accept_closure_int, accept_closure_string, capturing_environment, generate_workout,
    move_keyword, one_type_inference_per_closure_def, pass_closure, Cacher, Workout,
};

#[test]
fn identity_is_computed_once_per_key() {
    let calls = Cell::new(0u32);
    let mut cacher = Cacher::new(|n: u32| {
        calls.set(calls.get() + 1);
        n
    });

    assert_eq!(cacher.value(4), 4);
    assert_eq!(calls.get(), 1);

    assert_eq!(cacher.value(4), 4);
    assert_eq!(calls.get(), 1);

    assert_eq!(cacher.value(19), 19);
    assert_eq!(calls.get(), 2);
}

#[test]
fn repeated_lookup_computes_once_and_repeats_the_value() {
    let calls = Cell::new(0u32);
    let mut cacher = Cacher::new(|n: u32| {
        calls.set(calls.get() + 1);
        n * 3 + 1
    });
    let first = cacher.value(7);
    let second = cacher.value(7);
    assert_eq!(first, 22);
    assert_eq!(second, 22);
    assert_eq!(calls.get(), 1);
}

#[test]
fn stored_value_wins_over_a_calculation_that_changes() {
    let calls = Cell::new(0u32);
    let mut cacher = Cacher::new(|n: u32| {
        calls.set(calls.get() + 1);
        n + calls.get()
    });
    assert_eq!(cacher.value(10), 11);
    assert_eq!(cacher.value(10), 11);
    assert_eq!(cacher.value(20), 22);
    assert_eq!(cacher.value(10), 11);
    assert_eq!(calls.get(), 2);
}

#[test]
fn a_cached_key_does_not_answer_for_another() {
    let calls = Cell::new(0u32);
    let mut cacher = Cacher::new(|n: u32| {
        calls.set(calls.get() + 1);
        n * 2
    });
    assert_eq!(cacher.value(1), 2);
    assert_eq!(calls.get(), 1);
    assert_eq!(cacher.value(2), 4);
    assert_eq!(calls.get(), 2);
    assert_eq!(cacher.value(1), 2);
    assert_eq!(cacher.value(2), 4);
    assert_eq!(calls.get(), 2);
}

#[test]
fn interleaved_lookups_compute_once_per_key_in_either_order() {
    let calls = Cell::new(0u32);
    let mut cacher = Cacher::new(|n: u32| {
        calls.set(calls.get() + 1);
        n + 100
    });
    assert_eq!(cacher.value(5), 105);
    assert_eq!(cacher.value(6), 106);
    assert_eq!(cacher.value(5), 105);
    assert_eq!(calls.get(), 2);

    let calls = Cell::new(0u32);
    let mut cacher = Cacher::new(|n: u32| {
        calls.set(calls.get() + 1);
        n + 100
    });
    assert_eq!(cacher.value(6), 106);
    assert_eq!(cacher.value(5), 105);
    assert_eq!(cacher.value(6), 106);
    assert_eq!(calls.get(), 2);
}

#[test]
fn a_long_run_computes_each_distinct_key_once() {
    let calls = Cell::new(0u32);
    let mut cacher = Cacher::new(|n: u32| {
        calls.set(calls.get() + 1);
        n % 7
    });
    let args = [3u32, 9, 3, 3, 0, 9, u32::MAX, 0, 12, 3];
    for arg in args {
        assert_eq!(cacher.value(arg), arg % 7);
    }
    assert_eq!(calls.get(), 5);
}

#[test]
fn the_edges_of_the_argument_range_are_cached_too() {
    let calls = Cell::new(0u32);
    let mut cacher = Cacher::new(|n: u32| {
        calls.set(calls.get() + 1);
        u32::MAX - n
    });
    assert_eq!(cacher.value(0), u32::MAX);
    assert_eq!(cacher.value(u32::MAX), 0);
    assert_eq!(cacher.value(0), u32::MAX);
    assert_eq!(cacher.value(u32::MAX), 0);
    assert_eq!(calls.get(), 2);
}

#[test]
fn a_new_cacher_has_computed_nothing() {
    let calls = Cell::new(0u32);
    let _cacher = Cacher::new(|n: u32| {
        calls.set(calls.get() + 1);
        n
    });
    assert_eq!(calls.get(), 0);
}

#[test]
fn low_intensity_gives_strength_from_one_calculation() {
    let calls = Cell::new(0u32);
    let plan = generate_workout(
        |_num: u32| {
            calls.set(calls.get() + 1);
            10
        },
        10,
        7,
    );
    assert_eq!(plan, Workout::Strength { pushups: 10, situps: 10 });
    assert_eq!(calls.get(), 1);
}

#[test]
fn intensity_24_is_still_strength() {
    let plan = generate_workout(|num: u32| num + 1, 24, 3);
    assert_eq!(plan, Workout::Strength { pushups: 25, situps: 25 });
}

#[test]
fn high_intensity_with_the_lucky_number_is_a_rest_day() {
    let calls = Cell::new(0u32);
    let plan = generate_workout(
        |num: u32| {
            calls.set(calls.get() + 1);
            num
        },
        25,
        3,
    );
    assert_eq!(plan, Workout::Rest);
    assert_eq!(calls.get(), 0);
}

#[test]
fn high_intensity_otherwise_is_a_run() {
    let calls = Cell::new(0u32);
    let plan = generate_workout(
        |num: u32| {
            calls.set(calls.get() + 1);
            num * 2
        },
        30,
        7,
    );
    assert_eq!(plan, Workout::Run { minutes: 60 });
    assert_eq!(calls.get(), 1);
}

#[test]
fn closures_are_called_with_what_the_functions_say() {
    let seen = Cell::new(0u32);
    accept_closure_int(|x: u32| {
        seen.set(x);
        x
    });
    assert_eq!(seen.get(), 3);

    let heard = Cell::new(false);
    accept_closure_string(|text: String| {
        heard.set(text == "hello");
        text
    });
    assert!(heard.get());
}

#[test]
fn closure_walkthroughs_run_to_their_end() {
    one_type_inference_per_closure_def();
    pass_closure();
    capturing_environment();
    move_keyword();
}
