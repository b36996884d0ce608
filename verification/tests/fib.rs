use std::collections::HashMap;

use verified_basics::fib::fib;

#[test]
fn the_first_two_are_one() {
    let mut memo = HashMap::new();
    assert_eq!(fib(1, &mut memo), 1);
    assert_eq!(fib(2, &mut memo), 1);
    assert!(memo.is_empty());
}

#[test]
fn small_values() {
    let expected: [u128; 12] = [1, 1, 2, 3, 5, 8, 13, 21, 34, 55, 89, 144];
    for (i, want) in expected.iter().enumerate() {
        let mut memo = HashMap::new();
        assert_eq!(fib(i as u128 + 1, &mut memo), *want);
    }
}

#[test]
fn the_hundredth() {
    let mut memo = HashMap::new();
    assert_eq!(fib(100, &mut memo), 354224848179261915075);
}

#[test]
fn the_last_that_fits() {
    let mut memo = HashMap::new();
    assert_eq!(fib(186, &mut memo), 332825110087067562321196029789634457848);
}

#[test]
fn the_memo_is_filled_from_three_up_to_n() {
    let mut memo = HashMap::new();
    assert_eq!(fib(6, &mut memo), 8);
    let mut want = HashMap::new();
    want.insert(3u128, 2u128);
    want.insert(4, 3);
    want.insert(5, 5);
    want.insert(6, 8);
    assert_eq!(memo, want);
}

#[test]
fn a_filled_memo_is_used_again() {
    let mut memo = HashMap::new();
    assert_eq!(fib(50, &mut memo), 12586269025);
    let filled = memo.clone();
    assert_eq!(fib(50, &mut memo), 12586269025);
    assert_eq!(fib(40, &mut memo), 102334155);
    assert_eq!(memo, filled);
    assert_eq!(fib(52, &mut memo), 32951280099);
    assert_eq!(memo.len(), filled.len() + 2);
}

#[test]
fn entries_of_the_memo_are_taken_as_given() {
    let mut memo = HashMap::new();
    memo.insert(5u128, 100u128);
    assert_eq!(fib(6, &mut memo), 103);
    assert_eq!(memo.get(&6), Some(&103));
    assert_eq!(memo.get(&5), Some(&100));
    assert_eq!(memo.get(&4), Some(&3));
    assert_eq!(memo.get(&3), Some(&2));
    assert_eq!(memo.len(), 4);
}

#[test]
fn a_known_value_is_handed_out_as_it_stands() {
    let mut memo = HashMap::new();
    memo.insert(300u128, 7u128);
    memo.insert(0u128, 9u128);
    assert_eq!(fib(300, &mut memo), 7);
    assert_eq!(fib(0, &mut memo), 9);
    assert_eq!(memo.len(), 2);
}

#[test]
fn one_and_two_do_not_look_at_the_memo() {
    let mut memo = HashMap::new();
    memo.insert(1u128, 50u128);
    memo.insert(2u128, 60u128);
    assert_eq!(fib(1, &mut memo), 1);
    assert_eq!(fib(2, &mut memo), 1);
    assert_eq!(fib(3, &mut memo), 2);
}
