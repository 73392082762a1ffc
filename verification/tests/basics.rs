use book_exercises::control_flow::{
    conditional, conditional_let, for_loop, labeled_loop, loop_loop, val_loop, while_loop,
    SizeDescription,
};
use book_exercises::fibonacci::generate_fibonacci;
use book_exercises::functions::five_or_fifteen;

#[test]
fn five_or_fifteen_picks_five_for_small_inputs() {
    assert_eq!(five_or_fifteen(8), 5);
    assert_eq!(five_or_fifteen(2), 5);
    assert_eq!(five_or_fifteen(10), 5);
}

#[test]
fn five_or_fifteen_picks_fifteen_over_ten() {
    assert_eq!(five_or_fifteen(20), 15);
    assert_eq!(five_or_fifteen(11), 15);
}

#[test]
fn conditional_places_numbers_in_their_ranges() {
    assert_eq!(conditional(8), SizeDescription::FiveToTen);
    assert_eq!(conditional(15), SizeDescription::OverTen);
    assert_eq!(conditional(1), SizeDescription::LessThanFive);
    assert_eq!(conditional(5), SizeDescription::FiveToTen);
    assert_eq!(conditional(10), SizeDescription::FiveToTen);
    assert_eq!(conditional(11), SizeDescription::OverTen);
}

#[test]
fn conditional_let_names_even_and_odd() {
    assert_eq!(conditional_let(8), "even");
    assert_eq!(conditional_let(16), "even");
    assert_eq!(conditional_let(1), "odd");
    assert_eq!(conditional_let(11), "odd");
    assert_eq!(conditional_let(0), "even");
}

#[test]
fn loop_loop_counts_down_to_zero() {
    assert_eq!(loop_loop(8), vec![8, 7, 6, 5, 4, 3, 2, 1, 0]);
    assert_eq!(loop_loop(3), vec![3, 2, 1, 0]);
    assert_eq!(loop_loop(0), vec![0]);
}

#[test]
fn val_loop_finds_the_last_entry_divisible_by_four() {
    assert_eq!(val_loop([1, 2, 3, 4, 5]), Some(4));
    assert_eq!(val_loop([3, 19, 18, 16, 3]), Some(16));
    assert_eq!(val_loop([1, 1, 1, 1, 1]), None);
}

#[test]
fn val_loop_never_examines_the_front_entry() {
    assert_eq!(val_loop([4, 1, 1, 1, 1]), None);
    assert_eq!(val_loop([4, 8, 1, 1, 1]), Some(8));
}

#[test]
fn labeled_loop_always_counts_to_two() {
    assert_eq!(labeled_loop(), 2);
}

#[test]
fn while_loop_counts_down_but_stops_before_zero() {
    assert_eq!(while_loop(3), vec![3, 2, 1]);
    assert_eq!(while_loop(10).len(), 10);
    assert_eq!(while_loop(0), Vec::<u8>::new());
}

#[test]
fn for_loop_walks_the_six_number_words() {
    assert_eq!(for_loop(), vec!["one", "two", "three", "four", "five", "six"]);
}

#[test]
fn fibonacci_small_inputs_answer_directly() {
    assert_eq!(generate_fibonacci(0), vec![0]);
    assert_eq!(generate_fibonacci(1), vec![1]);
}

#[test]
fn fibonacci_sequence_matches_the_closed_form() {
    assert_eq!(generate_fibonacci(4), vec![0, 1, 1, 2, 3]);
    assert_eq!(
        generate_fibonacci(10),
        vec![0, 1, 1, 2, 3, 5, 8, 13, 21, 34, 55]
    );
}

#[test]
fn fibonacci_fiftieth_number() {
    let sequence = generate_fibonacci(50);
    assert_eq!(sequence.len(), 51);
    assert_eq!(sequence[50], 12586269025);
}
