use book_exercises::patterns::{
    coin_example_code, dice_example_code, dice_roll_logic, plus_one, value_in_cents, Coin,
    DiceAction, UsState,
};
use book_exercises::rectangles::{area, struc_area, tup_area, Rectangle};
use book_exercises::users::{build_user, AlwaysEqual, _unit_like_structs_without_any_fields};

#[test]
fn area_of_a_thirty_by_fifty_rectangle() {
    assert_eq!(area(30, 50), 1500);
    assert_eq!(tup_area((30, 50)), 1500);
    let rect1 = Rectangle {
        width: 30,
        height: 50,
    };
    assert_eq!(struc_area(&rect1), 1500);
    assert_eq!(rect1.area(), 1500);
}

#[test]
fn width_method_reports_a_nonzero_width() {
    let rect1 = Rectangle {
        width: 30,
        height: 50,
    };
    assert!(rect1.width());
    let flat = Rectangle {
        width: 0,
        height: 5,
    };
    assert!(!flat.width());
}

#[test]
fn can_fit_allows_a_quarter_turn() {
    let rect1 = Rectangle {
        width: 30,
        height: 50,
    };
    let rect2 = Rectangle {
        width: 20,
        height: 30,
    };
    let rect3 = Rectangle {
        width: 40,
        height: 20,
    };
    let rect4 = Rectangle {
        width: 50,
        height: 50,
    };
    assert!(rect1.can_fit(&rect2));
    assert!(rect1.can_fit(&rect3));
    assert!(!rect1.can_fit(&rect4));
}

#[test]
fn square_uses_one_size_for_both_sides() {
    let square1 = Rectangle::square(20);
    assert_eq!(square1.width, 20);
    assert_eq!(square1.height, 20);
    let rect1 = Rectangle {
        width: 30,
        height: 50,
    };
    assert!(!square1.can_fit(&rect1));
}

#[test]
fn build_user_starts_active_with_one_sign_in() {
    let user = build_user(
        String::from("sockpuppet@fun.com"),
        String::from("sockpuppet"),
    );
    assert!(user.active);
    assert_eq!(user.username, "sockpuppet");
    assert_eq!(user.email, "sockpuppet@fun.com");
    assert_eq!(user.sign_in_count, 1);
}

#[test]
fn unit_like_structs_have_nothing_to_compare_but_themselves() {
    _unit_like_structs_without_any_fields();
    assert_eq!(AlwaysEqual, AlwaysEqual);
}

#[test]
fn value_in_cents_knows_every_coin() {
    assert_eq!(value_in_cents(&Coin::Penny), 1);
    assert_eq!(value_in_cents(&Coin::Nickel), 5);
    assert_eq!(value_in_cents(&Coin::Dime), 10);
    assert_eq!(value_in_cents(&Coin::Quarter(UsState::Alabama)), 25);
    assert_eq!(value_in_cents(&Coin::Quarter(UsState::Alaska)), 25);
}

#[test]
fn the_handful_of_change_comes_to_ninety_two_cents() {
    assert_eq!(coin_example_code(), 92);
}

#[test]
fn plus_one_bumps_a_some_and_keeps_a_none() {
    assert_eq!(plus_one(Some(5)), Some(6));
    assert_eq!(plus_one(None), None);
    assert_eq!(plus_one(Some(-1)), Some(0));
}

#[test]
fn dice_rolls_decide_hats_and_moves() {
    assert_eq!(dice_roll_logic(&3), DiceAction::GainFancyHat);
    assert_eq!(dice_roll_logic(&7), DiceAction::LoseFancyHat);
    assert_eq!(dice_roll_logic(&9), DiceAction::MovePlayer(9));
    assert_eq!(dice_roll_logic(&1), DiceAction::MovePlayer(1));
}

#[test]
fn the_four_example_rolls_play_out_in_order() {
    assert_eq!(
        dice_example_code(),
        vec![
            DiceAction::MovePlayer(9),
            DiceAction::MovePlayer(1),
            DiceAction::GainFancyHat,
            DiceAction::LoseFancyHat,
        ]
    );
}
