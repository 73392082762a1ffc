//! Pattern matching on enums: sorting coins, bumping an optional number,
//! and deciding what a dice roll does to the player.

use vstd::prelude::*;

verus! {

/// The state stamped on the back of a quarter.
#[derive(Debug, PartialEq, Eq, Structural)]
pub enum UsState {
    Alabama,
    Alaska,
    AllTheOtherOnesImLazy,
}

/// A United States coin; quarters carry their state design.
#[derive(Debug, PartialEq, Eq, Structural)]
pub enum Coin {
    Penny,
    Nickel,
    Dime,
    Quarter(UsState),
}

/// The worth of a single coin in cents.
pub open spec fn coin_value(coin: Coin) -> int {
    match coin {
        Coin::Penny => 1,
        Coin::Nickel => 5,
        Coin::Dime => 10,
        Coin::Quarter(_) => 25,
    }
}

/// The worth of a pile of coins in cents.
pub open spec fn total_cents(coins: Seq<Coin>) -> int
    decreases coins.len(),
{
    if coins.len() == 0 {
        0
    } else {
        total_cents(coins.drop_last()) + coin_value(coins.last())
    }
}

/// A pile of coins is never worth more than a quarter apiece.
proof fn lemma_total_cents_bound(coins: Seq<Coin>)
    ensures
        0 <= total_cents(coins) <= 25 * coins.len(),
    decreases coins.len(),
{
    if coins.len() > 0 {
        lemma_total_cents_bound(coins.drop_last());
    }
}

/// Tells a coin's worth in cents: 1 for a penny, 5 for a nickel,
/// 10 for a dime, 25 for a quarter from any state.
pub fn value_in_cents(coin: &Coin) -> (r: u16)
    ensures
        r == coin_value(*coin),
{
    match coin {
        Coin::Penny => 1u16,
        Coin::Nickel => 5u16,
        Coin::Dime => 10u16,
        Coin::Quarter(_state) => 25u16,
    }
}

/// Tallies a fixed handful of change: two pennies, a nickel, a dime
/// and three quarters come to 92 cents.
pub fn coin_example_code() -> (my_total: u16)
    ensures
        my_total == 92,
{
    let mut my_change: Vec<Coin> = Vec::new();
    my_change.push(Coin::Penny);
    my_change.push(Coin::Quarter(UsState::Alabama));
    my_change.push(Coin::Penny);
    my_change.push(Coin::Nickel);
    my_change.push(Coin::Quarter(UsState::AllTheOtherOnesImLazy));
    my_change.push(Coin::Dime);
    my_change.push(Coin::Quarter(UsState::Alaska));

    let mut counter: usize = 0;
    let mut my_total: u16 = 0;
    loop
        invariant
            counter <= my_change@.len(),
            my_change@.len() == 7,
            my_change@ == piles_of_change(),
            my_total == total_cents(my_change@.take(counter as int)),
            my_total <= 25 * counter,
        ensures
            my_total == total_cents(my_change@),
        decreases my_change@.len() - counter,
    {
        if counter == my_change.len() {
            proof {
                assert(my_change@.take(counter as int) =~= my_change@);
            }
            break;
        }
        proof {
            lemma_total_cents_bound(my_change@.take(counter as int));
            assert(my_change@.take(counter as int + 1).drop_last() =~= my_change@.take(
                counter as int,
            ));
        }
        my_total = my_total + value_in_cents(&my_change[counter]);
        counter = counter + 1;
    }
    proof {
        lemma_piles_of_change_total();
    }
    my_total
}

/// The handful of change that `coin_example_code` counts.
pub open spec fn piles_of_change() -> Seq<Coin> {
    seq![
        Coin::Penny,
        Coin::Quarter(UsState::Alabama),
        Coin::Penny,
        Coin::Nickel,
        Coin::Quarter(UsState::AllTheOtherOnesImLazy),
        Coin::Dime,
        Coin::Quarter(UsState::Alaska),
    ]
}

/// Counting that handful coin by coin comes to 92 cents.
proof fn lemma_piles_of_change_total()
    ensures
        total_cents(piles_of_change()) == 92,
{
    let s = piles_of_change();
    assert(s.drop_last().drop_last().drop_last().drop_last().drop_last().drop_last().drop_last()
        =~= Seq::<Coin>::empty());
    reveal_with_fuel(total_cents, 8);
}

/// Adds one to the number inside a `Some`, and leaves a `None` alone.
pub fn plus_one(x: Option<i32>) -> (r: Option<i32>)
    requires
        x matches Some(i) ==> i < i32::MAX,
    ensures
        x is None ==> r is None,
        x matches Some(i) ==> r matches Some(j) && j == i + 1,
{
    match x {
        None => None,
        Some(i) => Some(i + 1i32),
    }
}

/// What a dice roll does to the player.
#[derive(Debug, PartialEq, Eq, Structural)]
pub enum DiceAction {
    GainFancyHat,
    LoseFancyHat,
    MovePlayer(u8),
}

/// A roll of 3 wins a fancy hat, a roll of 7 loses one, and any other
/// roll moves the player that many spaces.
pub fn dice_roll_logic(roll: &u8) -> (action: DiceAction)
    ensures
        action == match *roll {
            3u8 => DiceAction::GainFancyHat,
            7u8 => DiceAction::LoseFancyHat,
            other => DiceAction::MovePlayer(other),
        },
{
    match roll {
        3u8 => DiceAction::GainFancyHat,
        7u8 => DiceAction::LoseFancyHat,
        other => DiceAction::MovePlayer(*other),
    }
}

/// Plays out four fixed rolls - 9, 1, 3 and 7 - and reports what each
/// one did: two moves, then a hat gained, then a hat lost.
pub fn dice_example_code() -> (actions: Vec<DiceAction>)
    ensures
        actions@ == seq![
            DiceAction::MovePlayer(9u8),
            DiceAction::MovePlayer(1u8),
            DiceAction::GainFancyHat,
            DiceAction::LoseFancyHat,
        ],
{
    let mut actions: Vec<DiceAction> = Vec::new();
    let mut dice_roll: u8 = 9;
    actions.push(dice_roll_logic(&dice_roll));
    dice_roll = 1;
    actions.push(dice_roll_logic(&dice_roll));
    dice_roll = 3;
    actions.push(dice_roll_logic(&dice_roll));
    dice_roll = 7;
    actions.push(dice_roll_logic(&dice_roll));
    proof {
        assert(actions@ =~= seq![
            DiceAction::MovePlayer(9u8),
            DiceAction::MovePlayer(1u8),
            DiceAction::GainFancyHat,
            DiceAction::LoseFancyHat,
        ]);
    }
    actions
}

} // verus!
