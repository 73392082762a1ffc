use book_exercises::guessing_game::{GuessReply, GuessingGame, TRIES_PER_GAME};

#[test]
fn a_fresh_game_has_five_tries() {
    let game = GuessingGame::new(42);
    assert_eq!(game.tries_left, TRIES_PER_GAME);
    assert_eq!(game.secret, 42);
    assert!(!game.out_of_tries());
}

#[test]
fn replies_say_how_the_guess_compares() {
    let mut game = GuessingGame::new(42);
    assert_eq!(game.guess(10), GuessReply::TooSmall);
    assert_eq!(game.guess(90), GuessReply::TooBig);
    assert_eq!(game.guess(42), GuessReply::Win);
    assert_eq!(game.tries_left, 2);
}

#[test]
fn five_wrong_guesses_exhaust_the_game() {
    let mut game = GuessingGame::new(50);
    let mut turns: u32 = 0;
    while !game.out_of_tries() {
        let reply = game.guess(1);
        assert_eq!(reply, GuessReply::TooSmall);
        turns += 1;
    }
    assert_eq!(turns, 5);
    assert!(game.out_of_tries());
}

#[test]
fn a_malformed_answer_spends_a_try_too() {
    let mut game = GuessingGame::new(7);
    game.skip_turn();
    assert_eq!(game.tries_left, 4);
    assert_eq!(game.secret, 7);
}

#[test]
fn random_games_draw_their_secret_from_one_to_a_hundred() {
    for _ in 0..32 {
        let game = GuessingGame::new_random();
        assert!(1 <= game.secret && game.secret <= 100);
        assert_eq!(game.tries_left, TRIES_PER_GAME);
    }
}

#[test]
fn boundary_secrets_are_judged_like_any_other() {
    let mut low = GuessingGame::new(1);
    assert_eq!(low.guess(1), GuessReply::Win);
    let mut high = GuessingGame::new(100);
    assert_eq!(high.guess(99), GuessReply::TooSmall);
    assert_eq!(high.guess(100), GuessReply::Win);
}
