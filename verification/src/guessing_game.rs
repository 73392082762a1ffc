//! The number-guessing game: a secret between 1 and 100, five tries,
//! and a reply after every guess. Drawing the secret is the one thing
//! left to chance; everything the game decides is verified.

use vstd::prelude::*;

use rand::Rng;

verus! {

/// How many tries a fresh game hands out.
pub const TRIES_PER_GAME: u8 = 5;

/// What the game says about a guess.
#[derive(Debug, PartialEq, Eq, Structural)]
pub enum GuessReply {
    TooSmall,
    TooBig,
    Win,
}

/// One round of the guessing game: a secret number and the tries that
/// remain.
#[derive(Debug, Clone, Copy, PartialEq, Eq, Structural)]
pub struct GuessingGame {
    pub secret: u32,
    pub tries_left: u8,
}

/// What the game replies to a guess: too small, too big, or a win.
pub open spec fn spec_reply(game: GuessingGame, guess: u32) -> GuessReply {
    if guess < game.secret {
        GuessReply::TooSmall
    } else if guess > game.secret {
        GuessReply::TooBig
    } else {
        GuessReply::Win
    }
}

/// The game after one turn is spent, whether on a judged guess or on a
/// line that never became one: the secret stays, one try goes.
pub open spec fn spec_after_turn(game: GuessingGame) -> GuessingGame {
    GuessingGame { secret: game.secret, tries_left: (game.tries_left - 1) as u8 }
}

/// The game after a number of turns are spent, one after another.
pub open spec fn spec_after_turns(game: GuessingGame, turns: nat) -> GuessingGame
    decreases turns,
{
    if turns == 0 {
        game
    } else {
        spec_after_turn(spec_after_turns(game, (turns - 1) as nat))
    }
}

/// Turns spend tries one for one and never touch the secret, as long as
/// there are tries to spend.
pub proof fn lemma_turns_spend_tries(game: GuessingGame, turns: nat)
    requires
        turns <= game.tries_left,
    ensures
        spec_after_turns(game, turns).secret == game.secret,
        spec_after_turns(game, turns).tries_left == game.tries_left - turns,
    decreases turns,
{
    if turns > 0 {
        lemma_turns_spend_tries(game, (turns - 1) as nat);
    }
}

/// A fresh game is out of tries after five turns, however they were
/// spent, so a prompt loop that stops on an exhausted game ends within
/// five rounds or reports the loss.
pub proof fn lemma_five_turns_exhaust_a_game(game: GuessingGame)
    requires
        game.tries_left == TRIES_PER_GAME,
    ensures
        spec_after_turns(game, TRIES_PER_GAME as nat).tries_left == 0,
{
    lemma_turns_spend_tries(game, TRIES_PER_GAME as nat);
}

/// Relies on rand::thread_rng and rand::Rng::gen_range: a sample from a
/// nonempty inclusive range lies within that range. gen_range panics
/// only on an empty range, which the precondition rules out; nothing
/// more can be promised of a random draw.
#[verifier::external_body]
fn random_in_range(lo: u32, hi: u32) -> (r: u32)
    requires
        lo <= hi,
    ensures
        lo <= r <= hi,
{
    rand::thread_rng().gen_range(lo..=hi)
}

impl GuessingGame {
    /// A game is in good standing while its secret stays in range and
    /// it has given out no extra tries.
    pub open spec fn wf(self) -> bool {
        1 <= self.secret <= 100 && self.tries_left <= TRIES_PER_GAME
    }

    /// Starts a game around a known secret, with all five tries ahead.
    pub fn new(secret: u32) -> (game: GuessingGame)
        requires
            1 <= secret <= 100,
        ensures
            game.wf(),
            game.secret == secret,
            game.tries_left == TRIES_PER_GAME,
    {
        GuessingGame { secret, tries_left: TRIES_PER_GAME }
    }

    /// Starts a game around a secret drawn at random from 1 to 100.
    pub fn new_random() -> (game: GuessingGame)
        ensures
            game.wf(),
            game.tries_left == TRIES_PER_GAME,
    {
        let secret = random_in_range(1, 100);
        GuessingGame { secret, tries_left: TRIES_PER_GAME }
    }

    /// Judges one guess. The try is spent either way, and the reply
    /// says exactly how the guess compares with the secret, so the game
    /// can last at most five rounds before the tries run out.
    pub fn guess(&mut self, guess: u32) -> (reply: GuessReply)
        requires
            old(self).wf(),
            old(self).tries_left > 0,
        ensures
            final(self).wf(),
            *final(self) == spec_after_turn(*old(self)),
            final(self).secret == old(self).secret,
            final(self).tries_left == old(self).tries_left - 1,
            reply == spec_reply(*old(self), guess),
            (reply == GuessReply::Win) <==> (guess == old(self).secret),
            (reply == GuessReply::TooSmall) <==> (guess < old(self).secret),
            (reply == GuessReply::TooBig) <==> (guess > old(self).secret),
    {
        self.tries_left = self.tries_left - 1;
        if guess < self.secret {
            GuessReply::TooSmall
        } else if guess > self.secret {
            GuessReply::TooBig
        } else {
            GuessReply::Win
        }
    }

    /// Spends a try on a line that never became a guess, the way a
    /// malformed answer costs a round at the prompt.
    pub fn skip_turn(&mut self)
        requires
            old(self).wf(),
            old(self).tries_left > 0,
        ensures
            final(self).wf(),
            *final(self) == spec_after_turn(*old(self)),
            final(self).secret == old(self).secret,
            final(self).tries_left == old(self).tries_left - 1,
    {
        self.tries_left = self.tries_left - 1;
    }

    /// Whether the game is out of tries.
    pub fn out_of_tries(&self) -> (over: bool)
        ensures
            over == (self.tries_left == 0),
    {
        self.tries_left == 0
    }
}

} // verus!
