use vstd::prelude::*;

use crate::secret::SecretRange;

verus! {

/// The classification of the game after a submission.
#[derive(Clone, Copy, Debug, PartialEq, Eq, Structural)]
pub enum Outcome {
    /// No guess has been evaluated yet, or the last submission was rejected.
    Pending,
    /// The last evaluated guess was below the secret.
    TooLow,
    /// The last evaluated guess was above the secret.
    TooHigh,
    /// An evaluated guess matched the secret; the game is over.
    Won,
    /// All attempts were spent without a match; the game is over.
    Lost,
}

impl Outcome {
    /// `Won` and `Lost` end the game: no transition leaves them.
    pub open spec fn is_terminal(self) -> bool {
        self == Outcome::Won || self == Outcome::Lost
    }
}

/// The guessing-game state machine: it accumulates typed digits, evaluates
/// submitted guesses against the secret, narrows the exclusive bound window
/// around the secret, and counts attempts down to a win or a loss.
#[derive(Clone, Copy, Debug, PartialEq, Eq, Structural)]
pub struct GuessEngine {
    /// The hidden target, fixed for the lifetime of the game.
    pub secret: u32,
    /// Digits typed so far, not yet submitted.
    pub accumulated_input: u64,
    /// Exclusive lower bound: the secret is known to be above this value.
    pub lower_bound: u64,
    /// Exclusive upper bound: the secret is known to be below this value.
    pub upper_bound: u64,
    /// Evaluated guesses still available before the game is lost.
    pub attempts_remaining: u32,
    /// The current classification; terminal once `Won` or `Lost`.
    pub outcome: Outcome,
}

impl GuessEngine {
    /// State invariant: while the game is running, the exclusive bound window
    /// brackets the secret and at least one attempt is left.
    pub open spec fn wf(self) -> bool {
        !self.outcome.is_terminal() ==> {
            &&& self.lower_bound < self.secret as u64
            &&& (self.secret as u64) < self.upper_bound
            &&& 1 <= self.attempts_remaining
        }
    }

    /// A submission is evaluated only while the game is running and only when
    /// the typed number is neither zero nor too large for the secret's domain.
    pub open spec fn guess_accepted(self) -> bool {
        &&& !self.outcome.is_terminal()
        &&& self.accumulated_input != 0
        &&& self.accumulated_input < u32::MAX as u64
    }

    /// A digit is appended only while the game is running and only when the
    /// grown number still fits in the accumulator.
    pub open spec fn digit_fits(self, digit: u32) -> bool {
        &&& !self.outcome.is_terminal()
        &&& self.accumulated_input < (u64::MAX - digit) / 10
    }

    /// Starts a game. The secret must lie in the range, the range must leave
    /// room below `min` for the exclusive lower bound, and at least one
    /// attempt must be granted; anything else is a configuration error.
    pub fn new(range: SecretRange, secret: u32, max_attempts: u32) -> (r: GuessEngine)
        requires
            range.wf(),
            1 <= range.min,
            range.min <= secret <= range.max,
            1 <= max_attempts,
        ensures
            r.wf(),
            r.secret == secret,
            r.accumulated_input == 0,
            r.lower_bound == range.min - 1,
            r.upper_bound == range.max + 1,
            r.attempts_remaining == max_attempts,
            r.outcome == Outcome::Pending,
    {
        GuessEngine {
            secret,
            accumulated_input: 0,
            lower_bound: (range.min - 1) as u64,
            upper_bound: range.max as u64 + 1,
            attempts_remaining: max_attempts,
            outcome: Outcome::Pending,
        }
    }

    /// Appends a decimal digit to the pending input. The digit is silently
    /// ignored when the game is over or when appending could overflow.
    pub fn append_digit(&mut self, digit: u32)
        requires
            digit <= 9,
        ensures
            final(self).accumulated_input == (if old(self).digit_fits(digit) {
                old(self).accumulated_input * 10 + digit
            } else {
                old(self).accumulated_input as int
            }),
            final(self).secret == old(self).secret,
            final(self).lower_bound == old(self).lower_bound,
            final(self).upper_bound == old(self).upper_bound,
            final(self).attempts_remaining == old(self).attempts_remaining,
            final(self).outcome == old(self).outcome,
    {
        let over = self.outcome == Outcome::Won || self.outcome == Outcome::Lost;
        if !over && self.accumulated_input < (u64::MAX - digit as u64) / 10 {
            self.accumulated_input = self.accumulated_input * 10 + digit as u64;
        }
    }

    /// The state after one submission, as a mathematical function: a rejected
    /// submission leaves the state untouched; an accepted guess is classified
    /// against the secret, tightens at most one bound toward the secret,
    /// costs one attempt, and loses the game when the last attempt is spent
    /// without a win. The pending input is cleared by an accepted guess.
    pub open spec fn submit_transition(self) -> GuessEngine {
        if !self.guess_accepted() {
            self
        } else {
            let guess = self.accumulated_input;
            let secret = self.secret as u64;
            let verdict = if guess == secret {
                Outcome::Won
            } else if guess < secret {
                Outcome::TooLow
            } else {
                Outcome::TooHigh
            };
            let lower = if guess < secret && guess > self.lower_bound {
                guess
            } else {
                self.lower_bound
            };
            let upper = if guess > secret && guess < self.upper_bound {
                guess
            } else {
                self.upper_bound
            };
            let left = if 1 <= self.attempts_remaining {
                (self.attempts_remaining - 1) as u32
            } else {
                0u32
            };
            let outcome = if verdict != Outcome::Won && left == 0 {
                Outcome::Lost
            } else {
                verdict
            };
            GuessEngine {
                secret: self.secret,
                accumulated_input: 0,
                lower_bound: lower,
                upper_bound: upper,
                attempts_remaining: left,
                outcome,
            }
        }
    }

    /// Evaluates the pending input against the secret. A submission of zero,
    /// one at or above the secret's domain, or one made after the game ended
    /// is rejected: the state is unchanged and `Pending` is returned without
    /// costing an attempt. An accepted guess is classified, tightens the
    /// bound window, costs one attempt, and its classification is returned.
    pub fn submit(&mut self) -> (r: Outcome)
        requires
            old(self).wf(),
        ensures
            *final(self) == old(self).submit_transition(),
            final(self).wf(),
            final(self).lower_bound >= old(self).lower_bound,
            final(self).upper_bound <= old(self).upper_bound,
            old(self).guess_accepted() ==> final(self).attempts_remaining
                == old(self).attempts_remaining - 1,
            !old(self).guess_accepted() ==> *final(self) == *old(self),
            r == (if old(self).guess_accepted() {
                final(self).outcome
            } else {
                Outcome::Pending
            }),
    {
        let over = self.outcome == Outcome::Won || self.outcome == Outcome::Lost;
        if over || self.accumulated_input == 0 || self.accumulated_input >= u32::MAX as u64 {
            return Outcome::Pending;
        }
        let guess: u64 = self.accumulated_input;
        let secret: u64 = self.secret as u64;
        if guess == secret {
            self.outcome = Outcome::Won;
        } else if guess < secret {
            self.outcome = Outcome::TooLow;
            if guess > self.lower_bound {
                self.lower_bound = guess;
            }
        } else {
            self.outcome = Outcome::TooHigh;
            if guess < self.upper_bound {
                self.upper_bound = guess;
            }
        }
        self.attempts_remaining = self.attempts_remaining - 1;
        if self.outcome != Outcome::Won && self.attempts_remaining == 0 {
            self.outcome = Outcome::Lost;
        }
        self.accumulated_input = 0;
        self.outcome
    }

    /// Drops the last typed digit from the pending input; a no-op at zero.
    pub fn remove_last_digit(&mut self)
        ensures
            final(self).accumulated_input == old(self).accumulated_input / 10,
            final(self).secret == old(self).secret,
            final(self).lower_bound == old(self).lower_bound,
            final(self).upper_bound == old(self).upper_bound,
            final(self).attempts_remaining == old(self).attempts_remaining,
            final(self).outcome == old(self).outcome,
    {
        self.accumulated_input = self.accumulated_input / 10;
    }
}

/// Bound monotonicity: across any session, a submission never widens the
/// bound window — the lower bound never decreases and the upper bound never
/// increases.
pub proof fn lemma_bounds_monotone(s: GuessEngine)
    ensures
        s.submit_transition().lower_bound >= s.lower_bound,
        s.submit_transition().upper_bound <= s.upper_bound,
{
}

/// Attempt conservation: an accepted guess costs exactly one attempt; a
/// rejected submission leaves the whole state, attempts included, untouched.
pub proof fn lemma_attempt_conservation(s: GuessEngine)
    requires
        s.wf(),
    ensures
        s.guess_accepted() ==> s.submit_transition().attempts_remaining
            == s.attempts_remaining - 1,
        !s.guess_accepted() ==> s.submit_transition() == s,
{
}

/// Win precedence: an accepted guess that matches the secret wins the game,
/// even when it spends the last remaining attempt.
pub proof fn lemma_win_precedence(s: GuessEngine)
    requires
        s.guess_accepted(),
        s.accumulated_input == s.secret as u64,
    ensures
        s.submit_transition().outcome == Outcome::Won,
{
}

/// Loss finality: an accepted wrong guess that spends the last attempt loses
/// the game, and a finished game — won or lost — ignores every further
/// submission.
pub proof fn lemma_loss_finality(s: GuessEngine)
    ensures
        (s.guess_accepted() && s.accumulated_input != s.secret as u64
            && s.attempts_remaining == 1) ==> s.submit_transition().outcome == Outcome::Lost,
        s.outcome.is_terminal() ==> s.submit_transition() == s,
{
}

/// The state invariant is preserved by every submission: a running game
/// keeps the secret strictly inside the bound window with an attempt left.
pub proof fn lemma_submit_preserves_wf(s: GuessEngine)
    requires
        s.wf(),
    ensures
        s.submit_transition().wf(),
{
}

} // verus!
