//! The outcome of redeeming a ticket: its average score and the tier it falls in.

use crate::text::{decimal, push_decimal};
use vstd::prelude::*;

verus! {

/// The five ranked tiers of an average score.
#[derive(Debug, Clone, Copy, PartialEq, Eq, Structural)]
pub enum Tier {
    /// A score of 0.
    Nothing,
    /// A score from 1 to 3.
    Low,
    /// A score from 4 to 7.
    Mid,
    /// A score of 8 or 9.
    High,
    /// A score of 10.
    Jackpot,
}

/// The tier of an average score, which lies in `0..=10`.
pub open spec fn tier_of(score: u64) -> Tier {
    if score == 0 {
        Tier::Nothing
    } else if score <= 3 {
        Tier::Low
    } else if score <= 7 {
        Tier::Mid
    } else if score <= 9 {
        Tier::High
    } else {
        Tier::Jackpot
    }
}

/// The message of each tier.
pub open spec fn tier_text(t: Tier) -> Seq<char> {
    match t {
        Tier::Nothing => "you get nothing; good day sir!"@,
        Tier::Low => "slightly better than a hostel shower!"@,
        Tier::Mid => "you're one of today's lucky 10,000!"@,
        Tier::High => "almost enough for a mediocre pizza!"@,
        Tier::Jackpot => "ding ding ding, you won the imaginary jackpot!"@,
    }
}

impl Tier {
    /// The tier of `score`.
    pub fn from_score(score: u64) -> (t: Tier)
        ensures
            t == tier_of(score),
    {
        if score == 0 {
            Tier::Nothing
        } else if score <= 3 {
            Tier::Low
        } else if score <= 7 {
            Tier::Mid
        } else if score <= 9 {
            Tier::High
        } else {
            Tier::Jackpot
        }
    }

    /// The message of this tier.
    pub fn message(&self) -> (s: &'static str)
        ensures
            s@ == tier_text(*self),
    {
        match self {
            Tier::Nothing => "you get nothing; good day sir!",
            Tier::Low => "slightly better than a hostel shower!",
            Tier::Mid => "you're one of today's lucky 10,000!",
            Tier::High => "almost enough for a mediocre pizza!",
            Tier::Jackpot => "ding ding ding, you won the imaginary jackpot!",
        }
    }
}

/// A redeemed ticket's id, its average score and that score's tier.
#[derive(Debug, Clone, Copy, PartialEq, Eq, Structural)]
pub struct Evaluation {
    pub id: u64,
    pub score: u64,
    pub tier: Tier,
}

/// The message of an evaluation.
pub open spec fn evaluation_text(e: Evaluation) -> Seq<char> {
    "For ticket "@ + decimal(e.id as nat) + ", your score was "@ + decimal(e.score as nat)
        + "... "@ + tier_text(e.tier)
}

impl Evaluation {
    /// The message of this evaluation, as in
    /// `For ticket 1, your score was 0... you get nothing; good day sir!`.
    pub fn message(&self) -> (s: String)
        ensures
            s@ == evaluation_text(*self),
    {
        let mut s = String::from_str("For ticket ");
        push_decimal(&mut s, self.id);
        s.append(", your score was ");
        push_decimal(&mut s, self.score);
        s.append("... ");
        s.append(self.tier.message());
        s
    }
}

} // verus!
