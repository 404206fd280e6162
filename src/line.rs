//! A line: three small values drawn independently, scored by fixed rules.

use crate::entropy::draw_below;
use crate::text::{decimal, push_decimal};
use rand::rngs::ThreadRng;
use vstd::prelude::*;

verus! {

/// The number of values a field of a line can take: each lies in `0..FIELD_VALUES`.
pub const FIELD_VALUES: u8 = 3;

/// Three values, each in `{0, 1, 2}` when the line was generated.
#[derive(Debug, Clone, Copy, PartialEq, Eq, Structural)]
pub struct Line(pub u8, pub u8, pub u8);

/// The score of the triple `(x, y, z)`, by the first rule that applies:
/// a sum of two scores 10; three equal values score 5; a first value that
/// differs from both others scores 1; anything else scores 0.
pub open spec fn triple_score(x: int, y: int, z: int) -> u8 {
    if x + y + z == 2 {
        10
    } else if x == y && y == z {
        5
    } else if x != y && x != z {
        1
    } else {
        0
    }
}

impl Line {
    /// Every field lies in `{0, 1, 2}`.
    pub open spec fn wf(self) -> bool {
        self.0 < FIELD_VALUES && self.1 < FIELD_VALUES && self.2 < FIELD_VALUES
    }

    /// The score of this line.
    pub open spec fn score(self) -> u8 {
        triple_score(self.0 as int, self.1 as int, self.2 as int)
    }

    /// Builds a line from its three values.
    pub fn from(t: (u8, u8, u8)) -> (l: Line)
        ensures
            l == Line(t.0, t.1, t.2),
    {
        Line(t.0, t.1, t.2)
    }

    /// Draws a line whose three values are independent draws from `{0, 1, 2}`.
    pub(crate) fn generate_random(rng: &mut ThreadRng) -> (l: Line)
        ensures
            l.wf(),
    {
        let x = draw_below(rng, FIELD_VALUES);
        let y = draw_below(rng, FIELD_VALUES);
        let z = draw_below(rng, FIELD_VALUES);
        Line(x, y, z)
    }

    /// Scores this line. The rules apply in order, so a triple summing to two
    /// scores 10 even when its values are also pairwise distinct.
    pub fn eval_line(&self) -> (r: u8)
        ensures
            r == self.score(),
            self.0 + self.1 + self.2 == 2 ==> r == 10,
            self.0 == self.1 && self.1 == self.2 && self.0 + self.1 + self.2 != 2 ==> r == 5,
            self.0 != self.1 && self.0 != self.2 && self.1 != self.2 && self.0 + self.1 + self.2
                != 2 ==> r == 1,
            self.0 + self.1 + self.2 != 2 && !(self.0 == self.1 && self.1 == self.2) && (self.0
                == self.1 || self.0 == self.2) ==> r == 0,
            r == 0 || r == 1 || r == 5 || r == 10,
    {
        let (x, y, z) = (self.0, self.1, self.2);
        if x as u16 + y as u16 + z as u16 == 2 {
            10
        } else if x == y && y == z {
            5
        } else if x != y && x != z {
            1
        } else {
            0
        }
    }

    /// The line as text: its score between bars, as in `|5|`.
    pub fn to_text(&self) -> (s: String)
        ensures
            s@ == seq!['|'] + decimal(self.score() as nat) + seq!['|'],
    {
        let mut s = String::new();
        s.append("|");
        push_decimal(&mut s, self.eval_line() as u64);
        s.append("|");
        proof {
            reveal_strlit("|");
        }
        s
    }
}

} // verus!
