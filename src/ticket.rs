//! A ticket: an ordered sequence of lines, extended only at its end.

use crate::line::Line;
use crate::text::decimal;
use vstd::prelude::*;

verus! {

/// The number of lines of a ticket made without a requested length.
pub const DEFAULT_LINES: u64 = 10;

/// The scores of `lines`, in order.
pub open spec fn scores(lines: Seq<Line>) -> Seq<u8> {
    lines.map_values(|l: Line| l.score())
}

/// Every line of `lines` was generated in range.
pub open spec fn all_wf(lines: Seq<Line>) -> bool {
    forall|i: int| 0 <= i < lines.len() ==> #[trigger] lines[i].wf()
}

/// The text of one line: its score between bars.
pub open spec fn line_text(l: Line) -> Seq<char> {
    seq!['|'] + decimal(l.score() as nat) + seq!['|']
}

/// The texts of `lines`, separated by single spaces.
pub open spec fn joined_text(lines: Seq<Line>) -> Seq<char>
    decreases lines.len(),
{
    if lines.len() == 0 {
        Seq::empty()
    } else if lines.len() == 1 {
        line_text(lines[0])
    } else {
        joined_text(lines.drop_last()) + seq![' '] + line_text(lines.last())
    }
}

/// An ordered sequence of lines.
#[derive(Debug, Clone, PartialEq)]
pub struct Ticket {
    line_list: Vec<Line>,
}

impl View for Ticket {
    type V = Seq<Line>;

    closed spec fn view(&self) -> Seq<Line> {
        self.line_list@
    }
}

/// Appends `n` freshly drawn lines to `v`, all from one generator.
fn push_random_lines(v: &mut Vec<Line>, n: u64)
    ensures
        final(v)@.len() == old(v)@.len() + n,
        final(v)@.subrange(0, old(v)@.len() as int) == old(v)@,
        forall|i: int| old(v)@.len() <= i < final(v)@.len() ==> #[trigger] final(v)@[i].wf(),
{
    let mut rng = rand::thread_rng();
    let mut i: u64 = 0;
    while i < n
        invariant
            i <= n,
            v@.len() == old(v)@.len() + i,
            v@.subrange(0, old(v)@.len() as int) == old(v)@,
            forall|j: int| old(v)@.len() <= j < v@.len() ==> #[trigger] v@[j].wf(),
        decreases n - i,
    {
        let line = Line::generate_random(&mut rng);
        v.push(line);
        i = i + 1;
        assert(v@.subrange(0, old(v)@.len() as int) =~= old(v)@);
    }
}

impl Ticket {
    /// A ticket of the given lines, in the given order.
    pub fn from_lines(line_list: Vec<Line>) -> (t: Ticket)
        ensures
            t@ == line_list@,
    {
        Ticket { line_list }
    }

    /// A ticket of `DEFAULT_LINES` random lines.
    pub fn new() -> (t: Ticket)
        ensures
            t@.len() == DEFAULT_LINES,
            all_wf(t@),
    {
        Ticket::from(DEFAULT_LINES)
    }

    /// A ticket of `lines` random lines; zero lines give an empty ticket.
    pub fn from(lines: u64) -> (t: Ticket)
        ensures
            t@.len() == lines,
            all_wf(t@),
    {
        let mut line_list: Vec<Line> = Vec::new();
        push_random_lines(&mut line_list, lines);
        Ticket { line_list }
    }

    /// The number of lines.
    pub fn len(&self) -> (n: usize)
        ensures
            n == self@.len(),
    {
        self.line_list.len()
    }

    /// The lines, in order.
    pub fn line_list(&self) -> (l: &Vec<Line>)
        ensures
            l@ == self@,
    {
        &self.line_list
    }

    /// Appends `additional` random lines at the end, keeping the lines already there.
    pub fn append(&mut self, additional: u64)
        ensures
            final(self)@.len() == old(self)@.len() + additional,
            final(self)@.subrange(0, old(self)@.len() as int) == old(self)@,
            forall|i: int|
                old(self)@.len() <= i < final(self)@.len() ==> #[trigger] final(self)@[i].wf(),
    {
        push_random_lines(&mut self.line_list, additional);
    }

    /// The score of each line, in order.
    pub fn eval_list(&self) -> (r: Vec<u8>)
        ensures
            r@ == scores(self@),
    {
        let mut r: Vec<u8> = Vec::new();
        let mut i: usize = 0;
        while i < self.line_list.len()
            invariant
                i <= self.line_list@.len(),
                r@ == scores(self.line_list@.take(i as int)),
            decreases self.line_list@.len() - i,
        {
            let score = self.line_list[i].eval_line();
            r.push(score);
            i = i + 1;
            assert(self.line_list@.take(i as int).drop_last() =~= self.line_list@.take(
                i - 1,
            ));
            assert(r@ =~= scores(self.line_list@.take(i as int)));
        }
        assert(self.line_list@.take(i as int) =~= self.line_list@);
        r
    }

    /// The ticket as text: the texts of its lines between brackets, as in `[|5| |0|]`.
    pub fn to_text(&self) -> (s: String)
        ensures
            s@ == seq!['['] + joined_text(self@) + seq![']'],
    {
        let mut s = String::new();
        s.append("[");
        proof {
            reveal_strlit("[");
        }
        let mut i: usize = 0;
        while i < self.line_list.len()
            invariant
                i <= self.line_list@.len(),
                s@ == seq!['['] + joined_text(self.line_list@.take(i as int)),
            decreases self.line_list@.len() - i,
        {
            let ghost before = self.line_list@.take(i as int);
            if i != 0 {
                s.append(" ");
                proof {
                    reveal_strlit(" ");
                }
            }
            let t = self.line_list[i].to_text();
            s.append(t.as_str());
            i = i + 1;
            proof {
                let now = self.line_list@.take(i as int);
                assert(now.drop_last() =~= before);
                assert(now.last() == self.line_list@[i - 1]);
                assert(s@ =~= seq!['['] + joined_text(now));
            }
        }
        s.append("]");
        proof {
            reveal_strlit("]");
            assert(self.line_list@.take(i as int) =~= self.line_list@);
        }
        s
    }
}

} // verus!
