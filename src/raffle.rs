//! The registry: tickets kept under unique ids, created, read, extended and
//! redeemed.

use crate::error::ErrorKind;
use crate::evaluation::{tier_of, Evaluation, Tier};
use crate::line::Line;
use crate::ticket::{all_wf, scores, Ticket, DEFAULT_LINES};
use std::collections::BTreeMap;
use vstd::std_specs::cmp::OrdSpec;
use vstd::std_specs::iter::IteratorSpec;
use vstd::prelude::*;

verus! {

/// The number of values a `u64` can take.
pub open spec fn id_space() -> int {
    0x1_0000_0000_0000_0000
}

/// The counter after one increment; it wraps from `u64::MAX` to zero.
pub open spec fn next_counter(count: u64) -> u64 {
    if count == u64::MAX {
        0
    } else {
        (count + 1) as u64
    }
}

/// How many steps upward, wrapping at `u64::MAX`, lead from `from` to `k`.
pub open spec fn steps_from(from: u64, k: u64) -> int {
    (k - from) % id_space()
}

/// `k` is the first id, scanning upward from `from` and wrapping, that `used` lacks.
pub open spec fn is_first_free(used: Set<u64>, from: u64, k: u64) -> bool {
    &&& !used.contains(k)
    &&& forall|j: u64| steps_from(from, j) < steps_from(from, k) ==> #[trigger] used.contains(j)
}

/// What a registry holds, as mathematics.
pub ghost struct RaffleModel {
    /// The counter that ids are allocated from.
    pub count: u64,
    /// The lines of each live ticket, by id.
    pub tickets: Map<u64, Seq<Line>>,
    /// Every id handed out so far, live or redeemed.
    pub issued: Set<u64>,
}

impl RaffleModel {
    /// No id handed out, and no live one, exceeds the counter. This holds from
    /// the start and is kept until the counter reaches `u64::MAX`.
    pub open spec fn counter_bounds_ids(self) -> bool {
        forall|i: u64|
            #![trigger self.issued.contains(i)]
            #![trigger self.tickets.contains_key(i)]
            self.issued.contains(i) || self.tickets.contains_key(i) ==> i <= self.count
    }
}

/// A live ticket's id with the score of each of its lines, in order.
#[derive(Debug, Clone, PartialEq, Eq)]
pub struct TicketEntry {
    pub id: u64,
    pub lines: Vec<u8>,
}

/// The sum of `v`.
pub open spec fn score_sum(v: Seq<u8>) -> int
    decreases v.len(),
{
    if v.len() == 0 {
        0
    } else {
        score_sum(v.drop_last()) + v.last()
    }
}

/// The average score of `lines`, rounded down; meaningful for a non-empty ticket.
pub open spec fn average_score(lines: Seq<Line>) -> int {
    score_sum(scores(lines)) / (lines.len() as int)
}

/// What reading the ticket `id` of `s` gives: the scores of its lines.
pub open spec fn lookup(s: RaffleModel, id: u64) -> Result<Seq<u8>, ErrorKind> {
    if s.tickets.contains_key(id) {
        Ok(scores(s.tickets[id]))
    } else {
        Err(ErrorKind::TicketNotFound(id))
    }
}

/// Redeeming the ticket `id` of `s`: the registry after it, and the average score
/// or the error. A missing or empty ticket leaves the registry as it was.
pub open spec fn redeem(s: RaffleModel, id: u64) -> (RaffleModel, Result<u64, ErrorKind>) {
    if !s.tickets.contains_key(id) {
        (s, Err(ErrorKind::TicketNotFound(id)))
    } else if s.tickets[id].len() == 0 {
        (s, Err(ErrorKind::EmptyTicket(id)))
    } else {
        (
            RaffleModel { tickets: s.tickets.remove(id), ..s },
            Ok(average_score(s.tickets[id]) as u64),
        )
    }
}

/// `after` is `before` with a ticket of `lines` registered under `id`: the first
/// id not in use, scanning upward from the counter plus one and wrapping at
/// `u64::MAX`. That id becomes the counter and joins the issued ids.
pub open spec fn registered(before: RaffleModel, after: RaffleModel, id: u64, lines: Seq<Line>) -> bool {
    &&& is_first_free(before.tickets.dom(), next_counter(before.count), id)
    &&& after.count == id
    &&& after.issued == before.issued.insert(id)
    &&& after.tickets == before.tickets.insert(id, lines)
}

/// `after` is `before` with `additional` random lines appended to the ticket `id`,
/// which keeps its earlier lines in front; nothing else changed.
pub open spec fn appended(before: RaffleModel, after: RaffleModel, id: u64, additional: u64) -> bool {
    let old_lines = before.tickets[id];
    let new_lines = after.tickets[id];
    &&& before.tickets.contains_key(id)
    &&& after.count == before.count
    &&& after.issued == before.issued
    &&& after.tickets == before.tickets.insert(id, new_lines)
    &&& new_lines.len() == old_lines.len() + additional
    &&& new_lines.subrange(0, old_lines.len() as int) == old_lines
    &&& forall|i: int| old_lines.len() <= i < new_lines.len() ==> #[trigger] new_lines[i].wf()
}

/// `entries` lists every live ticket of `s` once, by ascending id, each with its scores.
pub open spec fn lists_all(s: RaffleModel, entries: Seq<TicketEntry>) -> bool {
    &&& forall|i: int|
        0 <= i < entries.len() ==> s.tickets.contains_key(#[trigger] entries[i].id)
            && entries[i].lines@ == scores(s.tickets[entries[i].id])
    &&& forall|i: int, j: int| 0 <= i < j < entries.len() ==> entries[i].id < entries[j].id
    &&& forall|k: u64| #[trigger]
        s.tickets.contains_key(k) ==> exists|i: int| 0 <= i < entries.len() && entries[i].id == k
}

/// The average of the line scores `v`, rounded down.
fn average(v: &Vec<u8>) -> (a: u64)
    requires
        v@.len() > 0,
        forall|i: int| 0 <= i < v@.len() ==> #[trigger] v@[i] <= 10,
    ensures
        a == score_sum(v@) / (v@.len() as int),
        a <= 10,
{
    let mut sum: u128 = 0;
    let mut i: usize = 0;
    while i < v.len()
        invariant
            i <= v@.len(),
            forall|j: int| 0 <= j < v@.len() ==> #[trigger] v@[j] <= 10,
            sum == score_sum(v@.take(i as int)),
            sum <= 10 * i,
        decreases v@.len() - i,
    {
        assert(v@.take(i + 1).drop_last() =~= v@.take(i as int));
        sum = sum + v[i] as u128;
        i = i + 1;
    }
    assert(v@.take(i as int) =~= v@);
    let len = v.len() as u128;
    let a = sum / len;
    assert(a <= 10) by (nonlinear_arith)
        requires
            sum <= 10 * len,
            len > 0,
            a == sum / len,
    ;
    a as u64
}

/// The registry of live tickets, each under the unique id it was given.
pub struct Raffle {
    count: u64,
    tickets: BTreeMap<u64, Ticket>,
    issued: Ghost<Set<u64>>,
}

impl View for Raffle {
    type V = RaffleModel;

    closed spec fn view(&self) -> RaffleModel {
        RaffleModel {
            count: self.count,
            tickets: self.tickets@.map_values(|t: Ticket| t@),
            issued: self.issued@,
        }
    }
}

impl Raffle {
    /// An empty registry with its counter at zero.
    pub fn instantiate() -> (r: Raffle)
        ensures
            r@.count == 0,
            r@.tickets == Map::<u64, Seq<Line>>::empty(),
            r@.issued == Set::<u64>::empty(),
            r@.counter_bounds_ids(),
    {
        let r = Raffle { count: 0, tickets: BTreeMap::new(), issued: Ghost(Set::empty()) };
        assert(r@.tickets =~= Map::<u64, Seq<Line>>::empty());
        r
    }

    /// Registers `ticket` and returns the id it is now kept under: the counter plus
    /// one, wrapping, or the first free id upward from there when that one is taken.
    /// The id becomes the new counter.
    pub fn add_ticket(&mut self, ticket: Ticket) -> (id: u64)
        ensures
            registered(old(self)@, final(self)@, id, ticket@),
    {
        self.count = if self.count == u64::MAX {
            0
        } else {
            self.count + 1
        };
        if self.tickets.contains_key(&self.count) {
            self.count = self.find_unused_key();
        } else {
            assert(steps_from(self.count, self.count) == 0);
        }
        self.tickets.insert(self.count, ticket);
        proof {
            self.issued@ = self.issued@.insert(self.count);
            assert(self@.tickets =~= old(self)@.tickets.insert(self.count, ticket@));
        }
        self.count
    }

    /// Creates a ticket of `lines` random lines, or of `DEFAULT_LINES` when none
    /// are asked for, and returns the id it is kept under, allocated as by
    /// `add_ticket`.
    pub fn new_ticket(&mut self, lines: Option<u64>) -> (id: u64)
        ensures
            registered(old(self)@, final(self)@, id, final(self)@.tickets[id]),
            final(self)@.tickets[id].len() == match lines {
                Some(n) => n,
                None => DEFAULT_LINES,
            },
            all_wf(final(self)@.tickets[id]),
    {
        let ticket = match lines {
            Some(lines) => Ticket::from(lines),
            None => Ticket::new(),
        };
        self.add_ticket(ticket)
    }

    /// The scores of the ticket `id`, or `TicketNotFound` when no live ticket has it.
    pub fn get_ticket(&self, id: u64) -> (r: Result<TicketEntry, ErrorKind>)
        ensures
            match r {
                Ok(e) => e.id == id && lookup(self@, id) == Ok::<Seq<u8>, ErrorKind>(e.lines@),
                Err(err) => lookup(self@, id) == Err::<Seq<u8>, ErrorKind>(err),
            },
    {
        match self.tickets.get(&id) {
            Some(ticket) => Ok(TicketEntry { id, lines: ticket.eval_list() }),
            None => Err(ErrorKind::TicketNotFound(id)),
        }
    }

    /// Appends `additional` random lines to the ticket `id`, or fails with
    /// `TicketNotFound`, changing nothing, when no live ticket has it.
    pub fn append_ticket(&mut self, id: u64, additional: u64) -> (r: Result<(), ErrorKind>)
        ensures
            match r {
                Ok(()) => appended(old(self)@, final(self)@, id, additional),
                Err(err) => {
                    &&& !old(self)@.tickets.contains_key(id)
                    &&& err == ErrorKind::TicketNotFound(id)
                    &&& final(self)@ == old(self)@
                },
            },
    {
        match self.tickets.remove(&id) {
            Some(mut ticket) => {
                ticket.append(additional);
                self.tickets.insert(id, ticket);
                proof {
                    assert(self@.tickets =~= old(self)@.tickets.insert(id, ticket@));
                }
                Ok(())
            },
            None => {
                proof {
                    assert(self@.tickets =~= old(self)@.tickets);
                }
                Err(ErrorKind::TicketNotFound(id))
            },
        }
    }

    /// Every live ticket's id with its scores, by ascending id.
    pub fn get_ticket_list(&self) -> (r: Vec<TicketEntry>)
        ensures
            lists_all(self@, r@),
    {
        let mut r: Vec<TicketEntry> = Vec::new();
        let iter = self.tickets.iter();
        let ghost items = iter.remaining();
        for (id, ticket) in it: iter
            invariant
                it.seq() == items,
                r@.len() == it.index(),
                forall|i: int|
                    0 <= i < it.index() ==> (#[trigger] r@[i]).id == *items[i].0
                        && r@[i].lines@ == scores(items[i].1@),
        {
            r.push(TicketEntry { id: *id, lines: ticket.eval_list() });
        }
        proof {
            let m = self.tickets@;
            let keys = items.map_values(|kv: (&u64, &Ticket)| *kv.0);
            assert(r@.len() == items.len());
            assert forall|i: int| 0 <= i < r@.len() implies self@.tickets.contains_key(
                #[trigger] r@[i].id,
            ) && r@[i].lines@ == scores(self@.tickets[r@[i].id]) by {
                assert(m.contains_key(*items[i].0));
                assert(m[*items[i].0] == *items[i].1);
            }
            assert forall|i: int, j: int| 0 <= i < j < r@.len() implies r@[i].id < r@[j].id by {
                assert(keys[i] == r@[i].id);
                assert(keys[j] == r@[j].id);
                assert(keys[i].cmp_spec(&keys[j]) is Less);
            }
            assert forall|k: u64| #[trigger] self@.tickets.contains_key(k) implies exists|i: int|
                0 <= i < r@.len() && r@[i].id == k by {
                assert(m.contains_key(k));
                assert(items.contains((&k, &m[k])));
                let i = choose|i: int| 0 <= i < items.len() && items[i] == (&k, &m[k]);
                assert(r@[i].id == k);
            }
        }
        r
    }

    /// Redeems the ticket `id`: removes it and returns its average score, rounded
    /// down, with that score's tier. A missing ticket gives `TicketNotFound` and an
    /// empty one `EmptyTicket`; neither changes the registry.
    pub fn evaluate_ticket(&mut self, id: u64) -> (r: Result<Evaluation, ErrorKind>)
        ensures
            final(self)@ == redeem(old(self)@, id).0,
            match r {
                Ok(e) => {
                    &&& redeem(old(self)@, id).1 == Ok::<u64, ErrorKind>(e.score)
                    &&& e.id == id
                    &&& e.tier == tier_of(e.score)
                    &&& e.score <= 10
                },
                Err(err) => redeem(old(self)@, id).1 == Err::<u64, ErrorKind>(err),
            },
            old(self)@.tickets.contains_key(id) && old(self)@.tickets[id].len() == 0 ==> r
                == Err::<Evaluation, ErrorKind>(ErrorKind::EmptyTicket(id)),
    {
        match self.tickets.get(&id) {
            Some(ticket) => {
                if ticket.len() == 0 {
                    return Err(ErrorKind::EmptyTicket(id));
                }
            },
            None => {
                return Err(ErrorKind::TicketNotFound(id));
            },
        }
        let removed = self.tickets.remove(&id);
        let ticket = match removed {
            Some(ticket) => ticket,
            None => {
                return Err(ErrorKind::TicketNotFound(id));
            },
        };
        let list = ticket.eval_list();
        let score = average(&list);
        proof {
            assert(self@.tickets =~= old(self)@.tickets.remove(id));
        }
        Ok(Raffle::generate_response(id, score))
    }

    /// The evaluation of the ticket `id` with the average `score`.
    fn generate_response(id: u64, score: u64) -> (e: Evaluation)
        ensures
            e == (Evaluation { id, score, tier: tier_of(score) }),
    {
        Evaluation { id, score, tier: Tier::from_score(score) }
    }

    /// The counter that ids are allocated from: the last id handed out.
    pub fn count(&self) -> (c: u64)
        ensures
            c == self@.count,
    {
        self.count
    }

    /// The number of live tickets.
    pub fn len(&self) -> (n: usize)
        ensures
            n == self@.tickets.len(),
    {
        proof {
            assert(self.tickets@.dom() =~= self@.tickets.dom());
        }
        self.tickets.len()
    }

    /// Whether no ticket is live.
    pub fn is_empty(&self) -> (b: bool)
        ensures
            b == (self@.tickets.len() == 0),
    {
        self.len() == 0
    }

    /// The first id not in use, scanning upward from the counter and wrapping.
    /// One always exists: a map holds fewer keys than a `u64` has values.
    fn find_unused_key(&self) -> (k: u64)
        ensures
            is_first_free(self.tickets@.dom(), self.count, k),
    {
        let ghost used = self.tickets@.dom();
        let ghost mut seen: Set<u64> = Set::empty();
        let ghost mut steps: int = 0;
        let mut k = self.count;
        proof {
            assert(used.len() == vstd::std_specs::btree::spec_btree_map_len(&self.tickets));
        }
        while self.tickets.contains_key(&k)
            invariant
                used == self.tickets@.dom(),
                used.finite(),
                used.len() < id_space(),
                0 <= steps < id_space(),
                steps_from(self.count, k) == steps,
                seen.finite(),
                seen.len() == steps,
                seen.subset_of(used),
                forall|j: u64| #[trigger] seen.contains(j) <==> steps_from(self.count, j) < steps,
            decreases id_space() - steps,
        {
            proof {
                assert(!seen.contains(k));
                seen = seen.insert(k);
                vstd::set_lib::lemma_len_subset(seen, used);
                assert forall|j: u64| #[trigger] seen.contains(j) <==> steps_from(self.count, j)
                    < steps + 1 by {
                    if steps_from(self.count, j) == steps {
                        assert(j == k);
                    }
                }
                steps = steps + 1;
            }
            k = if k == u64::MAX {
                0
            } else {
                k + 1
            };
        }
        k
    }
}

/// Ids are never handed out twice. From a registry whose ids all lie at or below
/// its counter, and whose counter is below `u64::MAX`, a new ticket gets the counter
/// plus one: an id never issued before and not live, above every earlier one. The
/// registry after it again has all its ids at or below its counter.
pub proof fn lemma_new_id_is_fresh(before: RaffleModel, after: RaffleModel, id: u64, lines: Seq<Line>)
    requires
        before.counter_bounds_ids(),
        before.count < u64::MAX,
        registered(before, after, id, lines),
    ensures
        id == before.count + 1,
        !before.issued.contains(id),
        !before.tickets.contains_key(id),
        forall|i: u64| #[trigger] before.issued.contains(i) ==> i < id,
        after.counter_bounds_ids(),
{
    let c = next_counter(before.count);
    if before.tickets.contains_key(c) {
        assert(c <= before.count);
    }
    assert(steps_from(c, c) == 0);
    if before.issued.contains(id) {
        assert(id <= before.count);
    }
    assert forall|i: u64|
        #![trigger after.issued.contains(i)]
        #![trigger after.tickets.contains_key(i)]
        after.issued.contains(i) || after.tickets.contains_key(i) implies i <= after.count by {
        if i != id {
            assert(before.issued.contains(i) || before.tickets.contains_key(i));
        }
    }
}

/// Redemption is final: once the ticket `id` has been redeemed, reading it or
/// redeeming it again reports `TicketNotFound(id)`.
pub proof fn lemma_redeemed_ticket_is_gone(s: RaffleModel, id: u64)
    requires
        redeem(s, id).1 is Ok,
    ensures
        lookup(redeem(s, id).0, id) == Err::<Seq<u8>, ErrorKind>(ErrorKind::TicketNotFound(id)),
        redeem(redeem(s, id).0, id).1 == Err::<u64, ErrorKind>(ErrorKind::TicketNotFound(id)),
{
}

/// Redeeming a ticket, successfully or not, keeps the counter and the record of
/// issued ids, and keeps every id at or below the counter.
pub proof fn lemma_redeem_keeps_ids_below_counter(s: RaffleModel, id: u64)
    requires
        s.counter_bounds_ids(),
    ensures
        redeem(s, id).0.count == s.count,
        redeem(s, id).0.issued == s.issued,
        redeem(s, id).0.counter_bounds_ids(),
{
}

/// Extending a ticket keeps the counter and the record of issued ids, and keeps
/// every id at or below the counter. With `new_ticket`, which hands out the counter
/// plus one while the counter is below `u64::MAX`, no sequence of creations,
/// extensions and redemptions from an empty registry hands out an id twice.
pub proof fn lemma_append_keeps_ids_below_counter(
    before: RaffleModel,
    after: RaffleModel,
    id: u64,
    additional: u64,
)
    requires
        before.counter_bounds_ids(),
        appended(before, after, id, additional),
    ensures
        after.count == before.count,
        after.issued == before.issued,
        after.counter_bounds_ids(),
{
    assert forall|i: u64|
        #![trigger after.issued.contains(i)]
        #![trigger after.tickets.contains_key(i)]
        after.issued.contains(i) || after.tickets.contains_key(i) implies i <= after.count by {
        if after.tickets.contains_key(i) {
            assert(before.tickets.contains_key(i));
        }
    }
}

} // verus!
