#![allow(non_snake_case)]

use raffle::{ErrorKind, Line, Raffle, Ticket, TicketEntry};

fn line_seed_values() -> Vec<(u8, u8, u8)> {
    vec![
        (1, 0, 2),
        (2, 2, 2),
        (0, 0, 0),
        (1, 1, 2),
        (0, 1, 0),
        (0, 2, 2),
        (0, 2, 1),
        (2, 2, 2),
        (1, 1, 1),
        (2, 2, 2),
        (0, 2, 1),
        (2, 1, 1),
        (1, 0, 2),
        (2, 2, 0),
        (1, 2, 0),
        (0, 0, 2),
        (1, 1, 0),
        (1, 1, 1),
        (1, 0, 1),
        (2, 0, 1),
        (0, 0, 1),
        (2, 2, 0),
        (0, 0, 1),
        (0, 0, 0),
        (2, 0, 0),
        (0, 2, 0),
        (1, 0, 1),
        (1, 1, 2),
        (2, 1, 1),
        (1, 2, 1),
        (0, 2, 1),
        (0, 1, 1),
        (0, 2, 0),
        (0, 2, 0),
        (1, 2, 2),
        (1, 0, 2),
        (0, 0, 0),
        (2, 1, 1),
        (1, 1, 0),
        (1, 1, 1),
        (1, 2, 1),
        (2, 1, 1),
        (2, 1, 2),
        (0, 1, 1),
        (0, 0, 2),
        (1, 2, 2),
        (2, 0, 2),
        (0, 0, 0),
        (0, 2, 0),
        (0, 2, 0),
    ]
}

fn line_eval_values() -> Vec<u8> {
    vec![
        1, 5, 5, 0, 0, 1, 1, 5, 5, 5, 1, 1, 1, 0, 1, 10, 10, 5, 10, 1, 0, 0, 0, 5, 10, 10, 10, 0,
        1, 0, 1, 10, 10, 10, 1, 1, 5, 1, 10, 5, 0, 1, 0, 10, 10, 1, 0, 5, 10, 10,
    ]
}

fn static_ticket() -> Ticket {
    let line_list = line_seed_values()
        .iter()
        .map(|i| Line::from(*i))
        .collect::<Vec<Line>>();
    Ticket::from_lines(line_list)
}

// ErrorKind tests
#[test]
fn TicketNotFound_display() {
    assert_eq!(
        ErrorKind::TicketNotFound(42).message(),
        "Ticket id: 42 doesn't exist"
    )
}

// Line tests

#[test]
fn Line_from() {
    line_seed_values()
        .iter()
        .for_each(|seed| assert_eq!(Line::from(*seed), Line(seed.0, seed.1, seed.2)));
}

#[test]
fn Line_eval_line() {
    line_seed_values()
        .iter()
        .zip(line_eval_values().iter())
        .map(|(seed, value)| (Line::from(*seed).eval_line(), *value))
        .for_each(|(eval, value)| assert_eq!(eval, value))
}

#[test]
fn Line_display() {
    let line = Line::from(line_seed_values()[0]);
    let evaluated = line_eval_values()[0];

    assert_eq!(line.to_text(), format!("|{}|", evaluated));
}

// Ticket tests
#[test]
fn Ticket_new() {
    let ticket = Ticket::new();
    let ticket2 = Ticket::new();
    // Two random tickets can coincide by chance; a third draw makes that vanishingly unlikely
    assert!(ticket != ticket2 || ticket != Ticket::new())
}

#[test]
fn Ticket_from() {
    (1..=10).for_each(|lines_num| {
        assert_eq!(Ticket::from(lines_num).len(), lines_num as usize)
    })
}

#[test]
fn Ticket_append() {
    let start_size = 10;
    let additional_lines = 7;
    let end_size = 17;
    assert_eq!(start_size + additional_lines, end_size);

    let mut ticket = Ticket::from(start_size);
    ticket.append(additional_lines);
    assert_eq!(ticket.len(), end_size as usize);
}

#[test]
fn Ticket_eval_list() {
    let line_list: Vec<Line> = line_seed_values().iter().map(|i| Line::from(*i)).collect();
    let ticket = Ticket::from_lines(line_list);
    assert_eq!(ticket.eval_list(), line_eval_values());
}

#[test]
fn Ticket_display() {
    let line_list: Vec<Line> = line_seed_values()
        .iter()
        .take(10)
        .map(|i| Line::from(*i))
        .collect();
    let ticket = Ticket::from_lines(line_list);
    let evals: Vec<u8> = line_eval_values().iter().take(10).map(|i| *i).collect();
    assert_eq!(ticket.len(), evals.len());

    assert_eq!(
        ticket.to_text(),
        format!(
            "[|{}| |{}| |{}| |{}| |{}| |{}| |{}| |{}| |{}| |{}|]",
            evals[0],
            evals[1],
            evals[2],
            evals[3],
            evals[4],
            evals[5],
            evals[6],
            evals[7],
            evals[8],
            evals[9],
        )
    )
}

// Raffle tests
#[test]
fn Raffle_instantiate() {
    let base_raffle = Raffle::instantiate();

    assert!(base_raffle.count() == 0 && base_raffle.is_empty());
}

#[test]
fn Raffle_new_ticket_default() {
    let mut raffle = Raffle::instantiate();
    let ticket_id = raffle.new_ticket(None);

    assert!(raffle.count() == 1 && raffle.len() == 1 && ticket_id == 1)
}

#[test]
fn Raffle_new_ticket_with_lines() {
    let mut raffle = Raffle::instantiate();
    let len80 = 80;
    let ticket_id = raffle.new_ticket(Some(len80));

    assert!(
        raffle.count() == 1
            && raffle.len() == 1
            && ticket_id == raffle.get_ticket_list()[0].id
            && len80 as usize == raffle.get_ticket(ticket_id).unwrap().lines.len()
    )
}

#[test]
fn Raffle_get_ticket_success() {
    let mut raffle = Raffle::instantiate();
    raffle.new_ticket(None);
    let existing_id = 1;

    assert!(raffle.get_ticket(existing_id).is_ok())
}

#[test]
fn Raffle_get_ticket_fail() {
    let mut raffle = Raffle::instantiate();
    raffle.new_ticket(None);
    let nonexistent_id = 100;

    assert!(raffle.get_ticket(nonexistent_id).is_err())
}

#[test]
fn Raffle_append_ticket_success() {
    let mut raffle = Raffle::instantiate();
    raffle.new_ticket(None);
    let existing_id = 1;

    assert!(raffle.append_ticket(existing_id, 10).is_ok())
}

#[test]
fn Raffle_append_ticket_fail() {
    let mut raffle = Raffle::instantiate();
    let nonexistent_id = 100;

    assert!(raffle.append_ticket(nonexistent_id, 10).is_err())
}

#[test]
fn Raffle_evaluate_ticket_success() {
    let mut raffle = Raffle::instantiate();
    let ticket = static_ticket();
    assert!(raffle.add_ticket(ticket) == 1);

    assert!(raffle.evaluate_ticket(1).is_ok())
}

#[test]
fn Raffle_evaluate_ticket_failure() {
    let mut raffle = Raffle::instantiate();
    let ticket = static_ticket();
    assert!(raffle.add_ticket(ticket) == 1);

    assert!(raffle.evaluate_ticket(2).is_err())
}

#[test]
fn Raffle_get_ticket_list_type() {
    let raffle = Raffle::instantiate();
    assert!(raffle.get_ticket_list().is_empty())
}

#[test]
fn Raffle_get_ticket_list_composition() {
    let mut raffle = Raffle::instantiate();
    let ticket = static_ticket();
    let idx = 1;
    assert!(raffle.add_ticket(ticket) == idx);
    let output: Vec<u8> = line_eval_values().iter().map(|i| *i).collect();

    assert_eq!(
        raffle.get_ticket_list(),
        vec![TicketEntry { id: idx, lines: output }]
    );
}
