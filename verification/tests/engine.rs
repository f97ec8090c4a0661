use order_book::engine::{Action, OrderBook};
use order_book::message::{LOBMessage, MessageTypeEnum};
use order_book::operations::{compute_best, PriceUpdate, Side, UpdateTypeEnum};
use order_book::sequence::SequenceGuard;

fn entry(update_type: UpdateTypeEnum, price: u64, amount: u64) -> PriceUpdate {
    PriceUpdate { update_type, price, amount }
}

fn snapshot(change_id: u64, bids: Vec<PriceUpdate>, asks: Vec<PriceUpdate>) -> LOBMessage {
    LOBMessage { message_type: MessageTypeEnum::Snapshot, prev_change_id: 0, change_id, bids, asks }
}

fn delta(prev_change_id: u64, change_id: u64, bids: Vec<PriceUpdate>, asks: Vec<PriceUpdate>) -> LOBMessage {
    LOBMessage { message_type: MessageTypeEnum::Change, prev_change_id, change_id, bids, asks }
}

fn first_snapshot() -> LOBMessage {
    snapshot(
        297217,
        vec![entry(UpdateTypeEnum::New, 504234, 30), entry(UpdateTypeEnum::New, 504194, 20)],
        vec![entry(UpdateTypeEnum::New, 504264, 40), entry(UpdateTypeEnum::New, 504330, 40)],
    )
}

fn assert_awaits_snapshot(book: &OrderBook) {
    assert!(book.levels(Side::Bid).is_empty());
    assert!(book.levels(Side::Ask).is_empty());
    assert_eq!(book.best_bid(), None);
    assert_eq!(book.best_ask(), None);
    assert_eq!(book.best_orders(), (None, None));
    assert_eq!(book.last_change_id(), None);
}

#[test]
fn new_engine_awaits_a_snapshot() {
    assert_awaits_snapshot(&OrderBook::new());
}

#[test]
fn snapshot_fills_both_sides_and_starts_the_numbering() {
    let mut book = OrderBook::new();
    assert_eq!(book.handle_message(first_snapshot()), Action::Continue);
    assert_eq!(book.best_bid(), Some((504234, 30)));
    assert_eq!(book.best_ask(), Some((504264, 40)));
    assert_eq!(book.best_orders(), (Some((504234, 30)), Some((504264, 40))));
    assert_eq!(book.levels(Side::Bid).len(), 2);
    assert_eq!(book.levels(Side::Ask).len(), 2);
    assert_eq!(book.last_change_id(), Some(297217));
}

#[test]
fn change_that_follows_is_applied() {
    let mut book = OrderBook::new();
    book.handle_message(first_snapshot());
    let action = book.handle_message(delta(
        297217,
        297218,
        vec![entry(UpdateTypeEnum::Delete, 504234, 0)],
        vec![entry(UpdateTypeEnum::New, 504250, 5)],
    ));
    assert_eq!(action, Action::Continue);
    assert_eq!(book.best_bid(), Some((504194, 20)));
    assert_eq!(book.best_ask(), Some((504250, 5)));
    assert_eq!(book.levels(Side::Bid).len(), 1);
    assert_eq!(book.levels(Side::Ask).len(), 3);
    assert_eq!(book.last_change_id(), Some(297218));
}

#[test]
fn change_that_skips_a_number_clears_the_book() {
    let mut book = OrderBook::new();
    book.handle_message(first_snapshot());
    let action = book.handle_message(delta(
        297218,
        297219,
        vec![entry(UpdateTypeEnum::New, 600000, 1)],
        vec![entry(UpdateTypeEnum::New, 400000, 1)],
    ));
    assert_eq!(action, Action::Resubscribe);
    assert_awaits_snapshot(&book);
}

#[test]
fn change_that_repeats_a_number_clears_the_book() {
    let mut book = OrderBook::new();
    book.handle_message(first_snapshot());
    assert_eq!(book.handle_message(delta(297217, 297218, Vec::new(), Vec::new())), Action::Continue);
    assert_eq!(book.handle_message(delta(297217, 297218, Vec::new(), Vec::new())), Action::Resubscribe);
    assert_awaits_snapshot(&book);
}

#[test]
fn change_before_any_snapshot_is_a_gap() {
    let mut book = OrderBook::new();
    let action = book.handle_message(delta(0, 1, vec![entry(UpdateTypeEnum::New, 100, 1)], Vec::new()));
    assert_eq!(action, Action::Resubscribe);
    assert_awaits_snapshot(&book);
}

#[test]
fn change_after_a_gap_is_a_gap_until_a_snapshot_comes() {
    let mut book = OrderBook::new();
    book.handle_message(first_snapshot());
    assert_eq!(book.handle_message(delta(1, 2, Vec::new(), Vec::new())), Action::Resubscribe);
    // Even the number that was current before the gap is not accepted now.
    assert_eq!(book.handle_message(delta(297217, 297218, Vec::new(), Vec::new())), Action::Resubscribe);
    assert_eq!(book.handle_message(first_snapshot()), Action::Continue);
    assert_eq!(book.handle_message(delta(297217, 297218, Vec::new(), Vec::new())), Action::Continue);
    assert_eq!(book.last_change_id(), Some(297218));
    assert_eq!(book.best_bid(), Some((504234, 30)));
}

#[test]
fn snapshot_replaces_the_book_and_the_numbering_whatever_came_before() {
    let mut book = OrderBook::new();
    book.handle_message(first_snapshot());
    let action = book.handle_message(snapshot(
        5,
        vec![entry(UpdateTypeEnum::New, 100, 1)],
        Vec::new(),
    ));
    assert_eq!(action, Action::Continue);
    assert_eq!(book.best_bid(), Some((100, 1)));
    assert_eq!(book.best_ask(), None);
    assert_eq!(book.best_orders(), (Some((100, 1)), None));
    assert_eq!(book.levels(Side::Bid).len(), 1);
    assert!(book.levels(Side::Ask).is_empty());
    assert_eq!(book.last_change_id(), Some(5));
}

#[test]
fn snapshot_does_not_read_its_predecessor() {
    let mut book = OrderBook::new();
    book.handle_message(first_snapshot());
    let mut again = first_snapshot();
    again.prev_change_id = 12345;
    again.change_id = 9;
    assert_eq!(book.handle_message(again), Action::Continue);
    assert_eq!(book.last_change_id(), Some(9));
}

#[test]
fn sides_do_not_mix() {
    let mut book = OrderBook::new();
    book.handle_message(snapshot(1, Vec::new(), Vec::new()));
    book.handle_message(delta(
        1,
        2,
        vec![entry(UpdateTypeEnum::New, 100, 1), entry(UpdateTypeEnum::New, 90, 2)],
        vec![entry(UpdateTypeEnum::New, 110, 3), entry(UpdateTypeEnum::New, 120, 4)],
    ));
    assert_eq!(book.best_bid(), Some((100, 1)));
    assert_eq!(book.best_ask(), Some((110, 3)));
    assert_eq!(book.levels(Side::Bid).get(&110), None);
    assert_eq!(book.levels(Side::Ask).get(&100), None);
}

fn draw(state: &mut u64) -> u64 {
    *state = state.wrapping_mul(6364136223846793005).wrapping_add(1442695040888963407);
    *state >> 33
}

fn random_entries(state: &mut u64, book: &OrderBook, side: Side) -> Vec<PriceUpdate> {
    let mut listed: Vec<u64> = book.levels(side).keys().copied().collect();
    let mut entries = Vec::new();
    for _ in 0..draw(state) % 4 {
        let price = 1 + draw(state) % 16;
        let amount = 1 + draw(state) % 100;
        let update_type = match draw(state) % 3 {
            0 => UpdateTypeEnum::New,
            1 if listed.contains(&price) => UpdateTypeEnum::Change,
            1 => UpdateTypeEnum::New,
            _ => UpdateTypeEnum::Delete,
        };
        match update_type {
            UpdateTypeEnum::Delete => listed.retain(|p| *p != price),
            _ => listed.push(price),
        }
        entries.push(entry(update_type, price, amount));
    }
    entries
}

#[test]
fn best_prices_match_a_full_scan_in_every_state() {
    let mut state = 42u64;
    let mut book = OrderBook::new();
    let mut change_id = 0u64;
    for round in 0..1500u64 {
        let bids = random_entries(&mut state, &book, Side::Bid);
        let asks = random_entries(&mut state, &book, Side::Ask);
        let msg = match draw(&mut state) % 16 {
            0 => snapshot(change_id + 1, bids, asks),
            1 => delta(change_id + 7, change_id + 8, bids, asks),
            _ => delta(change_id, change_id + 1, bids, asks),
        };
        let gap = msg.message_type == MessageTypeEnum::Change && book.last_change_id() != Some(msg.prev_change_id);
        let action = book.handle_message(msg);
        if gap {
            assert_eq!(action, Action::Resubscribe, "round {}", round);
            assert_awaits_snapshot(&book);
        } else {
            assert_eq!(action, Action::Continue, "round {}", round);
            change_id += 1;
            assert_eq!(book.last_change_id(), Some(change_id));
        }
        let high = compute_best(Side::Bid, book.levels(Side::Bid));
        let low = compute_best(Side::Ask, book.levels(Side::Ask));
        match book.best_bid() {
            Some((price, amount)) => {
                assert_eq!(price, high);
                assert_eq!(book.levels(Side::Bid).get(&price), Some(&amount));
            }
            None => assert!(book.levels(Side::Bid).is_empty()),
        }
        match book.best_ask() {
            Some((price, amount)) => {
                assert_eq!(price, low);
                assert_eq!(book.levels(Side::Ask).get(&price), Some(&amount));
            }
            None => assert!(book.levels(Side::Ask).is_empty()),
        }
    }
}

#[test]
fn guard_accepts_only_the_successor_of_the_last_message() {
    let mut guard = SequenceGuard::new();
    assert_eq!(guard.last_change_id(), None);
    assert!(!guard.accepts(0));
    guard.advance(297217);
    assert_eq!(guard.last_change_id(), Some(297217));
    assert!(guard.accepts(297217));
    assert!(!guard.accepts(297216));
    assert!(!guard.accepts(297218));
    guard.advance(297218);
    assert!(guard.accepts(297218));
    assert!(!guard.accepts(297217));
    guard.reset();
    assert_eq!(guard.last_change_id(), None);
    assert!(!guard.accepts(297218));
    assert!(!guard.accepts(0));
}
