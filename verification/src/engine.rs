//! The reconciliation engine: both sides of the book, their cached bests and
//! the feed's sequence state, driven one message at a time.

use crate::message::{LOBMessage, MessageTypeEnum};
use crate::operations::{
    best_after_all, best_level, best_of, init_asks, init_bids, is_best, lemma_best_unique, level_at,
    levels_after_all, snapshot_levels, update_asks, update_bids, Side,
};
use crate::sequence::SequenceGuard;
use std::collections::HashMap;
use vstd::prelude::*;

verus! {

broadcast use vstd::std_specs::hash::group_hash_axioms;

/// What the transport has to do after a message was handled.
#[derive(Clone, Copy, Debug, PartialEq, Eq, Structural)]
pub enum Action {
    /// The message was applied; read the next one.
    Continue,
    /// A gap was found and the message dropped: unsubscribe, then subscribe
    /// again for a fresh snapshot.
    Resubscribe,
}

/// The engine's state as contracts see it.
pub struct BookState {
    /// Bid levels, price to quantity.
    pub bids: Map<u64, u64>,
    /// Ask levels, price to quantity.
    pub asks: Map<u64, u64>,
    /// The cached best bid, 0 while there is none.
    pub max_bid: u64,
    /// The cached best ask, `u64::MAX` while there is none.
    pub min_ask: u64,
    /// The number of the last message applied, `None` while a snapshot is
    /// awaited.
    pub last_change_id: Option<u64>,
}

impl BookState {
    /// The state at the start, and after a gap: no level on either side, no
    /// message applied.
    pub open spec fn start() -> BookState {
        BookState {
            bids: Map::empty(),
            asks: Map::empty(),
            max_bid: Side::Bid.sentinel(),
            min_ask: Side::Ask.sentinel(),
            last_change_id: None,
        }
    }

    /// The levels of one side.
    pub open spec fn levels(self, side: Side) -> Map<u64, u64> {
        match side {
            Side::Bid => self.bids,
            Side::Ask => self.asks,
        }
    }

    /// Both sides hold finitely many levels, as every book in memory does.
    pub open spec fn well_formed(self) -> bool {
        &&& self.bids.dom().finite()
        &&& self.asks.dom().finite()
    }

    /// Both cached bests are the true extremes of their sides.
    pub open spec fn consistent(self) -> bool {
        &&& is_best(Side::Bid, self.bids, self.max_bid)
        &&& is_best(Side::Ask, self.asks, self.min_ask)
    }

    /// The message is one that gets applied: a snapshot, or a change that
    /// names the last message applied as its predecessor.
    pub open spec fn accepts(self, msg: LOBMessage) -> bool {
        msg.message_type == MessageTypeEnum::Change ==> self.last_change_id == Some(
            msg.prev_change_id,
        )
    }

    /// The state after one message.
    ///
    /// A snapshot replaces both sides and restarts the numbering, whatever
    /// the state. A change that is accepted is applied to both sides and
    /// advances the numbering. Any other change is dropped unapplied and
    /// leaves the start state behind.
    pub open spec fn after(self, msg: LOBMessage) -> BookState {
        match msg.message_type {
            MessageTypeEnum::Snapshot => BookState {
                bids: snapshot_levels(msg.bids@),
                asks: snapshot_levels(msg.asks@),
                max_bid: best_of(Side::Bid, snapshot_levels(msg.bids@)),
                min_ask: best_of(Side::Ask, snapshot_levels(msg.asks@)),
                last_change_id: Some(msg.change_id),
            },
            MessageTypeEnum::Change => if self.accepts(msg) {
                BookState {
                    bids: levels_after_all(self.bids, msg.bids@),
                    asks: levels_after_all(self.asks, msg.asks@),
                    max_bid: best_after_all(Side::Bid, self.bids, self.max_bid, msg.bids@),
                    min_ask: best_after_all(Side::Ask, self.asks, self.min_ask, msg.asks@),
                    last_change_id: Some(msg.change_id),
                }
            } else {
                BookState::start()
            },
        }
    }

    /// What the transport is told after one message: to go on, or, where the
    /// message was a change that is not accepted, to subscribe again.
    pub open spec fn action(self, msg: LOBMessage) -> Action {
        if self.accepts(msg) {
            Action::Continue
        } else {
            Action::Resubscribe
        }
    }
}

/// Replaces both books by the snapshot's levels. Returns the best bid, the
/// best ask and the snapshot's number.
pub fn process_snapshot(
    msg: LOBMessage,
    bid_order_book: &mut HashMap<u64, u64>,
    ask_order_book: &mut HashMap<u64, u64>,
) -> (result: (u64, u64, u64))
    ensures
        final(bid_order_book)@ == snapshot_levels(msg.bids@),
        final(ask_order_book)@ == snapshot_levels(msg.asks@),
        is_best(Side::Bid, final(bid_order_book)@, result.0),
        is_best(Side::Ask, final(ask_order_book)@, result.1),
        result.2 == msg.change_id,
{
    let LOBMessage { message_type: _, prev_change_id: _, change_id, bids, asks } = msg;
    let max_bid = init_bids(bid_order_book, bids);
    let min_ask = init_asks(ask_order_book, asks);
    (max_bid, min_ask, change_id)
}

/// Applies a change message to both books, bids before asks. Returns the
/// cached best bid and best ask that follow from `max_bid` and `min_ask`, and
/// the message's number.
pub fn process_change(
    msg: LOBMessage,
    bid_order_book: &mut HashMap<u64, u64>,
    ask_order_book: &mut HashMap<u64, u64>,
    max_bid: u64,
    min_ask: u64,
) -> (result: (u64, u64, u64))
    ensures
        final(bid_order_book)@ == levels_after_all(old(bid_order_book)@, msg.bids@),
        final(ask_order_book)@ == levels_after_all(old(ask_order_book)@, msg.asks@),
        result.0 == best_after_all(Side::Bid, old(bid_order_book)@, max_bid, msg.bids@),
        result.1 == best_after_all(Side::Ask, old(ask_order_book)@, min_ask, msg.asks@),
        result.2 == msg.change_id,
{
    let LOBMessage { message_type: _, prev_change_id: _, change_id, bids, asks } = msg;
    let max_bid = update_bids(bid_order_book, bids, max_bid);
    let min_ask = update_asks(ask_order_book, asks, min_ask);
    (max_bid, min_ask, change_id)
}

/// The engine: it owns both books, their cached bests and the sequence state
/// of the one channel it tracks.
pub struct OrderBook {
    bid_order_book: HashMap<u64, u64>,
    ask_order_book: HashMap<u64, u64>,
    max_bid: u64,
    min_ask: u64,
    sequence: SequenceGuard,
}

impl View for OrderBook {
    type V = BookState;

    closed spec fn view(&self) -> BookState {
        BookState {
            bids: self.bid_order_book@,
            asks: self.ask_order_book@,
            max_bid: self.max_bid,
            min_ask: self.min_ask,
            last_change_id: self.sequence@,
        }
    }
}

impl OrderBook {
    /// An engine with empty books that awaits its first snapshot.
    pub fn new() -> (book: Self)
        ensures
            book@ == BookState::start(),
            book@.well_formed(),
    {
        OrderBook {
            bid_order_book: HashMap::new(),
            ask_order_book: HashMap::new(),
            max_bid: 0,
            min_ask: u64::MAX,
            sequence: SequenceGuard::new(),
        }
    }

    /// Handles one message of the feed and says what the transport has to do
    /// next.
    pub fn handle_message(&mut self, msg: LOBMessage) -> (action: Action)
        ensures
            final(self)@ == old(self)@.after(msg),
            final(self)@.well_formed(),
            action == old(self)@.action(msg),
    {
        match msg.message_type {
            MessageTypeEnum::Snapshot => {
                let result = process_snapshot(
                    msg,
                    &mut self.bid_order_book,
                    &mut self.ask_order_book,
                );
                proof {
                    lemma_best_unique(Side::Bid, self.bid_order_book@, result.0);
                    lemma_best_unique(Side::Ask, self.ask_order_book@, result.1);
                }
                self.max_bid = result.0;
                self.min_ask = result.1;
                self.sequence.advance(result.2);
                Action::Continue
            },
            MessageTypeEnum::Change => {
                if self.sequence.accepts(msg.prev_change_id) {
                    let result = process_change(
                        msg,
                        &mut self.bid_order_book,
                        &mut self.ask_order_book,
                        self.max_bid,
                        self.min_ask,
                    );
                    self.max_bid = result.0;
                    self.min_ask = result.1;
                    self.sequence.advance(result.2);
                    Action::Continue
                } else {
                    self.bid_order_book.clear();
                    self.ask_order_book.clear();
                    self.max_bid = 0;
                    self.min_ask = u64::MAX;
                    self.sequence.reset();
                    Action::Resubscribe
                }
            },
        }
    }

    /// The best bid as the cache names it, price and quantity. Nothing where
    /// the bid side holds no level at the cached price, which in a consistent
    /// state means that it holds no level at all.
    pub fn best_bid(&self) -> (level: Option<(u64, u64)>)
        ensures
            level == level_at(self@.bids, self@.max_bid),
    {
        best_level(&self.bid_order_book, self.max_bid)
    }

    /// The best ask as the cache names it, price and quantity. Nothing where
    /// the ask side holds no level at the cached price, which in a consistent
    /// state means that it holds no level at all.
    pub fn best_ask(&self) -> (level: Option<(u64, u64)>)
        ensures
            level == level_at(self@.asks, self@.min_ask),
    {
        best_level(&self.ask_order_book, self.min_ask)
    }

    /// The best bid and the best ask in one reading of the state, for output:
    /// each with its quantity, each left out while its side has none.
    pub fn best_orders(&self) -> (orders: (Option<(u64, u64)>, Option<(u64, u64)>))
        ensures
            orders.0 == level_at(self@.bids, self@.max_bid),
            orders.1 == level_at(self@.asks, self@.min_ask),
    {
        (self.best_bid(), self.best_ask())
    }

    /// The book of one side, to read its levels.
    pub fn levels(&self, side: Side) -> (book: &HashMap<u64, u64>)
        ensures
            book@ == self@.levels(side),
    {
        match side {
            Side::Bid => &self.bid_order_book,
            Side::Ask => &self.ask_order_book,
        }
    }

    /// The number of the last message applied, `None` while a snapshot is
    /// awaited.
    pub fn last_change_id(&self) -> (last: Option<u64>)
        ensures
            last == self@.last_change_id,
    {
        self.sequence.last_change_id()
    }
}

} // verus!
