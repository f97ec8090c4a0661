//! Price-level operations on one side of the book.
//!
//! A side is a map from price to resting quantity together with a cached best
//! price. The functions here apply feed operations to the map and say what the
//! cache becomes; `crate::invariants` proves when the cache is the true extreme.

use std::collections::HashMap;
use vstd::prelude::*;

verus! {

broadcast use vstd::std_specs::hash::group_hash_axioms;

/// Which side of the book a level rests on.
#[derive(Clone, Copy, Debug, PartialEq, Eq, Structural)]
pub enum Side {
    Bid,
    Ask,
}

/// What a feed entry does to the level at its price.
#[derive(Clone, Copy, Debug, PartialEq, Eq, Structural)]
pub enum UpdateTypeEnum {
    New,
    Change,
    Delete,
}

/// One feed entry: an operation on the level at `price`. Both numbers are in
/// the caller's fixed-precision units.
#[derive(Clone, Copy, Debug, PartialEq, Eq, Structural)]
pub struct PriceUpdate {
    pub update_type: UpdateTypeEnum,
    pub price: u64,
    pub amount: u64,
}

impl Side {
    /// The value the cached best holds while the side has no level: no bid is
    /// below it, no ask above it.
    pub open spec fn sentinel(self) -> u64 {
        match self {
            Side::Bid => 0,
            Side::Ask => u64::MAX,
        }
    }

    /// `a` is a strictly better price than `b` on this side: higher for a bid,
    /// lower for an ask.
    pub open spec fn improves(self, a: u64, b: u64) -> bool {
        match self {
            Side::Bid => a > b,
            Side::Ask => a < b,
        }
    }
}

/// `best` is the extreme price of `levels`: the highest bid or the lowest ask
/// present, or the side's sentinel when there is none.
pub open spec fn is_best(side: Side, levels: Map<u64, u64>, best: u64) -> bool {
    &&& best == side.sentinel() || levels.contains_key(best)
    &&& forall|p: u64| levels.contains_key(p) ==> !side.improves(p, best)
}

/// The extreme price of `levels`, as a full scan finds it.
pub open spec fn best_of(side: Side, levels: Map<u64, u64>) -> u64 {
    choose|best: u64| is_best(side, levels, best)
}

/// The levels after one feed entry: a delete removes the price whatever
/// quantity it carries, anything else inserts or overwrites it.
pub open spec fn levels_after(levels: Map<u64, u64>, update: PriceUpdate) -> Map<u64, u64> {
    match update.update_type {
        UpdateTypeEnum::Delete => levels.remove(update.price),
        _ => levels.insert(update.price, update.amount),
    }
}

/// The cached best after one feed entry met `levels` with `best` cached.
///
/// A new level takes the cache over when it improves on it. A change leaves
/// the cache alone. Deleting the cached price itself calls for a rescan of
/// what remains; any other delete leaves the cache alone.
pub open spec fn best_after(
    side: Side,
    levels: Map<u64, u64>,
    best: u64,
    update: PriceUpdate,
) -> u64 {
    match update.update_type {
        UpdateTypeEnum::New => if side.improves(update.price, best) {
            update.price
        } else {
            best
        },
        UpdateTypeEnum::Change => best,
        UpdateTypeEnum::Delete => if update.price == best {
            best_of(side, levels.remove(update.price))
        } else {
            best
        },
    }
}

/// The levels after a batch, its entries applied in order.
pub open spec fn levels_after_all(
    levels: Map<u64, u64>,
    updates: Seq<PriceUpdate>,
) -> Map<u64, u64>
    decreases updates.len(),
{
    if updates.len() == 0 {
        levels
    } else {
        levels_after(levels_after_all(levels, updates.drop_last()), updates.last())
    }
}

/// The cached best after a batch, its entries applied in order.
pub open spec fn best_after_all(
    side: Side,
    levels: Map<u64, u64>,
    best: u64,
    updates: Seq<PriceUpdate>,
) -> u64
    decreases updates.len(),
{
    if updates.len() == 0 {
        best
    } else {
        best_after(
            side,
            levels_after_all(levels, updates.drop_last()),
            best_after_all(side, levels, best, updates.drop_last()),
            updates.last(),
        )
    }
}

/// The levels a snapshot describes: every entry inserted in order, whatever
/// operation it names, starting from nothing.
pub open spec fn snapshot_levels(entries: Seq<PriceUpdate>) -> Map<u64, u64>
    decreases entries.len(),
{
    if entries.len() == 0 {
        Map::empty()
    } else {
        snapshot_levels(entries.drop_last()).insert(entries.last().price, entries.last().amount)
    }
}

/// The level at `price`, price and quantity, if the book holds one.
pub open spec fn level_at(levels: Map<u64, u64>, price: u64) -> Option<(u64, u64)> {
    if levels.contains_key(price) {
        Some((price, levels[price]))
    } else {
        None
    }
}

/// A map has at most one extreme price, so a scan that finds one has found
/// `best_of`.
pub proof fn lemma_best_unique(side: Side, levels: Map<u64, u64>, best: u64)
    requires
        is_best(side, levels, best),
    ensures
        best_of(side, levels) == best,
        forall|other: u64| is_best(side, levels, other) ==> other == best,
{
    assert(is_best(side, levels, best_of(side, levels)));
}

fn empty_best(side: Side) -> (best: u64)
    ensures
        best == side.sentinel(),
{
    match side {
        Side::Bid => 0,
        Side::Ask => u64::MAX,
    }
}

fn improves(side: Side, a: u64, b: u64) -> (r: bool)
    ensures
        r == side.improves(a, b),
{
    match side {
        Side::Bid => a > b,
        Side::Ask => a < b,
    }
}

/// Scans every level of `book` for its extreme price.
pub fn compute_best(side: Side, book: &HashMap<u64, u64>) -> (best: u64)
    ensures
        is_best(side, book@, best),
        best == best_of(side, book@),
{
    let mut best: u64 = empty_best(side);
    for key in it: book.keys()
        invariant
            best == side.sentinel() || book@.contains_key(best),
            forall|j: int| 0 <= j < it.index() ==> !side.improves(*#[trigger] it.seq()[j], best),
    {
        if improves(side, *key, best) {
            best = *key;
        }
    }
    proof {
        lemma_best_unique(side, book@, best);
    }
    best
}

/// Applies one feed entry to `book` and returns the cached best that follows
/// from `best`.
pub fn apply_update(
    side: Side,
    book: &mut HashMap<u64, u64>,
    update: PriceUpdate,
    best: u64,
) -> (result: u64)
    ensures
        final(book)@ == levels_after(old(book)@, update),
        result == best_after(side, old(book)@, best, update),
{
    match update.update_type {
        UpdateTypeEnum::Change => {
            book.insert(update.price, update.amount);
            best
        },
        UpdateTypeEnum::New => {
            book.insert(update.price, update.amount);
            if improves(side, update.price, best) {
                update.price
            } else {
                best
            }
        },
        UpdateTypeEnum::Delete => {
            book.remove(&update.price);
            if update.price == best {
                compute_best(side, book)
            } else {
                best
            }
        },
    }
}

/// Applies a batch to `book`, entry by entry in the order given, and returns
/// the cached best that follows from `best`.
pub fn apply_updates(
    side: Side,
    book: &mut HashMap<u64, u64>,
    updates: &Vec<PriceUpdate>,
    best: u64,
) -> (result: u64)
    ensures
        final(book)@ == levels_after_all(old(book)@, updates@),
        result == best_after_all(side, old(book)@, best, updates@),
{
    let ghost start = book@;
    let mut current: u64 = best;
    let mut i: usize = 0;
    while i < updates.len()
        invariant
            i <= updates.len(),
            book@ == levels_after_all(start, updates@.take(i as int)),
            current == best_after_all(side, start, best, updates@.take(i as int)),
        decreases updates.len() - i,
    {
        proof {
            let next = updates@.take(i + 1);
            assert(next.drop_last() == updates@.take(i as int));
            assert(next.last() == updates@[i as int]);
        }
        current = apply_update(side, book, updates[i], current);
        i = i + 1;
    }
    proof {
        assert(updates@.take(i as int) == updates@);
    }
    current
}

/// Replaces whatever `book` held by the levels of a snapshot and returns their
/// extreme price, found by scanning the entries as they are loaded.
pub fn load_snapshot(
    side: Side,
    book: &mut HashMap<u64, u64>,
    entries: &Vec<PriceUpdate>,
) -> (best: u64)
    ensures
        final(book)@ == snapshot_levels(entries@),
        is_best(side, final(book)@, best),
        best == best_of(side, final(book)@),
{
    book.clear();
    let mut best: u64 = empty_best(side);
    let mut i: usize = 0;
    while i < entries.len()
        invariant
            i <= entries.len(),
            book@ == snapshot_levels(entries@.take(i as int)),
            is_best(side, book@, best),
        decreases entries.len() - i,
    {
        proof {
            let next = entries@.take(i + 1);
            assert(next.drop_last() == entries@.take(i as int));
            assert(next.last() == entries@[i as int]);
        }
        let entry = entries[i];
        if improves(side, entry.price, best) {
            best = entry.price;
        }
        book.insert(entry.price, entry.amount);
        i = i + 1;
    }
    proof {
        assert(entries@.take(i as int) == entries@);
        lemma_best_unique(side, book@, best);
    }
    best
}

/// Applies a batch of bid entries; `max_bid` is the cached best bid before it,
/// the result the cached best bid after it.
pub fn update_bids(
    bid_order_book: &mut HashMap<u64, u64>,
    bids: Vec<PriceUpdate>,
    max_bid: u64,
) -> (result: u64)
    ensures
        final(bid_order_book)@ == levels_after_all(old(bid_order_book)@, bids@),
        result == best_after_all(Side::Bid, old(bid_order_book)@, max_bid, bids@),
{
    apply_updates(Side::Bid, bid_order_book, &bids, max_bid)
}

/// Applies a batch of ask entries; `min_ask` is the cached best ask before it,
/// the result the cached best ask after it.
pub fn update_asks(
    ask_order_book: &mut HashMap<u64, u64>,
    asks: Vec<PriceUpdate>,
    min_ask: u64,
) -> (result: u64)
    ensures
        final(ask_order_book)@ == levels_after_all(old(ask_order_book)@, asks@),
        result == best_after_all(Side::Ask, old(ask_order_book)@, min_ask, asks@),
{
    apply_updates(Side::Ask, ask_order_book, &asks, min_ask)
}

/// Loads a snapshot of the bid side in place of what the book held and
/// returns the highest price loaded, 0 for an empty snapshot.
pub fn init_bids(
    bid_order_book: &mut HashMap<u64, u64>,
    bids: Vec<PriceUpdate>,
) -> (max_bid: u64)
    ensures
        final(bid_order_book)@ == snapshot_levels(bids@),
        is_best(Side::Bid, final(bid_order_book)@, max_bid),
{
    load_snapshot(Side::Bid, bid_order_book, &bids)
}

/// Loads a snapshot of the ask side in place of what the book held and
/// returns the lowest price loaded, `u64::MAX` for an empty snapshot.
pub fn init_asks(
    ask_order_book: &mut HashMap<u64, u64>,
    asks: Vec<PriceUpdate>,
) -> (min_ask: u64)
    ensures
        final(ask_order_book)@ == snapshot_levels(asks@),
        is_best(Side::Ask, final(ask_order_book)@, min_ask),
{
    load_snapshot(Side::Ask, ask_order_book, &asks)
}

/// The best level of a side as its cache names it: the cached price with its
/// resting quantity, or nothing where the book holds no level at that price.
pub fn best_level(book: &HashMap<u64, u64>, best: u64) -> (level: Option<(u64, u64)>)
    ensures
        level == level_at(book@, best),
{
    match book.get(&best) {
        Some(amount) => Some((best, *amount)),
        None => None,
    }
}

} // verus!
