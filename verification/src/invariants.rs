//! When the cached best of a side is its true extreme.
//!
//! The engine moves the cache on a new level, rescans on the delete of the
//! cached price and leaves it alone otherwise. The lemmas here say on which
//! feeds that is enough, and what holds on every feed.

use crate::engine::{Action, BookState};
use crate::message::{LOBMessage, MessageTypeEnum};
use crate::operations::{
    best_after, best_after_all, best_of, is_best, lemma_best_unique, level_at, levels_after,
    levels_after_all, snapshot_levels, PriceUpdate, Side, UpdateTypeEnum,
};
use vstd::prelude::*;

verus! {

/// The one kind of entry that can leave the cache behind is a change that puts
/// a level into the book, where none was, at a price that improves on the
/// cache. The feed sends a change only for a level it has announced, so every
/// entry of a well-formed feed keeps the best.
pub open spec fn keeps_best(
    side: Side,
    levels: Map<u64, u64>,
    best: u64,
    update: PriceUpdate,
) -> bool {
    update.update_type == UpdateTypeEnum::Change ==> levels.contains_key(update.price)
        || !side.improves(update.price, best)
}

/// Every entry of the batch keeps the best in the state it meets.
pub open spec fn all_keep_best(
    side: Side,
    levels: Map<u64, u64>,
    best: u64,
    updates: Seq<PriceUpdate>,
) -> bool
    decreases updates.len(),
{
    updates.len() == 0 || {
        &&& all_keep_best(side, levels, best, updates.drop_last())
        &&& keeps_best(
            side,
            levels_after_all(levels, updates.drop_last()),
            best_after_all(side, levels, best, updates.drop_last()),
            updates.last(),
        )
    }
}

/// The cache names a price of the book, or is the sentinel.
pub open spec fn is_listed(side: Side, levels: Map<u64, u64>, best: u64) -> bool {
    best == side.sentinel() || levels.contains_key(best)
}

/// A finite set of levels has an extreme price, and `best_of` is it.
pub proof fn lemma_best_exists(side: Side, levels: Map<u64, u64>)
    requires
        levels.dom().finite(),
    ensures
        is_best(side, levels, best_of(side, levels)),
    decreases levels.dom().len(),
{
    if levels.dom().len() == 0 {
        assert(forall|p: u64| !levels.dom().contains(p));
        assert(is_best(side, levels, side.sentinel()));
    } else {
        let k = levels.dom().choose();
        let rest = levels.remove(k);
        lemma_best_exists(side, rest);
        let b = best_of(side, rest);
        let candidate = if side.improves(k, b) {
            k
        } else {
            b
        };
        assert forall|p: u64| levels.contains_key(p) implies !side.improves(p, candidate) by {
            if p != k {
                assert(rest.contains_key(p));
            }
        }
        assert(is_best(side, levels, candidate));
    }
}

/// Where the cache is the true extreme, it names a level unless the side is
/// empty, and the level it names is at the best price.
pub proof fn lemma_best_level(side: Side, levels: Map<u64, u64>, best: u64)
    requires
        levels.dom().finite(),
        is_best(side, levels, best),
    ensures
        level_at(levels, best) is None <==> levels.dom().len() == 0,
        level_at(levels, best) matches Some(level) ==> level.0 == best_of(side, levels) && level.1
            == levels[level.0],
{
    if levels.dom().len() == 0 {
        assert(!levels.dom().contains(best));
    } else {
        let p = levels.dom().choose();
        assert(levels.contains_key(p));
    }
    lemma_best_unique(side, levels, best);
}

/// A batch leaves a finite book finite.
pub proof fn lemma_levels_stay_finite(levels: Map<u64, u64>, updates: Seq<PriceUpdate>)
    requires
        levels.dom().finite(),
    ensures
        levels_after_all(levels, updates).dom().finite(),
    decreases updates.len(),
{
    if updates.len() > 0 {
        lemma_levels_stay_finite(levels, updates.drop_last());
    }
}

/// A snapshot describes a finite book.
pub proof fn lemma_snapshot_finite(entries: Seq<PriceUpdate>)
    ensures
        snapshot_levels(entries).dom().finite(),
    decreases entries.len(),
{
    if entries.len() > 0 {
        lemma_snapshot_finite(entries.drop_last());
    }
}

/// From a state whose cache is the true extreme, one entry leads to such a
/// state again exactly when it keeps the best.
pub proof fn lemma_update_keeps_best(
    side: Side,
    levels: Map<u64, u64>,
    best: u64,
    update: PriceUpdate,
)
    requires
        levels.dom().finite(),
        is_best(side, levels, best),
    ensures
        is_best(side, levels_after(levels, update), best_after(side, levels, best, update))
            <==> keeps_best(side, levels, best, update),
{
    let after = levels_after(levels, update);
    match update.update_type {
        UpdateTypeEnum::New => {
            assert(is_best(side, after, best_after(side, levels, best, update)));
        },
        UpdateTypeEnum::Change => {
            if keeps_best(side, levels, best, update) {
                assert(is_best(side, after, best));
            } else {
                assert(after.contains_key(update.price));
            }
        },
        UpdateTypeEnum::Delete => {
            if update.price == best {
                lemma_best_exists(side, after);
            } else {
                assert(is_best(side, after, best));
            }
        },
    }
}

/// Where the cached best is the true extreme before a batch whose entries all
/// keep the best, it is the true extreme after every entry of the batch.
pub proof fn lemma_updates_keep_best(
    side: Side,
    levels: Map<u64, u64>,
    best: u64,
    updates: Seq<PriceUpdate>,
)
    requires
        levels.dom().finite(),
        is_best(side, levels, best),
        all_keep_best(side, levels, best, updates),
    ensures
        is_best(
            side,
            levels_after_all(levels, updates),
            best_after_all(side, levels, best, updates),
        ),
        best_after_all(side, levels, best, updates) == best_of(
            side,
            levels_after_all(levels, updates),
        ),
        forall|n: int|
            0 <= n <= updates.len() ==> is_best(
                side,
                #[trigger] levels_after_all(levels, updates.take(n)),
                best_after_all(side, levels, best, updates.take(n)),
            ),
    decreases updates.len(),
{
    if updates.len() > 0 {
        let front = updates.drop_last();
        lemma_updates_keep_best(side, levels, best, front);
        lemma_levels_stay_finite(levels, front);
        lemma_update_keeps_best(
            side,
            levels_after_all(levels, front),
            best_after_all(side, levels, best, front),
            updates.last(),
        );
        assert forall|n: int| 0 <= n <= updates.len() implies is_best(
            side,
            #[trigger] levels_after_all(levels, updates.take(n)),
            best_after_all(side, levels, best, updates.take(n)),
        ) by {
            if n == updates.len() {
                assert(updates.take(n) == updates);
            } else {
                assert(updates.take(n) == front.take(n));
            }
        }
    } else {
        assert forall|n: int| 0 <= n <= updates.len() implies is_best(
            side,
            #[trigger] levels_after_all(levels, updates.take(n)),
            best_after_all(side, levels, best, updates.take(n)),
        ) by {
            assert(updates.take(n) == updates);
        }
    }
    lemma_best_unique(
        side,
        levels_after_all(levels, updates),
        best_after_all(side, levels, best, updates),
    );
}

/// A change never moves the cached best, whether it names the best price or
/// another: it sets the quantity at its price and nothing else.
pub proof fn lemma_change_keeps_cache(
    side: Side,
    levels: Map<u64, u64>,
    best: u64,
    update: PriceUpdate,
)
    requires
        update.update_type == UpdateTypeEnum::Change,
    ensures
        best_after(side, levels, best, update) == best,
        levels_after(levels, update) == levels.insert(update.price, update.amount),
        levels_after(levels, update)[update.price] == update.amount,
        forall|p: u64|
            p != update.price ==> (#[trigger] levels_after(levels, update).contains_key(p)
                <==> levels.contains_key(p)),
        forall|p: u64|
            p != update.price && levels.contains_key(p) ==> #[trigger] levels_after(
                levels,
                update,
            )[p] == levels[p],
{
}

/// Deleting a price that the book does not hold changes neither the book nor
/// the cached best.
pub proof fn lemma_delete_absent(
    side: Side,
    levels: Map<u64, u64>,
    best: u64,
    update: PriceUpdate,
)
    requires
        is_best(side, levels, best),
        update.update_type == UpdateTypeEnum::Delete,
        !levels.contains_key(update.price),
    ensures
        levels_after(levels, update) == levels,
        best_after(side, levels, best, update) == best,
{
    assert(levels.remove(update.price) =~= levels);
    lemma_best_unique(side, levels, best);
}

/// Whatever the feed sends, a cache that names a price of the book or the
/// sentinel goes on doing so: no entry leaves it pointing at a level that is
/// gone.
pub proof fn lemma_cache_stays_listed(
    side: Side,
    levels: Map<u64, u64>,
    best: u64,
    updates: Seq<PriceUpdate>,
)
    requires
        levels.dom().finite(),
        is_listed(side, levels, best),
    ensures
        is_listed(
            side,
            levels_after_all(levels, updates),
            best_after_all(side, levels, best, updates),
        ),
    decreases updates.len(),
{
    if updates.len() > 0 {
        let front = updates.drop_last();
        lemma_cache_stays_listed(side, levels, best, front);
        lemma_levels_stay_finite(levels, front);
        let before = levels_after_all(levels, front);
        let update = updates.last();
        if update.update_type == UpdateTypeEnum::Delete && update.price == best_after_all(
            side,
            levels,
            best,
            front,
        ) {
            lemma_best_exists(side, before.remove(update.price));
        }
    }
}

/// Every entry of a change message keeps the best of its side.
pub open spec fn message_keeps_bests(state: BookState, msg: LOBMessage) -> bool {
    &&& all_keep_best(Side::Bid, state.bids, state.max_bid, msg.bids@)
    &&& all_keep_best(Side::Ask, state.asks, state.min_ask, msg.asks@)
}

/// Both caches name a level of their side, or are the sentinel.
pub open spec fn both_listed(state: BookState) -> bool {
    &&& is_listed(Side::Bid, state.bids, state.max_bid)
    &&& is_listed(Side::Ask, state.asks, state.min_ask)
}

/// The state that a feed leads to from the start.
pub open spec fn state_after_all(msgs: Seq<LOBMessage>) -> BookState
    decreases msgs.len(),
{
    if msgs.len() == 0 {
        BookState::start()
    } else {
        state_after_all(msgs.drop_last()).after(msgs.last())
    }
}

/// Every change of the feed that gets applied keeps the bests of the state it
/// meets.
pub open spec fn feed_keeps_bests(msgs: Seq<LOBMessage>) -> bool
    decreases msgs.len(),
{
    msgs.len() == 0 || {
        let state = state_after_all(msgs.drop_last());
        let msg = msgs.last();
        &&& feed_keeps_bests(msgs.drop_last())
        &&& msg.message_type == MessageTypeEnum::Change && state.accepts(msg)
            ==> message_keeps_bests(state, msg)
    }
}

/// A change that does not name the last message applied as its predecessor is
/// never applied: whatever it carries and whatever the books held, both sides
/// end empty, the numbering is forgotten and the transport is told to
/// subscribe again.
pub proof fn lemma_gap_clears_book(state: BookState, msg: LOBMessage)
    requires
        msg.message_type == MessageTypeEnum::Change,
        state.last_change_id != Some(msg.prev_change_id),
    ensures
        state.action(msg) == Action::Resubscribe,
        state.after(msg) == BookState::start(),
        state.after(msg).bids.dom().len() == 0,
        state.after(msg).asks.dom().len() == 0,
        state.after(msg).max_bid == 0,
        state.after(msg).min_ask == u64::MAX,
        state.after(msg).last_change_id is None,
{
}

/// A snapshot and a gap lead to a consistent state from any state. A change
/// that is applied leads from a consistent state to a consistent state when
/// its entries keep the bests.
pub proof fn lemma_message_keeps_consistent(state: BookState, msg: LOBMessage)
    requires
        state.well_formed(),
        msg.message_type == MessageTypeEnum::Change && state.accepts(msg) ==> state.consistent()
            && message_keeps_bests(state, msg),
    ensures
        state.after(msg).well_formed(),
        state.after(msg).consistent(),
{
    match msg.message_type {
        MessageTypeEnum::Snapshot => {
            lemma_snapshot_finite(msg.bids@);
            lemma_snapshot_finite(msg.asks@);
            lemma_best_exists(Side::Bid, snapshot_levels(msg.bids@));
            lemma_best_exists(Side::Ask, snapshot_levels(msg.asks@));
        },
        MessageTypeEnum::Change => {
            if state.accepts(msg) {
                lemma_levels_stay_finite(state.bids, msg.bids@);
                lemma_levels_stay_finite(state.asks, msg.asks@);
                lemma_updates_keep_best(Side::Bid, state.bids, state.max_bid, msg.bids@);
                lemma_updates_keep_best(Side::Ask, state.asks, state.min_ask, msg.asks@);
            }
        },
    }
}

/// In every state that a feed can lead to from the start, both cached bests
/// are the true extremes of their sides, as long as every change applied kept
/// the bests.
pub proof fn lemma_reachable_states_consistent(msgs: Seq<LOBMessage>)
    requires
        feed_keeps_bests(msgs),
    ensures
        state_after_all(msgs).well_formed(),
        state_after_all(msgs).consistent(),
    decreases msgs.len(),
{
    if msgs.len() > 0 {
        lemma_reachable_states_consistent(msgs.drop_last());
        lemma_message_keeps_consistent(state_after_all(msgs.drop_last()), msgs.last());
    }
}

/// In every state that any feed can lead to from the start, each cache names
/// a level of its side or is the sentinel.
pub proof fn lemma_reachable_states_listed(msgs: Seq<LOBMessage>)
    ensures
        state_after_all(msgs).well_formed(),
        both_listed(state_after_all(msgs)),
    decreases msgs.len(),
{
    if msgs.len() > 0 {
        let state = state_after_all(msgs.drop_last());
        let msg = msgs.last();
        lemma_reachable_states_listed(msgs.drop_last());
        match msg.message_type {
            MessageTypeEnum::Snapshot => {
                lemma_message_keeps_consistent(state, msg);
            },
            MessageTypeEnum::Change => {
                if state.accepts(msg) {
                    lemma_levels_stay_finite(state.bids, msg.bids@);
                    lemma_levels_stay_finite(state.asks, msg.asks@);
                    lemma_cache_stays_listed(Side::Bid, state.bids, state.max_bid, msg.bids@);
                    lemma_cache_stays_listed(Side::Ask, state.asks, state.min_ask, msg.asks@);
                }
            },
        }
    }
}

} // verus!
