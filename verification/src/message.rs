//! The decoded form of a feed message.

use crate::operations::PriceUpdate;
use vstd::prelude::*;

verus! {

/// The two kinds of feed message.
#[derive(Clone, Copy, Debug, PartialEq, Eq, Structural)]
pub enum MessageTypeEnum {
    /// A batch of operations that follows the message numbered
    /// `prev_change_id`.
    Change,
    /// The full content of both sides.
    Snapshot,
}

/// One message of the book channel. A snapshot carries no predecessor; its
/// `prev_change_id` is not read.
#[derive(Debug)]
pub struct LOBMessage {
    pub message_type: MessageTypeEnum,
    pub prev_change_id: u64,
    pub change_id: u64,
    pub bids: Vec<PriceUpdate>,
    pub asks: Vec<PriceUpdate>,
}

} // verus!
