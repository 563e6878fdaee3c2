//! What the event bus carries, and what a subscriber is handed.

use vstd::prelude::*;
use crate::deal::Deal;
use crate::market::{MarketSnapshot, Order};

verus! {

/// One event of a round.
#[derive(Clone, Debug)]
pub enum Event {
    /// The books changed, possibly through a trade.
    Update(MarketSnapshot),
    /// A round begins with these hands.
    DealCards(Deal),
    /// The round is over.
    EndRound,
}

/// What one receive on the bus subscription gives.
#[derive(Clone, Debug)]
pub enum Delivery {
    /// The next event, in publication order.
    Event(Event),
    /// The subscriber fell behind and this many events were dropped; the
    /// subscription goes on with the oldest event still kept.
    Lagged(u64),
    /// Every publisher is gone: no event will follow.
    Closed,
}

/// A delivery and the clock reading, in seconds, at which it was received.
#[derive(Clone, Debug)]
pub struct Arrival {
    pub delivery: Delivery,
    pub at: u64,
}

/// Why an agent leaves its loop.
#[derive(Clone, Copy, Debug, PartialEq, Eq, Structural)]
pub enum HaltReason {
    /// The bus was closed: a graceful end.
    BusClosed,
    /// A deal held no hand for this agent.
    MissingInventory,
    /// A trade would take a count of cards below zero or past what `usize`
    /// holds.
    HoldingsOutOfRange,
}

/// What the runtime does once a step is taken.
#[derive(Clone, Copy, Debug, PartialEq, Eq)]
pub enum Next {
    /// Go on at once.
    Proceed,
    /// Sleep this many milliseconds, and go on.
    Sleep(u64),
    /// Warn that this many events were missed, and go on with the next one.
    Resync(u64),
    /// Leave the loop.
    Halt(HaltReason),
}

/// The reason for which `next` leaves the loop, if it does.
pub open spec fn halt_of(next: Next) -> Option<HaltReason> {
    match next {
        Next::Halt(reason) => Some(reason),
        _ => None,
    }
}

/// What one step of an agent asks of the runtime: the orders to send, in
/// this order, and what to do after that.
#[derive(Clone, Debug)]
pub struct Reaction {
    pub orders: Vec<Order>,
    pub next: Next,
}

/// What a run of an agent came to: every order it sent, oldest first, and
/// why it stopped, if it did before its input ended.
#[derive(Clone, Debug)]
pub struct Report {
    pub orders: Vec<Order>,
    pub halt: Option<HaltReason>,
}

/// The pause, in milliseconds, of an agent that finds trading switched off.
pub const IDLE_PAUSE_MILLIS: u64 = 1000;

/// The length of a round in seconds.
pub const ROUND_SECONDS: u64 = 240;

/// Seconds left in a round that began at clock reading `timer`, at reading
/// `now`: the round's length less the time elapsed, and zero once it is
/// over. A reading before `timer` counts as no time elapsed.
pub open spec fn remaining(timer: u64, now: u64) -> u64 {
    if now <= timer {
        ROUND_SECONDS
    } else if now - timer >= ROUND_SECONDS {
        0
    } else {
        (ROUND_SECONDS - (now - timer)) as u64
    }
}

pub fn seconds_left(timer: u64, now: u64) -> (left: u64)
    ensures
        left == remaining(timer, now),
{
    if now <= timer {
        ROUND_SECONDS
    } else if now - timer >= ROUND_SECONDS {
        0
    } else {
        ROUND_SECONDS - (now - timer)
    }
}

} // verus!
