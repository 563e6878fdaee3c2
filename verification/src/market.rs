//! The values that travel on the market: suits, quotes, books, trades, orders.

use vstd::prelude::*;

verus! {

/// One of the four tradable suits.
#[derive(Clone, Copy, Debug, PartialEq, Eq, Hash, Structural)]
pub enum Card {
    Spade,
    Club,
    Diamond,
    Heart,
}

/// The side of the book an order is placed on.
#[derive(Clone, Copy, Debug, PartialEq, Eq, Hash, Structural)]
pub enum Direction {
    Buy,
    Sell,
}

/// The identity of an agent. `Nobody` owns the quotes of an empty book.
#[derive(Clone, Copy, Debug, PartialEq, Eq, Hash, Structural)]
pub enum PlayerName {
    Nobody,
    PickOff,
    Noisy,
    Seller,
    Spread,
}

/// One side of a book: a resting price and the agent that owns it.
#[derive(Clone, Copy, Debug, PartialEq, Eq)]
pub struct Quote {
    pub price: usize,
    pub player_name: PlayerName,
}

/// Best bid, best ask and last traded price of one suit. A book is always
/// replaced whole.
#[derive(Clone, Copy, Debug, PartialEq, Eq)]
pub struct Book {
    pub bid: Quote,
    pub ask: Quote,
    pub last_trade: Option<usize>,
}

/// A realized match between a buyer and a seller.
#[derive(Clone, Copy, Debug, PartialEq, Eq)]
pub struct Trade {
    pub buyer: PlayerName,
    pub seller: PlayerName,
    pub card: Card,
    pub price: usize,
}

/// An agent's request to improve on a resting quote.
#[derive(Clone, Copy, Debug, PartialEq, Eq)]
pub struct Order {
    pub player_name: PlayerName,
    pub price: usize,
    pub direction: Direction,
    pub card: Card,
}

/// The market as one event shows it: the four books and the trade, if any,
/// that produced them.
#[derive(Clone, Copy, Debug, PartialEq, Eq)]
pub struct MarketSnapshot {
    pub spades: Book,
    pub clubs: Book,
    pub diamonds: Book,
    pub hearts: Book,
    pub trade: Option<Trade>,
}

impl Book {
    /// The book before anyone has quoted: a bid of zero and an ask at the
    /// highest price, both owned by `Nobody`, and no trade yet.
    pub open spec fn empty() -> Book {
        Book {
            bid: Quote { price: 0, player_name: PlayerName::Nobody },
            ask: Quote { price: usize::MAX, player_name: PlayerName::Nobody },
            last_trade: None,
        }
    }

    pub fn new() -> (book: Book)
        ensures
            book == Book::empty(),
    {
        Book {
            bid: Quote { price: 0, player_name: PlayerName::Nobody },
            ask: Quote { price: usize::MAX, player_name: PlayerName::Nobody },
            last_trade: None,
        }
    }
}

impl MarketSnapshot {
    /// The book of one suit.
    pub open spec fn book_of(self, card: Card) -> Book {
        match card {
            Card::Spade => self.spades,
            Card::Club => self.clubs,
            Card::Diamond => self.diamonds,
            Card::Heart => self.hearts,
        }
    }
}

} // verus!
