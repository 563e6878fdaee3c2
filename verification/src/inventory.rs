//! An agent's holdings, one count per suit.

use vstd::prelude::*;
use crate::market::{Card, PlayerName, Trade};

verus! {

/// How many cards of each suit an agent holds.
#[derive(Clone, Copy, Debug, PartialEq, Eq)]
pub struct Inventory {
    pub spades: usize,
    pub clubs: usize,
    pub diamonds: usize,
    pub hearts: usize,
}

impl Inventory {
    /// The count held of one suit.
    pub open spec fn held(self, card: Card) -> int {
        match card {
            Card::Spade => self.spades as int,
            Card::Club => self.clubs as int,
            Card::Diamond => self.diamonds as int,
            Card::Heart => self.hearts as int,
        }
    }

    /// Whether one more card of `card` (`gained`), or one fewer, is a count
    /// that `usize` can hold.
    pub open spec fn can_move(self, card: Card, gained: bool) -> bool {
        if gained {
            self.held(card) < usize::MAX
        } else {
            self.held(card) > 0
        }
    }

    /// The holdings with one card of `card` gained or given away. Meaningful
    /// where `can_move` holds.
    pub open spec fn moved(self, card: Card, gained: bool) -> Inventory {
        let count = if gained {
            (self.held(card) + 1) as usize
        } else {
            (self.held(card) - 1) as usize
        };
        match card {
            Card::Spade => Inventory { spades: count, ..self },
            Card::Club => Inventory { clubs: count, ..self },
            Card::Diamond => Inventory { diamonds: count, ..self },
            Card::Heart => Inventory { hearts: count, ..self },
        }
    }

    /// Whether `trade` can be booked for the agent `name`: always when the
    /// agent is no party to it, otherwise when the count stays in range.
    pub open spec fn can_settle(self, name: PlayerName, trade: Trade) -> bool {
        if trade.buyer == name {
            self.can_move(trade.card, true)
        } else if trade.seller == name {
            self.can_move(trade.card, false)
        } else {
            true
        }
    }

    /// The holdings of `name` once `trade` is booked: one more of the traded
    /// suit for the buyer, one fewer for the seller, unchanged for anyone
    /// else. An agent on both sides of a trade is booked as its buyer.
    pub open spec fn settled(self, name: PlayerName, trade: Trade) -> Inventory {
        if trade.buyer == name {
            self.moved(trade.card, true)
        } else if trade.seller == name {
            self.moved(trade.card, false)
        } else {
            self
        }
    }

    /// Empty hands.
    pub fn new() -> (inventory: Inventory)
        ensures
            inventory == (Inventory { spades: 0, clubs: 0, diamonds: 0, hearts: 0 }),
    {
        Inventory { spades: 0, clubs: 0, diamonds: 0, hearts: 0 }
    }

    pub fn count(&self, card: Card) -> (n: usize)
        ensures
            n == self.held(card),
    {
        match card {
            Card::Spade => self.spades,
            Card::Club => self.clubs,
            Card::Diamond => self.diamonds,
            Card::Heart => self.hearts,
        }
    }

    pub fn can_change(&self, card: Card, gained: bool) -> (ok: bool)
        ensures
            ok == self.can_move(card, gained),
    {
        let n: usize = self.count(card);
        if gained {
            n < usize::MAX
        } else {
            n > 0
        }
    }

    /// Books one card of `card` gained (`gained`) or given away.
    pub fn change(&mut self, card: Card, gained: bool)
        requires
            old(self).can_move(card, gained),
        ensures
            *final(self) == old(self).moved(card, gained),
            final(self).held(card) == old(self).held(card) + (if gained { 1int } else { -1int }),
            forall|other: Card| other != card ==> final(self).held(other) == old(self).held(other),
    {
        match card {
            Card::Spade => {
                self.spades = if gained { self.spades + 1 } else { self.spades - 1 };
            },
            Card::Club => {
                self.clubs = if gained { self.clubs + 1 } else { self.clubs - 1 };
            },
            Card::Diamond => {
                self.diamonds = if gained { self.diamonds + 1 } else { self.diamonds - 1 };
            },
            Card::Heart => {
                self.hearts = if gained { self.hearts + 1 } else { self.hearts - 1 };
            },
        }
    }

    /// Books `trade` for the agent `name`, where it can be booked; says
    /// whether it was.
    pub fn settle(&mut self, name: PlayerName, trade: &Trade) -> (booked: bool)
        ensures
            booked == old(self).can_settle(name, *trade),
            booked ==> *final(self) == old(self).settled(name, *trade),
            !booked ==> *final(self) == *old(self),
    {
        if trade.buyer == name {
            if self.can_change(trade.card, true) {
                self.change(trade.card, true);
                true
            } else {
                false
            }
        } else if trade.seller == name {
            if self.can_change(trade.card, false) {
                self.change(trade.card, false);
                true
            } else {
                false
            }
        } else {
            true
        }
    }
}

} // verus!
