//! What each kind of agent quotes, as functions of what it sees of one suit.

use vstd::prelude::*;
use crate::inventory::Inventory;
use crate::market::{Book, Card, Direction, Order, PlayerName};
use crate::orders::offer;

verus! {

/// The price ceilings of the pick-off agent at `seconds_left`: it buys below
/// the first and sells at or above the second. Both fall as the round runs
/// out.
pub open spec fn price_limits(seconds_left: u64) -> (usize, usize) {
    if seconds_left < 20 {
        (0, 0)
    } else if seconds_left < 40 {
        (2, 3)
    } else if seconds_left < 60 {
        (3, 4)
    } else if seconds_left < 120 {
        (4, 6)
    } else {
        (5, 8)
    }
}

/// The orders of the pick-off agent for one suit, in the order sent: it lifts
/// a cheap ask while it holds at most two, and with any holding it hits a
/// bid at or above its closing price and undercuts an ask above five by one.
pub open spec fn pick_off_orders(
    name: PlayerName,
    seconds_left: u64,
    inventory: usize,
    book: Book,
    card: Card,
) -> Seq<Order> {
    let limits = price_limits(seconds_left);
    let lift = if inventory <= 2 && book.ask.price < limits.0 {
        offer(name, book.ask.price as int, Direction::Buy, card, book)
    } else {
        Seq::empty()
    };
    let hit = if inventory > 0 && book.bid.price >= limits.1 {
        offer(name, book.bid.price as int, Direction::Sell, card, book)
    } else {
        Seq::empty()
    };
    let undercut = if inventory > 0 && book.ask.price > 5 {
        offer(name, book.ask.price - 1, Direction::Sell, card, book)
    } else {
        Seq::empty()
    };
    lift + hit + undercut
}

/// The lowest ask that the seller still undercuts is one above this floor:
/// seven while more than thirty seconds are left, four after that.
pub open spec fn seller_floor(seconds_left: u64) -> int {
    if seconds_left > 30 {
        7
    } else {
        4
    }
}

/// The orders of the seller for one suit: with any holding it undercuts an
/// ask above its floor by one.
pub open spec fn sell_orders(
    name: PlayerName,
    seconds_left: u64,
    inventory: usize,
    book: Book,
    card: Card,
) -> Seq<Order> {
    if inventory > 0 && book.ask.price > seller_floor(seconds_left) {
        offer(name, book.ask.price - 1, Direction::Sell, card, book)
    } else {
        Seq::empty()
    }
}

/// A price with a premium of one quarter, to the nearest whole price, a half
/// going up.
pub open spec fn marked_up(last: int) -> int {
    (5 * last + 2) / 4
}

/// A price with a discount of one quarter, to the nearest whole price, a half
/// going up.
pub open spec fn marked_down(last: int) -> int {
    (3 * last + 2) / 4
}

/// The asks of the spread agent for one suit, made only with a holding.
/// After a trade: the last price with its premium where that price is above
/// ten, and ten where the ask is above ten. Before any trade: the ask
/// undercut by one where it is above seven.
pub open spec fn spread_asks(name: PlayerName, inventory: usize, book: Book, card: Card) -> Seq<
    Order,
> {
    if inventory > 0 {
        match book.last_trade {
            Some(last) => {
                let premium = if last > 10 {
                    offer(name, marked_up(last as int), Direction::Sell, card, book)
                } else {
                    Seq::empty()
                };
                let cap = if book.ask.price > 10 {
                    offer(name, 10, Direction::Sell, card, book)
                } else {
                    Seq::empty()
                };
                premium + cap
            },
            None => {
                if book.ask.price > 7 {
                    offer(name, book.ask.price - 1, Direction::Sell, card, book)
                } else {
                    Seq::empty()
                }
            },
        }
    } else {
        Seq::empty()
    }
}

/// The bids of the spread agent for one suit, made only while more than
/// twenty seconds are left. After a trade: four where the last price is
/// below four, and the last price with its discount where that is below
/// eight. Before any trade: the bid raised by one.
pub open spec fn spread_bids(name: PlayerName, seconds_left: u64, book: Book, card: Card) -> Seq<
    Order,
> {
    if seconds_left > 20 {
        match book.last_trade {
            Some(last) => {
                let floor = if last < 4 {
                    offer(name, 4, Direction::Buy, card, book)
                } else {
                    Seq::empty()
                };
                let discount = if marked_down(last as int) < 8 {
                    offer(name, marked_down(last as int), Direction::Buy, card, book)
                } else {
                    Seq::empty()
                };
                floor + discount
            },
            None => offer(name, book.bid.price + 1, Direction::Buy, card, book),
        }
    } else {
        Seq::empty()
    }
}

/// The orders of the spread agent for one suit: its asks, and after them its
/// bids.
pub open spec fn spread_orders(
    name: PlayerName,
    seconds_left: u64,
    inventory: usize,
    book: Book,
    card: Card,
) -> Seq<Order> {
    spread_asks(name, inventory, book, card) + spread_bids(name, seconds_left, book, card)
}

/// The suit that a roll of the noisy trader picks: one to four name spades,
/// clubs, diamonds and hearts.
pub open spec fn rolled_card(roll: u64) -> Card {
    if roll == 2 {
        Card::Club
    } else if roll == 3 {
        Card::Diamond
    } else if roll == 4 {
        Card::Heart
    } else {
        Card::Spade
    }
}

/// The holding that the noisy trader goes by after a roll: that of the suit
/// picked, and none for a roll outside one to four.
pub open spec fn rolled_holding(inventory: Inventory, roll: u64) -> int {
    if 1 <= roll <= 4 {
        inventory.held(rolled_card(roll))
    } else {
        0
    }
}

/// The book that the noisy trader goes by after a roll: that of the suit
/// picked.
pub open spec fn rolled_book(
    spades_book: Book,
    clubs_book: Book,
    diamonds_book: Book,
    hearts_book: Book,
    roll: u64,
) -> Book {
    match rolled_card(roll) {
        Card::Spade => spades_book,
        Card::Club => clubs_book,
        Card::Diamond => diamonds_book,
        Card::Heart => hearts_book,
    }
}

/// The order of the noisy trader for a roll, a coin and a price. On heads it
/// bids the price drawn while it holds fewer than four of the suit; on tails
/// it asks the price drawn while it holds any. It never asks for a suit of
/// which it holds none.
pub open spec fn noisy_orders(
    name: PlayerName,
    inventory: Inventory,
    spades_book: Book,
    clubs_book: Book,
    diamonds_book: Book,
    hearts_book: Book,
    roll: u64,
    heads: bool,
    price: usize,
) -> Seq<Order> {
    let holding = rolled_holding(inventory, roll);
    let card = rolled_card(roll);
    let book = rolled_book(spades_book, clubs_book, diamonds_book, hearts_book, roll);
    if heads && holding < 4 {
        offer(name, price as int, Direction::Buy, card, book)
    } else if !heads && holding > 0 {
        offer(name, price as int, Direction::Sell, card, book)
    } else {
        Seq::empty()
    }
}

/// Whether every sell order of `orders` is for a suit of which `inventory`
/// holds at least one card.
pub open spec fn sells_only_held(orders: Seq<Order>, inventory: Inventory) -> bool {
    forall|i: int|
        0 <= i < orders.len() && (#[trigger] orders[i]).direction == Direction::Sell
            ==> inventory.held(orders[i].card) > 0
}

/// Whether no order of `orders` is a sell order.
pub open spec fn sells_nothing(orders: Seq<Order>) -> bool {
    forall|i: int| 0 <= i < orders.len() ==> (#[trigger] orders[i]).direction != Direction::Sell
}

/// `marked_up`, held at the highest price where it would pass it.
pub fn premium(last: usize) -> (price: usize)
    ensures
        price == if marked_up(last as int) <= usize::MAX {
            marked_up(last as int)
        } else {
            usize::MAX as int
        },
{
    let wide: u128 = (last as u128 * 5 + 2) / 4;
    if wide > usize::MAX as u128 {
        usize::MAX
    } else {
        wide as usize
    }
}

/// `marked_down`, which never passes the price it starts from.
pub fn discount(last: usize) -> (price: usize)
    ensures
        price == marked_down(last as int),
        price <= last,
{
    let wide: u128 = (last as u128 * 3 + 2) / 4;
    wide as usize
}

} // verus!
