//! The screen every order passes before it is sent: it must improve on the
//! resting quote of its own side, and that quote must belong to someone else.

use vstd::prelude::*;
use crate::market::{Book, Card, Direction, Order, PlayerName, Quote};

verus! {

/// The resting quote that an order in `direction` competes with: the bid for
/// a buy, the ask for a sell.
pub open spec fn resting(direction: Direction, book: Book) -> Quote {
    match direction {
        Direction::Buy => book.bid,
        Direction::Sell => book.ask,
    }
}

/// Whether an order of `name` at `price` passes the screen: a buy must bid
/// above the resting bid, a sell must ask below the resting ask, and that
/// resting quote must not be the agent's own. The quote on the other side of
/// the book is not looked at.
pub open spec fn improves(name: PlayerName, price: int, direction: Direction, book: Book) -> bool {
    &&& resting(direction, book).player_name != name
    &&& match direction {
        Direction::Buy => book.bid.price < price,
        Direction::Sell => book.ask.price > price,
    }
}

/// The order that `screen` lets through, if it lets one through.
pub open spec fn screened(
    name: PlayerName,
    price: usize,
    direction: Direction,
    card: Card,
    book: Book,
) -> Option<Order> {
    if improves(name, price as int, direction, book) {
        Some(Order { player_name: name, price, direction, card })
    } else {
        None
    }
}

/// What an attempt to quote `price` adds to the orders of a turn: the order,
/// where it passes the screen and the price is one that `usize` holds, and
/// nothing otherwise.
pub open spec fn offer(
    name: PlayerName,
    price: int,
    direction: Direction,
    card: Card,
    book: Book,
) -> Seq<Order> {
    if 0 <= price <= usize::MAX && improves(name, price, direction, book) {
        seq![Order { player_name: name, price: price as usize, direction, card }]
    } else {
        Seq::empty()
    }
}

/// Whether `order` is one that `name` may have sent against `book`: it
/// carries the agent's name and passes the screen.
pub open spec fn admissible(order: Order, name: PlayerName, book: Book) -> bool {
    &&& order.player_name == name
    &&& improves(name, order.price as int, order.direction, book)
}

/// Builds the order of `name` for `card` at `price`, if it passes the screen.
pub fn screen(
    name: PlayerName,
    price: usize,
    direction: Direction,
    card: Card,
    book: &Book,
) -> (order: Option<Order>)
    ensures
        order == screened(name, price, direction, card, *book),
        order matches Some(o) ==> admissible(o, name, *book) && o.card == card,
{
    let passes: bool = match direction {
        Direction::Buy => book.bid.price < price && book.bid.player_name != name,
        Direction::Sell => book.ask.price > price && book.ask.player_name != name,
    };
    if passes {
        Some(Order { player_name: name, price, direction, card })
    } else {
        None
    }
}

/// What a screened order adds to the orders of a turn: itself, or nothing.
pub open spec fn sent(order: Option<Order>) -> Seq<Order> {
    match order {
        Some(o) => seq![o],
        None => Seq::empty(),
    }
}

/// Appends `order` to `orders`, where there is one.
pub fn collect(orders: &mut Vec<Order>, order: Option<Order>)
    ensures
        final(orders)@ == old(orders)@ + sent(order),
{
    match order {
        Some(o) => {
            orders.push(o);
            assert(orders@ =~= old(orders)@ + seq![o]);
        },
        None => {
            assert(orders@ =~= old(orders)@ + Seq::<Order>::empty());
        },
    }
}

} // verus!
