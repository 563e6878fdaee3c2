//! What holds of the agents whatever the market sends them.

use vstd::prelude::*;
use crate::deal::{hand_in, Deal};
use crate::event::{Arrival, Delivery, Event, Next, IDLE_PAUSE_MILLIS};
use crate::inventory::Inventory;
use crate::market::{Book, Card, Direction, MarketSnapshot, Order, PlayerName, Trade};
use crate::orders::{admissible, offer, resting};
use crate::player::event_driven::ReactiveState;
use crate::player::generic::{Draw, PollingState, Turn};
use crate::strategy::{
    noisy_orders, pick_off_orders, rolled_book, rolled_card, sell_orders, sells_nothing,
    sells_only_held, spread_asks, spread_bids, spread_orders,
};

verus! {

/// Whether `delivery` is a market update.
pub open spec fn is_update(delivery: Delivery) -> bool {
    delivery matches Delivery::Event(Event::Update(_))
}

/// Whether `turn` is a wake-up of the decision loop or the delivery of a
/// market update.
pub open spec fn is_update_or_wake(turn: Turn) -> bool {
    match turn {
        Turn::Deliver(arrival) => is_update(arrival.delivery),
        Turn::Wake(_) => true,
    }
}

/// Whether every order of `orders` carries the name `name` and passes the
/// screen against the book that `market` shows of its suit.
pub open spec fn all_admissible(
    orders: Seq<Order>,
    name: PlayerName,
    market: MarketSnapshot,
) -> bool {
    forall|i: int|
        0 <= i < orders.len() ==> admissible(
            #[trigger] orders[i],
            name,
            market.book_of(orders[i].card),
        )
}

/// The books of a polling agent's cache, as a snapshot without a trade.
pub open spec fn cached_market(state: PollingState) -> MarketSnapshot {
    MarketSnapshot {
        spades: state.spades_book,
        clubs: state.clubs_book,
        diamonds: state.diamonds_book,
        hearts: state.hearts_book,
        trade: None,
    }
}

/// A reactive agent with trading off sends no order, and stays as it
/// is, however many market updates it is handed.
pub proof fn lemma_reactive_idle_updates_send_nothing(state: ReactiveState, feed: Seq<Arrival>)
    requires
        !state.trading,
        forall|i: int| 0 <= i < feed.len() ==> is_update((#[trigger] feed[i]).delivery),
    ensures
        state.ran(feed).orders == Seq::<Order>::empty(),
        state.ran(feed).state == state,
        state.ran(feed).halt is None,
    decreases feed.len(),
{
    if feed.len() > 0 {
        let front = feed.drop_last();
        assert forall|i: int| 0 <= i < front.len() implies is_update(
            (#[trigger] front[i]).delivery,
        ) by {
            assert(front[i] == feed[i]);
        }
        lemma_reactive_idle_updates_send_nothing(state, front);
        assert(is_update(feed[feed.len() - 1].delivery));
        assert(state.ran(feed).orders =~= Seq::<Order>::empty());
    }
}

/// A polling agent with trading off sends no order and keeps trading
/// off, however many market updates its listener takes in and however
/// often its decision loop wakes, whatever it would draw.
pub proof fn lemma_polling_idle_updates_send_nothing(
    state: PollingState,
    turns: Seq<(Turn, Draw)>,
)
    requires
        !state.trading,
        forall|i: int| 0 <= i < turns.len() ==> is_update_or_wake((#[trigger] turns[i]).0),
    ensures
        state.ran(turns).orders == Seq::<Order>::empty(),
        !state.ran(turns).state.trading,
    decreases turns.len(),
{
    if turns.len() > 0 {
        let front = turns.drop_last();
        assert forall|i: int| 0 <= i < front.len() implies is_update_or_wake(
            (#[trigger] front[i]).0,
        ) by {
            assert(front[i] == turns[i]);
        }
        lemma_polling_idle_updates_send_nothing(state, front);
        assert(is_update_or_wake(turns[turns.len() - 1].0));
        assert(state.ran(turns).orders =~= Seq::<Order>::empty());
    }
}

/// A single decision of a polling agent with trading off sends no
/// order, whatever it would draw.
pub proof fn lemma_idle_decision_sends_nothing(state: PollingState, now: u64, draw: Draw)
    requires
        !state.trading,
    ensures
        state.decided(now, draw).0 == Seq::<Order>::empty(),
{
}

/// A trade that can be booked moves exactly one card: the buyer's count of
/// the traded suit goes up by one, the count of a seller who is not also the
/// buyer goes down by one, no other suit changes, and the holdings of an
/// agent that is no party to the trade stay as they are.
pub proof fn lemma_trade_moves_one_card(inventory: Inventory, name: PlayerName, trade: Trade)
    requires
        inventory.can_settle(name, trade),
    ensures
        trade.buyer == name ==> inventory.settled(name, trade).held(trade.card) == inventory.held(
            trade.card,
        ) + 1,
        trade.buyer != name && trade.seller == name ==> inventory.settled(name, trade).held(
            trade.card,
        ) == inventory.held(trade.card) - 1,
        forall|other: Card|
            other != trade.card ==> inventory.settled(name, trade).held(other) == inventory.held(
                other,
            ),
        trade.buyer != name && trade.seller != name ==> inventory.settled(name, trade)
            == inventory,
{
}

/// An update whose trade can be booked leaves a listener with that trade
/// booked and recorded, whether trading is on or off.
pub proof fn lemma_listener_books_trade(
    state: PollingState,
    update: MarketSnapshot,
    trade: Trade,
    now: u64,
)
    requires
        update.trade == Some(trade),
        state.inventory.can_settle(state.name, trade),
    ensures
        state.heard(Delivery::Event(Event::Update(update)), now).0.inventory
            == state.inventory.settled(state.name, trade),
        state.heard(Delivery::Event(Event::Update(update)), now).0.trades == state.trades.push(
            trade,
        ),
        state.heard(Delivery::Event(Event::Update(update)), now).0.trading == state.trading,
{
}

/// An update whose trade can be booked leaves a reactive agent with trading
/// on with that trade booked and recorded.
pub proof fn lemma_reactive_books_trade(
    state: ReactiveState,
    update: MarketSnapshot,
    trade: Trade,
    now: u64,
)
    requires
        state.trading,
        update.trade == Some(trade),
        state.inventory.can_settle(state.name, trade),
    ensures
        state.reacted(Delivery::Event(Event::Update(update)), now).0.inventory
            == state.inventory.settled(state.name, trade),
        state.reacted(Delivery::Event(Event::Update(update)), now).0.trades == state.trades.push(
            trade,
        ),
{
}

/// A deal with a hand for the agent replaces whatever it held by that hand
/// and switches trading on; the end of a round switches it off. Both hold of the
/// reactive agent in any state.
pub proof fn lemma_reactive_round_bounds(
    state: ReactiveState,
    deal: Deal,
    hand: Inventory,
    now: u64,
)
    requires
        hand_in(deal@, state.name) == Some(hand),
    ensures
        state.reacted(Delivery::Event(Event::DealCards(deal)), now).0.inventory == hand,
        state.reacted(Delivery::Event(Event::DealCards(deal)), now).0.trading,
        state.reacted(Delivery::Event(Event::DealCards(deal)), now).0.timer == now,
        !state.reacted(Delivery::Event(Event::EndRound), now).0.trading,
{
}

/// A deal with a hand for the agent replaces whatever it held by that hand
/// and switches trading on; the end of a round switches it off, so that every
/// later decision finds it off and sends nothing. Both hold of the
/// polling agent in any state.
pub proof fn lemma_polling_round_bounds(
    state: PollingState,
    deal: Deal,
    hand: Inventory,
    now: u64,
    later: u64,
    draw: Draw,
)
    requires
        hand_in(deal@, state.name) == Some(hand),
    ensures
        state.heard(Delivery::Event(Event::DealCards(deal)), now).0.inventory == hand,
        state.heard(Delivery::Event(Event::DealCards(deal)), now).0.trading,
        state.heard(Delivery::Event(Event::DealCards(deal)), now).0.timer == now,
        !state.heard(Delivery::Event(Event::EndRound), now).0.trading,
        state.heard(Delivery::Event(Event::EndRound), now).0.decided(later, draw).0 == Seq::<
            Order,
        >::empty(),
{
}

/// An order that passes the screen never improves on a quote of the agent's
/// own: the resting quote on the order's own side, the bid for a buy and the
/// ask for a sell, belongs to someone else. Of the quote on the other side
/// nothing is said.
pub proof fn lemma_admissible_spares_own_quote(order: Order, name: PlayerName, book: Book)
    requires
        admissible(order, name, book),
    ensures
        resting(order.direction, book).player_name != name,
        resting(order.direction, book).player_name != order.player_name,
{
}

/// What one attempt to quote adds is admissible against the book it was
/// screened with.
proof fn lemma_offer_admissible(
    name: PlayerName,
    price: int,
    direction: Direction,
    card: Card,
    market: MarketSnapshot,
)
    ensures
        all_admissible(offer(name, price, direction, card, market.book_of(card)), name, market),
{
}

/// Admissible orders followed by admissible orders are admissible.
proof fn lemma_joined_admissible(
    first: Seq<Order>,
    second: Seq<Order>,
    name: PlayerName,
    market: MarketSnapshot,
)
    requires
        all_admissible(first, name, market),
        all_admissible(second, name, market),
    ensures
        all_admissible(first + second, name, market),
{
    assert forall|i: int| 0 <= i < (first + second).len() implies admissible(
        #[trigger] (first + second)[i],
        name,
        market.book_of((first + second)[i].card),
    ) by {
        if i < first.len() {
            assert((first + second)[i] == first[i]);
        } else {
            assert((first + second)[i] == second[i - first.len()]);
        }
    }
}

proof fn lemma_pick_off_admissible(
    name: PlayerName,
    seconds_left: u64,
    inventory: usize,
    card: Card,
    market: MarketSnapshot,
)
    ensures
        all_admissible(
            pick_off_orders(name, seconds_left, inventory, market.book_of(card), card),
            name,
            market,
        ),
{
    let book = market.book_of(card);
    lemma_offer_admissible(name, book.ask.price as int, Direction::Buy, card, market);
    lemma_offer_admissible(name, book.bid.price as int, Direction::Sell, card, market);
    lemma_offer_admissible(name, book.ask.price - 1, Direction::Sell, card, market);
}

proof fn lemma_sell_admissible(
    name: PlayerName,
    seconds_left: u64,
    inventory: usize,
    card: Card,
    market: MarketSnapshot,
)
    ensures
        all_admissible(
            sell_orders(name, seconds_left, inventory, market.book_of(card), card),
            name,
            market,
        ),
{
}

proof fn lemma_spread_admissible(
    name: PlayerName,
    seconds_left: u64,
    inventory: usize,
    card: Card,
    market: MarketSnapshot,
)
    ensures
        all_admissible(
            spread_orders(name, seconds_left, inventory, market.book_of(card), card),
            name,
            market,
        ),
{
    let book = market.book_of(card);
    assert(all_admissible(spread_asks(name, inventory, book, card), name, market));
    assert(all_admissible(spread_bids(name, seconds_left, book, card), name, market));
    lemma_joined_admissible(
        spread_asks(name, inventory, book, card),
        spread_bids(name, seconds_left, book, card),
        name,
        market,
    );
}

/// Every order that a reactive agent sends on an update carries its own
/// name and passes the screen against the book that the update shows of the
/// order's suit: none improves on a quote of the agent's own.
pub proof fn lemma_reactive_orders_admissible(
    state: ReactiveState,
    update: MarketSnapshot,
    now: u64,
)
    ensures
        all_admissible(
            state.reacted(Delivery::Event(Event::Update(update)), now).1,
            state.name,
            update,
        ),
{
    let orders = state.reacted(Delivery::Event(Event::Update(update)), now).1;
    if state.trading && state.update_fits(update) && state.name == PlayerName::PickOff {
        let after = state.with_update(update);
        let left = crate::event::remaining(after.timer, now);
        let spades = pick_off_orders(
            after.name,
            left,
            after.inventory.spades,
            update.spades,
            Card::Spade,
        );
        let clubs = pick_off_orders(
            after.name,
            left,
            after.inventory.clubs,
            update.clubs,
            Card::Club,
        );
        let diamonds = pick_off_orders(
            after.name,
            left,
            after.inventory.diamonds,
            update.diamonds,
            Card::Diamond,
        );
        let hearts = pick_off_orders(
            after.name,
            left,
            after.inventory.hearts,
            update.hearts,
            Card::Heart,
        );
        lemma_pick_off_admissible(after.name, left, after.inventory.spades, Card::Spade, update);
        lemma_pick_off_admissible(after.name, left, after.inventory.clubs, Card::Club, update);
        lemma_pick_off_admissible(
            after.name,
            left,
            after.inventory.diamonds,
            Card::Diamond,
            update,
        );
        lemma_pick_off_admissible(after.name, left, after.inventory.hearts, Card::Heart, update);
        lemma_joined_admissible(spades, clubs, state.name, update);
        lemma_joined_admissible(spades + clubs, diamonds, state.name, update);
        lemma_joined_admissible(spades + clubs + diamonds, hearts, state.name, update);
    }
}

/// Every order that a polling agent sends on a decision carries its own
/// name and passes the screen against the cached book of the order's suit:
/// none improves on a quote of the agent's own.
pub proof fn lemma_polling_orders_admissible(state: PollingState, now: u64, draw: Draw)
    ensures
        all_admissible(state.decided(now, draw).0, state.name, cached_market(state)),
{
    let market = cached_market(state);
    let name = state.name;
    let left = crate::event::remaining(state.timer, now);
    if state.trading {
        match state.name {
            PlayerName::Noisy => {
                assert(rolled_book(
                    state.spades_book,
                    state.clubs_book,
                    state.diamonds_book,
                    state.hearts_book,
                    draw.roll,
                ) == market.book_of(rolled_card(draw.roll)));
                lemma_offer_admissible(
                    name,
                    draw.price as int,
                    Direction::Sell,
                    rolled_card(draw.roll),
                    market,
                );
            },
            PlayerName::Seller => {
                let spades = sell_orders(
                    name,
                    left,
                    state.inventory.spades,
                    state.spades_book,
                    Card::Spade,
                );
                let clubs = sell_orders(
                    name,
                    left,
                    state.inventory.clubs,
                    state.clubs_book,
                    Card::Club,
                );
                let diamonds = sell_orders(
                    name,
                    left,
                    state.inventory.diamonds,
                    state.diamonds_book,
                    Card::Diamond,
                );
                let hearts = sell_orders(
                    name,
                    left,
                    state.inventory.hearts,
                    state.hearts_book,
                    Card::Heart,
                );
                lemma_sell_admissible(name, left, state.inventory.spades, Card::Spade, market);
                lemma_sell_admissible(name, left, state.inventory.clubs, Card::Club, market);
                lemma_sell_admissible(name, left, state.inventory.diamonds, Card::Diamond, market);
                lemma_sell_admissible(name, left, state.inventory.hearts, Card::Heart, market);
                lemma_joined_admissible(spades, clubs, name, market);
                lemma_joined_admissible(spades + clubs, diamonds, name, market);
                lemma_joined_admissible(spades + clubs + diamonds, hearts, name, market);
            },
            PlayerName::Spread => {
                let spades = spread_orders(
                    name,
                    left,
                    state.inventory.spades,
                    state.spades_book,
                    Card::Spade,
                );
                let clubs = spread_orders(
                    name,
                    left,
                    state.inventory.clubs,
                    state.clubs_book,
                    Card::Club,
                );
                let diamonds = spread_orders(
                    name,
                    left,
                    state.inventory.diamonds,
                    state.diamonds_book,
                    Card::Diamond,
                );
                let hearts = spread_orders(
                    name,
                    left,
                    state.inventory.hearts,
                    state.hearts_book,
                    Card::Heart,
                );
                lemma_spread_admissible(name, left, state.inventory.spades, Card::Spade, market);
                lemma_spread_admissible(name, left, state.inventory.clubs, Card::Club, market);
                lemma_spread_admissible(
                    name,
                    left,
                    state.inventory.diamonds,
                    Card::Diamond,
                    market,
                );
                lemma_spread_admissible(name, left, state.inventory.hearts, Card::Heart, market);
                lemma_joined_admissible(spades, clubs, name, market);
                lemma_joined_admissible(spades + clubs, diamonds, name, market);
                lemma_joined_admissible(spades + clubs + diamonds, hearts, name, market);
            },
            _ => {},
        }
    }
}

/// No strategy asks for a suit of which the agent holds none: with a holding
/// of zero, the pick-off agent, the seller and the spread agent send no sell
/// order for the suit, and the noisy trader sends no sell order for the suit
/// it rolled, whatever the books, the clock and the draws.
pub proof fn lemma_no_strategy_sells_a_suit_not_held(
    name: PlayerName,
    seconds_left: u64,
    book: Book,
    card: Card,
    inventory: Inventory,
    spades_book: Book,
    clubs_book: Book,
    diamonds_book: Book,
    hearts_book: Book,
    roll: u64,
    heads: bool,
    price: usize,
)
    ensures
        sells_nothing(pick_off_orders(name, seconds_left, 0, book, card)),
        sells_nothing(sell_orders(name, seconds_left, 0, book, card)),
        sells_nothing(spread_orders(name, seconds_left, 0, book, card)),
        inventory.held(rolled_card(roll)) == 0 ==> sells_nothing(
            noisy_orders(
                name,
                inventory,
                spades_book,
                clubs_book,
                diamonds_book,
                hearts_book,
                roll,
                heads,
                price,
            ),
        ),
        sells_only_held(
            noisy_orders(
                name,
                inventory,
                spades_book,
                clubs_book,
                diamonds_book,
                hearts_book,
                roll,
                heads,
                price,
            ),
            inventory,
        ),
{
}

/// The sell orders of one strategy for one suit are for a suit that is held,
/// where the count it is given is the count held of that suit.
proof fn lemma_suit_sells_only_held(
    name: PlayerName,
    seconds_left: u64,
    held: usize,
    book: Book,
    card: Card,
    inventory: Inventory,
)
    requires
        inventory.held(card) == held,
    ensures
        sells_only_held(pick_off_orders(name, seconds_left, held, book, card), inventory),
        sells_only_held(sell_orders(name, seconds_left, held, book, card), inventory),
        sells_only_held(spread_orders(name, seconds_left, held, book, card), inventory),
{
}

/// Orders that sell only what is held, followed by more of them, sell only
/// what is held.
proof fn lemma_joined_sells_only_held(first: Seq<Order>, second: Seq<Order>, inventory: Inventory)
    requires
        sells_only_held(first, inventory),
        sells_only_held(second, inventory),
    ensures
        sells_only_held(first + second, inventory),
{
    assert forall|i: int|
        0 <= i < (first + second).len() && (#[trigger] (first + second)[i]).direction
            == Direction::Sell implies inventory.held((first + second)[i].card) > 0 by {
        if i < first.len() {
            assert((first + second)[i] == first[i]);
        } else {
            assert((first + second)[i] == second[i - first.len()]);
        }
    }
}

/// A reactive agent sells only what it holds: every sell order that it sends
/// on an update is for a suit of which it holds at least one card once the
/// update's trade is booked.
pub proof fn lemma_reactive_sells_only_held(
    state: ReactiveState,
    update: MarketSnapshot,
    now: u64,
)
    ensures
        sells_only_held(
            state.reacted(Delivery::Event(Event::Update(update)), now).1,
            state.reacted(Delivery::Event(Event::Update(update)), now).0.inventory,
        ),
{
    if state.trading && state.update_fits(update) && state.name == PlayerName::PickOff {
        let after = state.with_update(update);
        let held = after.inventory;
        let left = crate::event::remaining(after.timer, now);
        let spades = pick_off_orders(after.name, left, held.spades, update.spades, Card::Spade);
        let clubs = pick_off_orders(after.name, left, held.clubs, update.clubs, Card::Club);
        let diamonds = pick_off_orders(
            after.name,
            left,
            held.diamonds,
            update.diamonds,
            Card::Diamond,
        );
        let hearts = pick_off_orders(after.name, left, held.hearts, update.hearts, Card::Heart);
        lemma_suit_sells_only_held(after.name, left, held.spades, update.spades, Card::Spade, held);
        lemma_suit_sells_only_held(after.name, left, held.clubs, update.clubs, Card::Club, held);
        lemma_suit_sells_only_held(
            after.name,
            left,
            held.diamonds,
            update.diamonds,
            Card::Diamond,
            held,
        );
        lemma_suit_sells_only_held(after.name, left, held.hearts, update.hearts, Card::Heart, held);
        lemma_joined_sells_only_held(spades, clubs, held);
        lemma_joined_sells_only_held(spades + clubs, diamonds, held);
        lemma_joined_sells_only_held(spades + clubs + diamonds, hearts, held);
    }
}

/// A polling agent sells only what it holds: every sell order that it sends
/// on a decision is for a suit of which its cache holds at least one card,
/// whatever it draws.
pub proof fn lemma_polling_sells_only_held(state: PollingState, now: u64, draw: Draw)
    ensures
        sells_only_held(state.decided(now, draw).0, state.inventory),
{
    let name = state.name;
    let held = state.inventory;
    let left = crate::event::remaining(state.timer, now);
    if state.trading && (state.name == PlayerName::Seller || state.name == PlayerName::Spread) {
        lemma_suit_sells_only_held(name, left, held.spades, state.spades_book, Card::Spade, held);
        lemma_suit_sells_only_held(name, left, held.clubs, state.clubs_book, Card::Club, held);
        lemma_suit_sells_only_held(
            name,
            left,
            held.diamonds,
            state.diamonds_book,
            Card::Diamond,
            held,
        );
        lemma_suit_sells_only_held(name, left, held.hearts, state.hearts_book, Card::Heart, held);
        if state.name == PlayerName::Seller {
            let spades = sell_orders(name, left, held.spades, state.spades_book, Card::Spade);
            let clubs = sell_orders(name, left, held.clubs, state.clubs_book, Card::Club);
            let diamonds = sell_orders(
                name,
                left,
                held.diamonds,
                state.diamonds_book,
                Card::Diamond,
            );
            let hearts = sell_orders(name, left, held.hearts, state.hearts_book, Card::Heart);
            lemma_joined_sells_only_held(spades, clubs, held);
            lemma_joined_sells_only_held(spades + clubs, diamonds, held);
            lemma_joined_sells_only_held(spades + clubs + diamonds, hearts, held);
        } else {
            let spades = spread_orders(name, left, held.spades, state.spades_book, Card::Spade);
            let clubs = spread_orders(name, left, held.clubs, state.clubs_book, Card::Club);
            let diamonds = spread_orders(
                name,
                left,
                held.diamonds,
                state.diamonds_book,
                Card::Diamond,
            );
            let hearts = spread_orders(name, left, held.hearts, state.hearts_book, Card::Heart);
            lemma_joined_sells_only_held(spades, clubs, held);
            lemma_joined_sells_only_held(spades + clubs, diamonds, held);
            lemma_joined_sells_only_held(spades + clubs + diamonds, hearts, held);
        }
    }
}

/// The pause after a decision, for a draw within the agent's bounds: with
/// trading on it lies from `lower_frequency` up to, and without,
/// `higher_frequency`; with trading off it is the idle pause, so that a
/// waiting agent never spins.
pub proof fn lemma_decision_pause(state: PollingState, now: u64, draw: Draw)
    requires
        draw.within(state.lower_frequency, state.higher_frequency),
    ensures
        state.trading ==> (state.decided(now, draw).1 matches Next::Sleep(pause)
            && state.lower_frequency <= pause < state.higher_frequency),
        !state.trading ==> state.decided(now, draw).1 == Next::Sleep(IDLE_PAUSE_MILLIS),
        IDLE_PAUSE_MILLIS > 0,
{
}

/// A reactive agent with trading off answers an update with the idle
/// pause: it never spins while it waits for a round.
pub proof fn lemma_reactive_idle_pause(state: ReactiveState, update: MarketSnapshot, now: u64)
    requires
        !state.trading,
    ensures
        state.reacted(Delivery::Event(Event::Update(update)), now).2 == Next::Sleep(
            IDLE_PAUSE_MILLIS,
        ),
        IDLE_PAUSE_MILLIS > 0,
{
}

} // verus!
