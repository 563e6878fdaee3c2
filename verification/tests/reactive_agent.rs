use card_market::deal::Deal;
use card_market::event::{Arrival, Delivery, Event, HaltReason, Next};
use card_market::inventory::Inventory;
use card_market::market::{
    Book, Card, Direction, MarketSnapshot, Order, PlayerName, Quote, Trade,
};
use card_market::player::event_driven::EventDrivenPlayer;

fn book(bid: usize, bid_owner: PlayerName, ask: usize, ask_owner: PlayerName) -> Book {
    Book {
        bid: Quote { price: bid, player_name: bid_owner },
        ask: Quote { price: ask, player_name: ask_owner },
        last_trade: None,
    }
}

fn quiet() -> Book {
    // Nothing here tempts the pick-off agent while it holds nothing.
    book(0, PlayerName::Nobody, 50, PlayerName::Nobody)
}

fn snapshot(spades: Book, trade: Option<Trade>) -> MarketSnapshot {
    MarketSnapshot { spades, clubs: quiet(), diamonds: quiet(), hearts: quiet(), trade }
}

fn deal_for(name: PlayerName, hand: Inventory) -> Deal {
    let mut deal = Deal::new();
    deal.insert(name, hand);
    deal
}

fn order(name: PlayerName, price: usize, direction: Direction, card: Card) -> Order {
    Order { player_name: name, price, direction, card }
}

#[test]
fn a_new_reactive_agent_waits_with_empty_hands() {
    let p = EventDrivenPlayer::new(PlayerName::PickOff, true, 17);
    assert_eq!(p.name, PlayerName::PickOff);
    assert!(p.verbose);
    assert_eq!(p.timer, 17);
    assert_eq!(p.inventory, Inventory::new());
    assert!(p.trades.is_empty());
    assert!(!p.trading);
}

#[test]
fn price_limits_fall_as_the_round_runs_out() {
    let p = EventDrivenPlayer::new(PlayerName::PickOff, false, 0);
    assert_eq!(p.get_max_price_from_seconds(0), (0, 0));
    assert_eq!(p.get_max_price_from_seconds(19), (0, 0));
    assert_eq!(p.get_max_price_from_seconds(20), (2, 3));
    assert_eq!(p.get_max_price_from_seconds(39), (2, 3));
    assert_eq!(p.get_max_price_from_seconds(40), (3, 4));
    assert_eq!(p.get_max_price_from_seconds(59), (3, 4));
    assert_eq!(p.get_max_price_from_seconds(60), (4, 6));
    assert_eq!(p.get_max_price_from_seconds(119), (4, 6));
    assert_eq!(p.get_max_price_from_seconds(120), (5, 8));
    assert_eq!(p.get_max_price_from_seconds(240), (5, 8));
    assert_eq!(p.get_max_price_from_seconds(u64::MAX), (5, 8));
}

#[test]
fn reactive_send_order_refuses_the_agents_own_quote() {
    let p = EventDrivenPlayer::new(PlayerName::PickOff, false, 0);
    let own = book(2, PlayerName::PickOff, 9, PlayerName::PickOff);
    assert_eq!(p.send_order(8, Direction::Sell, &Card::Spade, &own), None);
    assert_eq!(p.send_order(3, Direction::Buy, &Card::Spade, &own), None);
    let other = book(2, PlayerName::Noisy, 9, PlayerName::Noisy);
    assert_eq!(
        p.send_order(8, Direction::Sell, &Card::Spade, &other),
        Some(order(PlayerName::PickOff, 8, Direction::Sell, Card::Spade))
    );
    assert_eq!(
        p.send_order(3, Direction::Buy, &Card::Spade, &other),
        Some(order(PlayerName::PickOff, 3, Direction::Buy, Card::Spade))
    );
}

#[test]
fn pick_off_lifts_a_cheap_ask_while_it_holds_little() {
    let p = EventDrivenPlayer::new(PlayerName::PickOff, false, 0);
    let b = book(1, PlayerName::Noisy, 4, PlayerName::Seller);
    // 200 seconds left: buys below 5, sells from 8.
    assert_eq!(
        p.pick_off(200, 0, b, Card::Club),
        vec![order(PlayerName::PickOff, 4, Direction::Buy, Card::Club)]
    );
    assert_eq!(
        p.pick_off(200, 2, b, Card::Club),
        vec![order(PlayerName::PickOff, 4, Direction::Buy, Card::Club)]
    );
    assert_eq!(p.pick_off(200, 3, b, Card::Club), vec![]);
    // 100 seconds left: buys below 4 only.
    assert_eq!(p.pick_off(100, 0, b, Card::Club), vec![]);
}

#[test]
fn pick_off_hits_a_rich_bid_and_undercuts_a_rich_ask() {
    let p = EventDrivenPlayer::new(PlayerName::PickOff, false, 0);
    let b = book(8, PlayerName::Noisy, 12, PlayerName::Seller);
    assert_eq!(
        p.pick_off(200, 1, b, Card::Heart),
        vec![
            order(PlayerName::PickOff, 8, Direction::Sell, Card::Heart),
            order(PlayerName::PickOff, 11, Direction::Sell, Card::Heart),
        ]
    );
    let lower_bid = book(7, PlayerName::Noisy, 12, PlayerName::Seller);
    assert_eq!(
        p.pick_off(200, 1, lower_bid, Card::Heart),
        vec![order(PlayerName::PickOff, 11, Direction::Sell, Card::Heart)]
    );
    let low_ask = book(2, PlayerName::Noisy, 5, PlayerName::Seller);
    assert_eq!(p.pick_off(200, 5, low_ask, Card::Heart), vec![]);
    assert_eq!(p.pick_off(200, 0, b, Card::Heart), vec![]);
}

#[test]
fn pick_off_sells_at_any_bid_in_the_last_seconds() {
    let p = EventDrivenPlayer::new(PlayerName::PickOff, false, 0);
    let b = book(1, PlayerName::Noisy, 3, PlayerName::Seller);
    assert_eq!(
        p.pick_off(10, 1, b, Card::Spade),
        vec![order(PlayerName::PickOff, 1, Direction::Sell, Card::Spade)]
    );
}

#[test]
fn pick_off_tightens_its_prices_near_the_end() {
    let p = EventDrivenPlayer::new(PlayerName::PickOff, false, 0);
    // With 25 seconds left it buys below 2 and sells from 3.
    let b = book(0, PlayerName::Noisy, 1, PlayerName::Seller);
    assert_eq!(
        p.pick_off(25, 1, b, Card::Spade),
        vec![order(PlayerName::PickOff, 1, Direction::Buy, Card::Spade)]
    );
    let wide = book(3, PlayerName::Noisy, 9, PlayerName::Seller);
    assert_eq!(
        p.pick_off(25, 1, wide, Card::Spade),
        vec![
            order(PlayerName::PickOff, 3, Direction::Sell, Card::Spade),
            order(PlayerName::PickOff, 8, Direction::Sell, Card::Spade),
        ]
    );
}

#[test]
fn an_idle_reactive_agent_leaves_an_update_unread_and_pauses() {
    let mut p = EventDrivenPlayer::new(PlayerName::PickOff, false, 0);
    p.inventory = Inventory { spades: 1, clubs: 0, diamonds: 0, hearts: 0 };
    let trade = Trade {
        buyer: PlayerName::PickOff,
        seller: PlayerName::Noisy,
        card: Card::Spade,
        price: 3,
    };
    let update = snapshot(book(8, PlayerName::Noisy, 12, PlayerName::Seller), Some(trade));
    let reaction = p.react(&Delivery::Event(Event::Update(update)), 5);
    assert!(reaction.orders.is_empty());
    assert_eq!(reaction.next, Next::Sleep(1000));
    assert_eq!(p.inventory, Inventory { spades: 1, clubs: 0, diamonds: 0, hearts: 0 });
    assert!(p.trades.is_empty());
    assert!(!p.trading);
}

#[test]
fn idle_updates_never_make_a_reactive_agent_send() {
    let mut p = EventDrivenPlayer::new(PlayerName::PickOff, false, 0);
    p.inventory = Inventory { spades: 2, clubs: 2, diamonds: 2, hearts: 2 };
    let mut feed: Vec<Arrival> = Vec::new();
    for at in 0..50u64 {
        let update = snapshot(book(9, PlayerName::Noisy, 12, PlayerName::Seller), None);
        feed.push(Arrival { delivery: Delivery::Event(Event::Update(update)), at });
    }
    let report = p.start(&feed);
    assert!(report.orders.is_empty());
    assert_eq!(report.halt, None);
    assert!(!p.trading);
    assert_eq!(p.inventory, Inventory { spades: 2, clubs: 2, diamonds: 2, hearts: 2 });
}

#[test]
fn a_deal_replaces_the_hand_switches_trading_on_and_restarts_the_timer() {
    let mut p = EventDrivenPlayer::new(PlayerName::PickOff, false, 0);
    p.inventory = Inventory { spades: 9, clubs: 9, diamonds: 9, hearts: 9 };
    let hand = Inventory { spades: 3, clubs: 1, diamonds: 0, hearts: 2 };
    let deal = deal_for(PlayerName::PickOff, hand);
    let reaction = p.react(&Delivery::Event(Event::DealCards(deal)), 77);
    assert!(reaction.orders.is_empty());
    assert_eq!(reaction.next, Next::Proceed);
    assert_eq!(p.inventory, hand);
    assert!(p.trading);
    assert_eq!(p.timer, 77);
}

#[test]
fn the_end_of_a_round_switches_trading_off() {
    let mut p = EventDrivenPlayer::new(PlayerName::PickOff, false, 0);
    p.trading = true;
    let reaction = p.react(&Delivery::Event(Event::EndRound), 3);
    assert!(reaction.orders.is_empty());
    assert_eq!(reaction.next, Next::Proceed);
    assert!(!p.trading);
    let again = p.react(&Delivery::Event(Event::EndRound), 4);
    assert_eq!(again.next, Next::Proceed);
    assert!(!p.trading);
}

#[test]
fn a_deal_without_a_hand_for_the_agent_halts_it() {
    let mut p = EventDrivenPlayer::new(PlayerName::PickOff, false, 0);
    let hand = Inventory { spades: 3, clubs: 1, diamonds: 0, hearts: 2 };
    let deal = deal_for(PlayerName::Seller, hand);
    let reaction = p.react(&Delivery::Event(Event::DealCards(deal)), 9);
    assert!(reaction.orders.is_empty());
    assert_eq!(reaction.next, Next::Halt(HaltReason::MissingInventory));
    assert_eq!(p.inventory, Inventory::new());
    assert!(!p.trading);
    assert_eq!(p.timer, 0);
}

#[test]
fn a_closed_bus_halts_the_agent_gracefully() {
    let mut p = EventDrivenPlayer::new(PlayerName::PickOff, false, 0);
    p.trading = true;
    let reaction = p.react(&Delivery::Closed, 9);
    assert!(reaction.orders.is_empty());
    assert_eq!(reaction.next, Next::Halt(HaltReason::BusClosed));
    assert!(p.trading);
}

#[test]
fn a_gap_asks_for_a_warning_and_the_agent_goes_on() {
    let mut p = EventDrivenPlayer::new(PlayerName::PickOff, false, 0);
    let hand = Inventory { spades: 1, clubs: 0, diamonds: 0, hearts: 0 };
    let first = p.react(&Delivery::Event(Event::DealCards(deal_for(PlayerName::PickOff, hand))), 0);
    assert_eq!(first.next, Next::Proceed);

    let gap = p.react(&Delivery::Lagged(12), 1);
    assert!(gap.orders.is_empty());
    assert_eq!(gap.next, Next::Resync(12));
    assert_eq!(p.inventory, hand);
    assert!(p.trading);
    assert!(p.trades.is_empty());

    let update = snapshot(book(8, PlayerName::Noisy, 12, PlayerName::Seller), None);
    let after = p.react(&Delivery::Event(Event::Update(update)), 2);
    assert_eq!(after.next, Next::Proceed);
    assert_eq!(
        after.orders,
        vec![
            order(PlayerName::PickOff, 8, Direction::Sell, Card::Spade),
            order(PlayerName::PickOff, 11, Direction::Sell, Card::Spade),
        ]
    );
}

#[test]
fn a_trading_agent_books_a_trade_before_it_quotes() {
    let mut p = EventDrivenPlayer::new(PlayerName::PickOff, false, 0);
    p.trading = true;
    let trade = Trade {
        buyer: PlayerName::PickOff,
        seller: PlayerName::Noisy,
        card: Card::Spade,
        price: 3,
    };
    // Empty-handed before the trade, the agent holds one spade after it and
    // sells into the rich book that the same update shows.
    let update = snapshot(book(8, PlayerName::Noisy, 12, PlayerName::Seller), Some(trade));
    let reaction = p.react(&Delivery::Event(Event::Update(update)), 10);
    assert_eq!(p.inventory, Inventory { spades: 1, clubs: 0, diamonds: 0, hearts: 0 });
    assert_eq!(p.trades, vec![trade]);
    assert_eq!(reaction.next, Next::Proceed);
    assert_eq!(
        reaction.orders,
        vec![
            order(PlayerName::PickOff, 8, Direction::Sell, Card::Spade),
            order(PlayerName::PickOff, 11, Direction::Sell, Card::Spade),
        ]
    );
}

#[test]
fn a_trade_between_others_is_recorded_and_changes_no_holding() {
    let mut p = EventDrivenPlayer::new(PlayerName::PickOff, false, 0);
    p.trading = true;
    p.inventory = Inventory { spades: 0, clubs: 4, diamonds: 0, hearts: 0 };
    let trade = Trade {
        buyer: PlayerName::Spread,
        seller: PlayerName::Noisy,
        card: Card::Club,
        price: 3,
    };
    let update = snapshot(quiet(), Some(trade));
    let reaction = p.react(&Delivery::Event(Event::Update(update)), 10);
    assert_eq!(reaction.next, Next::Proceed);
    assert_eq!(p.inventory, Inventory { spades: 0, clubs: 4, diamonds: 0, hearts: 0 });
    assert_eq!(p.trades, vec![trade]);
}

#[test]
fn a_sale_from_empty_hands_halts_the_agent() {
    let mut p = EventDrivenPlayer::new(PlayerName::PickOff, false, 0);
    p.trading = true;
    let trade = Trade {
        buyer: PlayerName::Noisy,
        seller: PlayerName::PickOff,
        card: Card::Diamond,
        price: 3,
    };
    let update = snapshot(book(8, PlayerName::Noisy, 12, PlayerName::Seller), Some(trade));
    let reaction = p.react(&Delivery::Event(Event::Update(update)), 10);
    assert!(reaction.orders.is_empty());
    assert_eq!(reaction.next, Next::Halt(HaltReason::HoldingsOutOfRange));
    assert_eq!(p.inventory, Inventory::new());
    assert!(p.trades.is_empty());
}

#[test]
fn the_pick_off_agent_quotes_the_four_suits_in_turn() {
    let mut p = EventDrivenPlayer::new(PlayerName::PickOff, false, 0);
    p.trading = true;
    p.inventory = Inventory { spades: 0, clubs: 1, diamonds: 0, hearts: 1 };
    let update = MarketSnapshot {
        spades: book(1, PlayerName::Noisy, 4, PlayerName::Seller),
        clubs: book(8, PlayerName::Noisy, 12, PlayerName::Seller),
        diamonds: book(1, PlayerName::Noisy, 3, PlayerName::PickOff),
        hearts: book(2, PlayerName::Noisy, 6, PlayerName::Seller),
        trade: None,
    };
    let reaction = p.react(&Delivery::Event(Event::Update(update)), 40);
    assert_eq!(
        reaction.orders,
        vec![
            order(PlayerName::PickOff, 4, Direction::Buy, Card::Spade),
            order(PlayerName::PickOff, 8, Direction::Sell, Card::Club),
            order(PlayerName::PickOff, 11, Direction::Sell, Card::Club),
            order(PlayerName::PickOff, 3, Direction::Buy, Card::Diamond),
            order(PlayerName::PickOff, 5, Direction::Sell, Card::Heart),
        ]
    );
}

#[test]
fn the_pick_off_agent_goes_by_the_time_left_in_the_round() {
    let mut p = EventDrivenPlayer::new(PlayerName::PickOff, false, 0);
    let hand = Inventory::new();
    p.react(&Delivery::Event(Event::DealCards(deal_for(PlayerName::PickOff, hand))), 1000);
    let update = snapshot(book(1, PlayerName::Noisy, 4, PlayerName::Seller), None);
    // 100 seconds in, 140 are left: it buys below 5.
    let early = p.react(&Delivery::Event(Event::Update(update)), 1100);
    assert_eq!(early.orders, vec![order(PlayerName::PickOff, 4, Direction::Buy, Card::Spade)]);
    // 130 seconds in, 110 are left: it buys below 4 only.
    let late = p.react(&Delivery::Event(Event::Update(update)), 1130);
    assert!(late.orders.is_empty());
}

#[test]
fn a_reactive_agent_of_another_kind_sends_nothing() {
    let mut p = EventDrivenPlayer::new(PlayerName::Seller, false, 0);
    p.trading = true;
    p.inventory = Inventory { spades: 3, clubs: 3, diamonds: 3, hearts: 3 };
    let update = snapshot(book(8, PlayerName::Noisy, 12, PlayerName::Noisy), None);
    let reaction = p.react(&Delivery::Event(Event::Update(update)), 10);
    assert!(reaction.orders.is_empty());
    assert_eq!(reaction.next, Next::Proceed);
}

#[test]
fn a_reactive_agent_never_improves_on_its_own_quotes() {
    let mut p = EventDrivenPlayer::new(PlayerName::PickOff, false, 0);
    p.trading = true;
    p.inventory = Inventory { spades: 1, clubs: 1, diamonds: 1, hearts: 1 };
    let own = book(8, PlayerName::PickOff, 12, PlayerName::PickOff);
    let update =
        MarketSnapshot { spades: own, clubs: own, diamonds: own, hearts: own, trade: None };
    let reaction = p.react(&Delivery::Event(Event::Update(update)), 10);
    assert!(reaction.orders.is_empty());
}

#[test]
fn the_pick_off_agent_sells_no_suit_of_which_it_holds_none() {
    let mut p = EventDrivenPlayer::new(PlayerName::PickOff, false, 0);
    p.trading = true;
    let rich = book(30, PlayerName::Noisy, 40, PlayerName::Seller);
    let update =
        MarketSnapshot { spades: rich, clubs: rich, diamonds: rich, hearts: rich, trade: None };
    for now in [0u64, 100, 200, 230, 500] {
        let reaction = p.react(&Delivery::Event(Event::Update(update)), now);
        assert!(reaction.orders.is_empty());
    }
    assert_eq!(p.pick_off(10, 0, rich, Card::Club), vec![]);
}

#[test]
fn a_run_collects_the_orders_of_a_whole_round() {
    let mut p = EventDrivenPlayer::new(PlayerName::PickOff, false, 0);
    let hand = Inventory { spades: 1, clubs: 0, diamonds: 0, hearts: 0 };
    let rich = snapshot(book(8, PlayerName::Noisy, 12, PlayerName::Seller), None);
    let feed = vec![
        Arrival { delivery: Delivery::Event(Event::Update(rich)), at: 0 },
        Arrival {
            delivery: Delivery::Event(Event::DealCards(deal_for(PlayerName::PickOff, hand))),
            at: 1,
        },
        Arrival { delivery: Delivery::Event(Event::Update(rich)), at: 2 },
        Arrival { delivery: Delivery::Lagged(2), at: 3 },
        Arrival { delivery: Delivery::Event(Event::EndRound), at: 4 },
        Arrival { delivery: Delivery::Event(Event::Update(rich)), at: 5 },
    ];
    let report = p.start(&feed);
    assert_eq!(report.halt, None);
    assert_eq!(
        report.orders,
        vec![
            order(PlayerName::PickOff, 8, Direction::Sell, Card::Spade),
            order(PlayerName::PickOff, 11, Direction::Sell, Card::Spade),
        ]
    );
    assert!(!p.trading);
    assert_eq!(p.timer, 1);
    assert_eq!(p.inventory, hand);
}

#[test]
fn a_run_stops_where_the_agent_halts() {
    let mut p = EventDrivenPlayer::new(PlayerName::PickOff, false, 0);
    let hand = Inventory { spades: 1, clubs: 0, diamonds: 0, hearts: 0 };
    let rich = snapshot(book(8, PlayerName::Noisy, 12, PlayerName::Seller), None);
    let feed = vec![
        Arrival {
            delivery: Delivery::Event(Event::DealCards(deal_for(PlayerName::PickOff, hand))),
            at: 1,
        },
        Arrival { delivery: Delivery::Closed, at: 2 },
        Arrival { delivery: Delivery::Event(Event::Update(rich)), at: 3 },
        Arrival { delivery: Delivery::Event(Event::EndRound), at: 4 },
    ];
    let report = p.start(&feed);
    assert_eq!(report.halt, Some(HaltReason::BusClosed));
    assert!(report.orders.is_empty());
    assert!(p.trading);
}

#[test]
fn a_run_over_nothing_changes_nothing() {
    let mut p = EventDrivenPlayer::new(PlayerName::PickOff, false, 4);
    let report = p.start(&Vec::new());
    assert!(report.orders.is_empty());
    assert_eq!(report.halt, None);
    assert_eq!(p.timer, 4);
    assert!(!p.trading);
}
