//! The reactive agent: it acts on every market event as it arrives, from the
//! books that the event carries.

use vstd::prelude::*;
use crate::deal::hand_in;
use crate::event::{
    halt_of, remaining, seconds_left, Arrival, Delivery, Event, HaltReason, Next, Reaction,
    Report, IDLE_PAUSE_MILLIS,
};
use crate::inventory::Inventory;
use crate::market::{Book, Card, Direction, MarketSnapshot, Order, PlayerName, Trade};
use crate::orders::{admissible, collect, screen, screened};
use crate::strategy::{pick_off_orders, price_limits};

verus! {

/// A reactive agent: who it is, what it holds, and whether a round is on.
#[derive(Clone, Debug)]
pub struct EventDrivenPlayer {
    pub name: PlayerName,
    /// The clock reading, in seconds, at which the round began.
    pub timer: u64,
    pub verbose: bool,
    pub inventory: Inventory,
    /// Every trade acted on, oldest first.
    pub trades: Vec<Trade>,
    /// Whether trading is on: set while a round is on.
    pub trading: bool,
}

/// A reactive agent as a value: its fields, with the trades as a sequence.
#[verifier::ext_equal]
pub struct ReactiveState {
    pub name: PlayerName,
    pub timer: u64,
    pub verbose: bool,
    pub inventory: Inventory,
    pub trades: Seq<Trade>,
    pub trading: bool,
}

impl View for EventDrivenPlayer {
    type V = ReactiveState;

    open spec fn view(&self) -> ReactiveState {
        ReactiveState {
            name: self.name,
            timer: self.timer,
            verbose: self.verbose,
            inventory: self.inventory,
            trades: self.trades@,
            trading: self.trading,
        }
    }
}

/// Where a reactive agent stands after a run of arrivals: its state, every
/// order it sent, and why it stopped, if it did.
#[verifier::ext_equal]
pub struct ReactiveTrace {
    pub state: ReactiveState,
    pub orders: Seq<Order>,
    pub halt: Option<HaltReason>,
}

impl ReactiveState {
    /// Whether the trade of `update`, if it has one, can be booked.
    pub open spec fn update_fits(self, update: MarketSnapshot) -> bool {
        update.trade matches Some(trade) ==> self.inventory.can_settle(self.name, trade)
    }

    /// The state once the trade of `update`, if it has one, is recorded and
    /// booked.
    pub open spec fn with_update(self, update: MarketSnapshot) -> ReactiveState {
        ReactiveState {
            inventory: match update.trade {
                Some(trade) => self.inventory.settled(self.name, trade),
                None => self.inventory,
            },
            trades: match update.trade {
                Some(trade) => self.trades.push(trade),
                None => self.trades,
            },
            ..self
        }
    }

    /// The state once a round begins at `now` with `hand`: the holdings
    /// replaced, trading switched on, the timer restarted.
    pub open spec fn with_deal(self, hand: Inventory, now: u64) -> ReactiveState {
        ReactiveState { inventory: hand, trading: true, timer: now, ..self }
    }

    /// The state once the round is over: trading switched off.
    pub open spec fn with_round_over(self) -> ReactiveState {
        ReactiveState { trading: false, ..self }
    }

    /// What the agent quotes from the books of `update` with `seconds_left`
    /// on the clock: the pick-off agent its orders for spades, clubs,
    /// diamonds and hearts in turn, any other agent nothing.
    pub open spec fn quotes(self, seconds_left: u64, update: MarketSnapshot) -> Seq<Order> {
        match self.name {
            PlayerName::PickOff => {
                pick_off_orders(
                    self.name,
                    seconds_left,
                    self.inventory.spades,
                    update.spades,
                    Card::Spade,
                ) + pick_off_orders(
                    self.name,
                    seconds_left,
                    self.inventory.clubs,
                    update.clubs,
                    Card::Club,
                ) + pick_off_orders(
                    self.name,
                    seconds_left,
                    self.inventory.diamonds,
                    update.diamonds,
                    Card::Diamond,
                ) + pick_off_orders(
                    self.name,
                    seconds_left,
                    self.inventory.hearts,
                    update.hearts,
                    Card::Heart,
                )
            },
            _ => Seq::empty(),
        }
    }

    /// One step of the agent: its state after `delivery`, received at `now`,
    /// the orders it sends, and what the runtime is to do next.
    ///
    /// While trading is off an update is left unread and the agent pauses.
    /// While trading is on its trade is recorded and booked, and the agent
    /// quotes from the books it carries. A deal replaces the holdings,
    /// switches trading on and restarts the timer; the end of a round
    /// switches trading off. A deal without a hand for the agent, a trade
    /// that cannot be booked and a closed bus halt the agent and leave its
    /// state as it was. A gap in the events leaves the state as it was and
    /// asks for a warning; the agent goes on with the next event.
    pub open spec fn reacted(self, delivery: Delivery, now: u64) -> (
        ReactiveState,
        Seq<Order>,
        Next,
    ) {
        match delivery {
            Delivery::Event(Event::Update(update)) => {
                if !self.trading {
                    (self, Seq::empty(), Next::Sleep(IDLE_PAUSE_MILLIS))
                } else if !self.update_fits(update) {
                    (self, Seq::empty(), Next::Halt(HaltReason::HoldingsOutOfRange))
                } else {
                    let after = self.with_update(update);
                    (after, after.quotes(remaining(after.timer, now), update), Next::Proceed)
                }
            },
            Delivery::Event(Event::DealCards(deal)) => {
                match hand_in(deal@, self.name) {
                    Some(hand) => (self.with_deal(hand, now), Seq::empty(), Next::Proceed),
                    None => (self, Seq::empty(), Next::Halt(HaltReason::MissingInventory)),
                }
            },
            Delivery::Event(Event::EndRound) => (
                self.with_round_over(),
                Seq::empty(),
                Next::Proceed,
            ),
            Delivery::Lagged(missed) => (self, Seq::empty(), Next::Resync(missed)),
            Delivery::Closed => (self, Seq::empty(), Next::Halt(HaltReason::BusClosed)),
        }
    }

    /// The agent run over `feed`: step by step, until the feed ends or a step
    /// halts.
    pub open spec fn ran(self, feed: Seq<Arrival>) -> ReactiveTrace
        decreases feed.len(),
    {
        if feed.len() == 0 {
            ReactiveTrace { state: self, orders: Seq::empty(), halt: None }
        } else {
            let before = self.ran(feed.drop_last());
            if before.halt is Some {
                before
            } else {
                let step = before.state.reacted(feed.last().delivery, feed.last().at);
                ReactiveTrace {
                    state: step.0,
                    orders: before.orders + step.1,
                    halt: halt_of(step.2),
                }
            }
        }
    }
}

/// An agent that has halted stays where it halted, whatever follows.
pub proof fn lemma_ran_halt_is_final(state: ReactiveState, feed: Seq<Arrival>, upto: int)
    requires
        0 <= upto <= feed.len(),
        state.ran(feed.take(upto)).halt is Some,
    ensures
        state.ran(feed) == state.ran(feed.take(upto)),
    decreases feed.len(),
{
    if upto == feed.len() {
        assert(feed.take(upto) =~= feed);
    } else {
        assert(feed.drop_last().take(upto) =~= feed.take(upto));
        lemma_ran_halt_is_final(state, feed.drop_last(), upto);
    }
}

impl EventDrivenPlayer {
    /// An agent before its first round, made at clock reading `now`: empty
    /// hands, no trades, trading off.
    pub fn new(player_name: PlayerName, verbose: bool, now: u64) -> (player: EventDrivenPlayer)
        ensures
            player@ == (ReactiveState {
                name: player_name,
                timer: now,
                verbose,
                inventory: Inventory { spades: 0, clubs: 0, diamonds: 0, hearts: 0 },
                trades: Seq::empty(),
                trading: false,
            }),
    {
        EventDrivenPlayer {
            name: player_name,
            timer: now,
            verbose,
            inventory: Inventory::new(),
            trades: Vec::new(),
            trading: false,
        }
    }

    /// The order of this agent for `card` at `price`, if it passes the screen:
    /// the one to put on the way to the matching engine.
    pub fn send_order(
        &self,
        price: usize,
        direction: Direction,
        card: &Card,
        book: &Book,
    ) -> (order: Option<Order>)
        ensures
            order == screened(self.name, price, direction, *card, *book),
            order matches Some(o) ==> admissible(o, self.name, *book) && o.card == *card,
    {
        screen(self.name, price, direction, *card, book)
    }

    /// The price below which the agent buys and the price from which it
    /// sells, with `seconds_left` on the clock.
    pub fn get_max_price_from_seconds(&self, seconds_left: u64) -> (limits: (usize, usize))
        ensures
            limits == price_limits(seconds_left),
    {
        if seconds_left < 20 {
            (0, 0)
        } else if seconds_left < 40 {
            (2, 3)
        } else if seconds_left < 60 {
            (3, 4)
        } else if seconds_left < 120 {
            (4, 6)
        } else {
            (5, 8)
        }
    }

    /// The pick-off orders for one suit.
    pub fn pick_off(
        &self,
        seconds_left: u64,
        inventory: usize,
        book: Book,
        card: Card,
    ) -> (orders: Vec<Order>)
        ensures
            orders@ == pick_off_orders(self.name, seconds_left, inventory, book, card),
    {
        let mut orders: Vec<Order> = Vec::new();
        let (open_price, close_price) = self.get_max_price_from_seconds(seconds_left);
        if inventory <= 2 {
            if book.ask.price < open_price {
                collect(&mut orders, self.send_order(book.ask.price, Direction::Buy, &card, &book));
            }
        }
        if inventory > 0 {
            if book.bid.price >= close_price {
                collect(
                    &mut orders,
                    self.send_order(book.bid.price, Direction::Sell, &card, &book),
                );
            }
            if book.ask.price > 5 {
                collect(
                    &mut orders,
                    self.send_order(book.ask.price - 1, Direction::Sell, &card, &book),
                );
            }
        }
        orders
    }

    /// What the agent quotes from the books of `update`.
    pub fn quote(&self, seconds_left: u64, update: &MarketSnapshot) -> (orders: Vec<Order>)
        ensures
            orders@ == self@.quotes(seconds_left, *update),
    {
        match self.name {
            PlayerName::PickOff => {
                let mut orders = self.pick_off(
                    seconds_left,
                    self.inventory.spades,
                    update.spades,
                    Card::Spade,
                );
                let mut clubs = self.pick_off(
                    seconds_left,
                    self.inventory.clubs,
                    update.clubs,
                    Card::Club,
                );
                let mut diamonds = self.pick_off(
                    seconds_left,
                    self.inventory.diamonds,
                    update.diamonds,
                    Card::Diamond,
                );
                let mut hearts = self.pick_off(
                    seconds_left,
                    self.inventory.hearts,
                    update.hearts,
                    Card::Heart,
                );
                orders.append(&mut clubs);
                orders.append(&mut diamonds);
                orders.append(&mut hearts);
                orders
            },
            _ => Vec::new(),
        }
    }

    /// Takes one step, as `ReactiveState::reacted` says.
    pub fn react(&mut self, delivery: &Delivery, now: u64) -> (reaction: Reaction)
        ensures
            (final(self)@, reaction.orders@, reaction.next) == old(self)@.reacted(*delivery, now),
    {
        match delivery {
            Delivery::Event(event) => match event {
                Event::Update(update) => {
                    if !self.trading {
                        return Reaction {
                            orders: Vec::new(),
                            next: Next::Sleep(IDLE_PAUSE_MILLIS),
                        };
                    }
                    match update.trade {
                        Some(trade) => {
                            if !self.inventory.settle(self.name, &trade) {
                                return Reaction {
                                    orders: Vec::new(),
                                    next: Next::Halt(HaltReason::HoldingsOutOfRange),
                                };
                            }
                            self.trades.push(trade);
                        },
                        None => {},
                    }
                    let left = seconds_left(self.timer, now);
                    let orders = self.quote(left, update);
                    Reaction { orders, next: Next::Proceed }
                },
                Event::DealCards(deal) => {
                    match deal.get(self.name) {
                        Some(hand) => {
                            self.inventory = hand;
                            self.trading = true;
                            self.timer = now;
                            Reaction { orders: Vec::new(), next: Next::Proceed }
                        },
                        None => Reaction {
                            orders: Vec::new(),
                            next: Next::Halt(HaltReason::MissingInventory),
                        },
                    }
                },
                Event::EndRound => {
                    self.trading = false;
                    Reaction { orders: Vec::new(), next: Next::Proceed }
                },
            },
            Delivery::Lagged(missed) => Reaction {
                orders: Vec::new(),
                next: Next::Resync(*missed),
            },
            Delivery::Closed => Reaction {
                orders: Vec::new(),
                next: Next::Halt(HaltReason::BusClosed),
            },
        }
    }

    /// Runs the agent over `feed`: each arrival is acted on in turn, until
    /// the feed ends or a step halts. Returns every order sent, oldest first,
    /// and why the agent halted, if it did.
    pub fn start(&mut self, feed: &Vec<Arrival>) -> (report: Report)
        ensures
            (ReactiveTrace { state: final(self)@, orders: report.orders@, halt: report.halt })
                == old(self)@.ran(feed@),
    {
        let mut orders: Vec<Order> = Vec::new();
        let mut i: usize = 0;
        while i < feed.len()
            invariant
                i <= feed.len(),
                (ReactiveTrace { state: self@, orders: orders@, halt: None }) == old(self)@.ran(
                    feed@.take(i as int),
                ),
            decreases feed.len() - i,
        {
            let mut reaction = self.react(&feed[i].delivery, feed[i].at);
            orders.append(&mut reaction.orders);
            proof {
                assert(feed@.take(i + 1).drop_last() =~= feed@.take(i as int));
            }
            match reaction.next {
                Next::Halt(reason) => {
                    proof {
                        lemma_ran_halt_is_final(old(self)@, feed@, i + 1);
                    }
                    return Report { orders, halt: Some(reason) };
                },
                _ => {},
            }
            i = i + 1;
        }
        proof {
            assert(feed@.take(i as int) =~= feed@);
        }
        Report { orders, halt: None }
    }
}

} // verus!
