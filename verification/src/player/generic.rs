//! The polling agent: a listener keeps a cache of the market up to date, and
//! a decision loop wakes at a randomized cadence and quotes from the cache.

use vstd::prelude::*;
use crate::chance::{between, coin};
use crate::deal::hand_in;
use crate::event::{
    halt_of, remaining, seconds_left, Arrival, Delivery, Event, HaltReason, Next, Reaction,
    Report, IDLE_PAUSE_MILLIS,
};
use crate::inventory::Inventory;
use crate::laws::lemma_polling_sells_only_held;
use crate::market::{Book, Card, Direction, MarketSnapshot, Order, PlayerName, Trade};
use crate::orders::{admissible, collect, screen, screened};
use crate::strategy::{
    discount, noisy_orders, premium, sell_orders, sells_only_held, spread_asks, spread_bids,
    spread_orders,
};

verus! {

/// A polling agent: who it is, what it has cached of the market, and the
/// bounds, in milliseconds, of the pause between two of its decisions.
#[derive(Clone, Debug)]
pub struct GenericPlayer {
    pub name: PlayerName,
    pub verbose: bool,
    /// The clock reading, in seconds, at which the round began.
    pub timer: u64,
    pub spades_book: Book,
    pub clubs_book: Book,
    pub diamonds_book: Book,
    pub hearts_book: Book,
    pub inventory: Inventory,
    /// Every trade heard of, oldest first.
    pub trades: Vec<Trade>,
    pub lower_frequency: u64,
    pub higher_frequency: u64,
    /// Whether trading is on: set while a round is on.
    pub trading: bool,
}

/// A polling agent as a value: its fields, with the trades as a sequence.
#[verifier::ext_equal]
pub struct PollingState {
    pub name: PlayerName,
    pub verbose: bool,
    pub timer: u64,
    pub spades_book: Book,
    pub clubs_book: Book,
    pub diamonds_book: Book,
    pub hearts_book: Book,
    pub inventory: Inventory,
    pub trades: Seq<Trade>,
    pub lower_frequency: u64,
    pub higher_frequency: u64,
    pub trading: bool,
}

impl View for GenericPlayer {
    type V = PollingState;

    open spec fn view(&self) -> PollingState {
        PollingState {
            name: self.name,
            verbose: self.verbose,
            timer: self.timer,
            spades_book: self.spades_book,
            clubs_book: self.clubs_book,
            diamonds_book: self.diamonds_book,
            hearts_book: self.hearts_book,
            inventory: self.inventory,
            trades: self.trades@,
            lower_frequency: self.lower_frequency,
            higher_frequency: self.higher_frequency,
            trading: self.trading,
        }
    }
}

/// What one decision draws at random: the roll, the coin and the price of
/// the noisy trader, and the pause, in milliseconds, before the next
/// decision.
#[derive(Clone, Copy, Debug, PartialEq, Eq)]
pub struct Draw {
    pub roll: u64,
    pub heads: bool,
    pub price: usize,
    pub pause: u64,
}

impl Draw {
    /// Whether the draw is one that an agent with these pause bounds can
    /// make: a roll from one to four, a price from one to fourteen, and a
    /// pause from `lower` up to, and without, `higher`.
    pub open spec fn within(self, lower: u64, higher: u64) -> bool {
        &&& 1 <= self.roll <= 4
        &&& 1 <= self.price < 15
        &&& lower <= self.pause < higher
    }
}

/// One turn of a polling agent: its listener receives, or its decision loop
/// wakes at a clock reading in seconds.
#[derive(Clone, Debug)]
pub enum Turn {
    Deliver(Arrival),
    Wake(u64),
}

/// Where a polling agent stands after a run of turns: the cache, every
/// order it sent, and why it stopped, if it did.
#[verifier::ext_equal]
pub struct PollingTrace {
    pub state: PollingState,
    pub orders: Seq<Order>,
    pub halt: Option<HaltReason>,
}

/// Where a listener stands after a run of arrivals: the cache, and why it
/// stopped, if it did.
#[verifier::ext_equal]
pub struct Heard {
    pub state: PollingState,
    pub halt: Option<HaltReason>,
}

impl PollingState {
    /// Whether the trade of `update`, if it has one, can be booked.
    pub open spec fn update_fits(self, update: MarketSnapshot) -> bool {
        update.trade matches Some(trade) ==> self.inventory.can_settle(self.name, trade)
    }

    /// The cache once `update` is taken in: its trade recorded and booked,
    /// and each of the four books replaced whole.
    pub open spec fn with_update(self, update: MarketSnapshot) -> PollingState {
        PollingState {
            inventory: match update.trade {
                Some(trade) => self.inventory.settled(self.name, trade),
                None => self.inventory,
            },
            trades: match update.trade {
                Some(trade) => self.trades.push(trade),
                None => self.trades,
            },
            spades_book: update.spades,
            clubs_book: update.clubs,
            diamonds_book: update.diamonds,
            hearts_book: update.hearts,
            ..self
        }
    }

    /// The cache once a round begins at `now` with `hand`: the holdings
    /// replaced, trading switched on, the timer restarted.
    pub open spec fn with_deal(self, hand: Inventory, now: u64) -> PollingState {
        PollingState { inventory: hand, trading: true, timer: now, ..self }
    }

    /// The cache once the round is over: trading switched off.
    pub open spec fn with_round_over(self) -> PollingState {
        PollingState { trading: false, ..self }
    }

    /// One step of the listener: the cache after `delivery`, received at
    /// `now`, and what the runtime is to do next. An update is taken in
    /// whether trading is on or off. A deal replaces the holdings, switches
    /// trading on and restarts the timer; the end of a round switches trading
    /// off. A deal without a hand for the agent, a trade that cannot be
    /// booked and a closed bus halt the listener and leave the cache as it
    /// was. A gap in the events leaves the cache as it was and asks for a
    /// warning; the listener goes on with the next event.
    pub open spec fn heard(self, delivery: Delivery, now: u64) -> (PollingState, Next) {
        match delivery {
            Delivery::Event(Event::Update(update)) => {
                if self.update_fits(update) {
                    (self.with_update(update), Next::Proceed)
                } else {
                    (self, Next::Halt(HaltReason::HoldingsOutOfRange))
                }
            },
            Delivery::Event(Event::DealCards(deal)) => {
                match hand_in(deal@, self.name) {
                    Some(hand) => (self.with_deal(hand, now), Next::Proceed),
                    None => (self, Next::Halt(HaltReason::MissingInventory)),
                }
            },
            Delivery::Event(Event::EndRound) => (self.with_round_over(), Next::Proceed),
            Delivery::Lagged(missed) => (self, Next::Resync(missed)),
            Delivery::Closed => (self, Next::Halt(HaltReason::BusClosed)),
        }
    }

    /// What the seller and the spread agent quote from the cache with
    /// `seconds_left` on the clock: spades, clubs, diamonds and hearts in
    /// turn. Any other agent quotes nothing here.
    pub open spec fn steady_quotes(self, seconds_left: u64) -> Seq<Order> {
        match self.name {
            PlayerName::Seller => {
                sell_orders(
                    self.name,
                    seconds_left,
                    self.inventory.spades,
                    self.spades_book,
                    Card::Spade,
                ) + sell_orders(
                    self.name,
                    seconds_left,
                    self.inventory.clubs,
                    self.clubs_book,
                    Card::Club,
                ) + sell_orders(
                    self.name,
                    seconds_left,
                    self.inventory.diamonds,
                    self.diamonds_book,
                    Card::Diamond,
                ) + sell_orders(
                    self.name,
                    seconds_left,
                    self.inventory.hearts,
                    self.hearts_book,
                    Card::Heart,
                )
            },
            PlayerName::Spread => {
                spread_orders(
                    self.name,
                    seconds_left,
                    self.inventory.spades,
                    self.spades_book,
                    Card::Spade,
                ) + spread_orders(
                    self.name,
                    seconds_left,
                    self.inventory.clubs,
                    self.clubs_book,
                    Card::Club,
                ) + spread_orders(
                    self.name,
                    seconds_left,
                    self.inventory.diamonds,
                    self.diamonds_book,
                    Card::Diamond,
                ) + spread_orders(
                    self.name,
                    seconds_left,
                    self.inventory.hearts,
                    self.hearts_book,
                    Card::Heart,
                )
            },
            _ => Seq::empty(),
        }
    }

    /// What the agent quotes from its cache with `seconds_left` on the clock:
    /// the noisy trader the one order that its draw picks, any other agent
    /// its steady quotes.
    pub open spec fn quotes(self, seconds_left: u64, draw: Draw) -> Seq<Order> {
        match self.name {
            PlayerName::Noisy => noisy_orders(
                self.name,
                self.inventory,
                self.spades_book,
                self.clubs_book,
                self.diamonds_book,
                self.hearts_book,
                draw.roll,
                draw.heads,
                draw.price,
            ),
            _ => self.steady_quotes(seconds_left),
        }
    }

    /// One decision, made at `now` with `draw`: the orders sent and the
    /// pause before the next decision. While trading is off the agent sends
    /// nothing and pauses for the idle pause; while it is on it quotes
    /// from its cache and pauses for as long as it drew.
    pub open spec fn decided(self, now: u64, draw: Draw) -> (Seq<Order>, Next) {
        if self.trading {
            (self.quotes(remaining(self.timer, now), draw), Next::Sleep(draw.pause))
        } else {
            (Seq::empty(), Next::Sleep(IDLE_PAUSE_MILLIS))
        }
    }

    /// One turn of the agent, with the draw that a decision would use: the
    /// cache after it, the orders sent, and what the runtime does next.
    pub open spec fn turned(self, turn: Turn, draw: Draw) -> (PollingState, Seq<Order>, Next) {
        match turn {
            Turn::Deliver(arrival) => {
                let step = self.heard(arrival.delivery, arrival.at);
                (step.0, Seq::empty(), step.1)
            },
            Turn::Wake(now) => {
                let step = self.decided(now, draw);
                (self, step.0, step.1)
            },
        }
    }

    /// The agent run over `turns`, each paired with its draw: turn by turn,
    /// until the turns end or the listener halts.
    pub open spec fn ran(self, turns: Seq<(Turn, Draw)>) -> PollingTrace
        decreases turns.len(),
    {
        if turns.len() == 0 {
            PollingTrace { state: self, orders: Seq::empty(), halt: None }
        } else {
            let before = self.ran(turns.drop_last());
            if before.halt is Some {
                before
            } else {
                let step = before.state.turned(turns.last().0, turns.last().1);
                PollingTrace {
                    state: step.0,
                    orders: before.orders + step.1,
                    halt: halt_of(step.2),
                }
            }
        }
    }

    /// The cache after the deliveries of `schedule`, taken in turn until the
    /// schedule ends or the listener halts, and why it halted, if it did.
    /// A wake-up changes nothing in the cache.
    pub open spec fn cached(self, schedule: Seq<Turn>) -> Heard
        decreases schedule.len(),
    {
        if schedule.len() == 0 {
            Heard { state: self, halt: None }
        } else {
            let before = self.cached(schedule.drop_last());
            if before.halt is Some {
                before
            } else {
                match schedule.last() {
                    Turn::Deliver(arrival) => {
                        let step = before.state.heard(arrival.delivery, arrival.at);
                        Heard { state: step.0, halt: halt_of(step.1) }
                    },
                    Turn::Wake(_) => before,
                }
            }
        }
    }

    /// Whether the run over `schedule` draws a pause: whether one of its
    /// wake-ups, before the listener halts, finds trading on.
    pub open spec fn draws_a_pause(self, schedule: Seq<Turn>) -> bool
        decreases schedule.len(),
    {
        if schedule.len() == 0 {
            false
        } else {
            let before = self.cached(schedule.drop_last());
            self.draws_a_pause(schedule.drop_last()) || (before.halt is None
                && before.state.trading && schedule.last() is Wake)
        }
    }

    /// The listener run over `feed`: step by step, until the feed ends or a
    /// step halts.
    pub open spec fn listened(self, feed: Seq<Arrival>) -> Heard
        decreases feed.len(),
    {
        if feed.len() == 0 {
            Heard { state: self, halt: None }
        } else {
            let before = self.listened(feed.drop_last());
            if before.halt is Some {
                before
            } else {
                let step = before.state.heard(feed.last().delivery, feed.last().at);
                Heard { state: step.0, halt: halt_of(step.1) }
            }
        }
    }
}

/// A listener that has halted stays where it halted, whatever follows.
pub proof fn lemma_listened_halt_is_final(state: PollingState, feed: Seq<Arrival>, upto: int)
    requires
        0 <= upto <= feed.len(),
        state.listened(feed.take(upto)).halt is Some,
    ensures
        state.listened(feed) == state.listened(feed.take(upto)),
    decreases feed.len(),
{
    if upto == feed.len() {
        assert(feed.take(upto) =~= feed);
    } else {
        assert(feed.drop_last().take(upto) =~= feed.take(upto));
        lemma_listened_halt_is_final(state, feed.drop_last(), upto);
    }
}

/// An agent that has halted stays where it halted, whatever follows.
pub proof fn lemma_ran_halt_is_final(state: PollingState, turns: Seq<(Turn, Draw)>, upto: int)
    requires
        0 <= upto <= turns.len(),
        state.ran(turns.take(upto)).halt is Some,
    ensures
        state.ran(turns) == state.ran(turns.take(upto)),
    decreases turns.len(),
{
    if upto == turns.len() {
        assert(turns.take(upto) =~= turns);
    } else {
        assert(turns.drop_last().take(upto) =~= turns.take(upto));
        lemma_ran_halt_is_final(state, turns.drop_last(), upto);
    }
}

/// A run that draws a pause in its first turns draws a pause.
pub proof fn lemma_draws_a_pause_in_prefix(state: PollingState, schedule: Seq<Turn>, upto: int)
    requires
        0 <= upto <= schedule.len(),
        state.draws_a_pause(schedule.take(upto)),
    ensures
        state.draws_a_pause(schedule),
    decreases schedule.len(),
{
    if upto == schedule.len() {
        assert(schedule.take(upto) =~= schedule);
    } else {
        assert(schedule.drop_last().take(upto) =~= schedule.take(upto));
        lemma_draws_a_pause_in_prefix(state, schedule.drop_last(), upto);
    }
}

impl GenericPlayer {
    /// An agent before its first round, made at clock reading `now`: empty
    /// books, empty hands, no trades, trading off.
    pub fn new(
        player_name: PlayerName,
        verbose: bool,
        lower_frequency: u64,
        higher_frequency: u64,
        now: u64,
    ) -> (player: GenericPlayer)
        ensures
            player@ == (PollingState {
                name: player_name,
                verbose,
                timer: now,
                spades_book: Book::empty(),
                clubs_book: Book::empty(),
                diamonds_book: Book::empty(),
                hearts_book: Book::empty(),
                inventory: Inventory { spades: 0, clubs: 0, diamonds: 0, hearts: 0 },
                trades: Seq::empty(),
                lower_frequency,
                higher_frequency,
                trading: false,
            }),
    {
        GenericPlayer {
            name: player_name,
            verbose,
            timer: now,
            spades_book: Book::new(),
            clubs_book: Book::new(),
            diamonds_book: Book::new(),
            hearts_book: Book::new(),
            inventory: Inventory::new(),
            trades: Vec::new(),
            lower_frequency,
            higher_frequency,
            trading: false,
        }
    }

    /// Takes one delivery into the cache, as `PollingState::heard` says.
    pub fn hear(&mut self, delivery: &Delivery, now: u64) -> (next: Next)
        ensures
            (final(self)@, next) == old(self)@.heard(*delivery, now),
    {
        match delivery {
            Delivery::Event(event) => match event {
                Event::Update(update) => {
                    match update.trade {
                        Some(trade) => {
                            if !self.inventory.settle(self.name, &trade) {
                                return Next::Halt(HaltReason::HoldingsOutOfRange);
                            }
                            self.trades.push(trade);
                        },
                        None => {},
                    }
                    self.spades_book = update.spades;
                    self.clubs_book = update.clubs;
                    self.diamonds_book = update.diamonds;
                    self.hearts_book = update.hearts;
                    Next::Proceed
                },
                Event::DealCards(deal) => {
                    match deal.get(self.name) {
                        Some(hand) => {
                            self.inventory = hand;
                            self.trading = true;
                            self.timer = now;
                            Next::Proceed
                        },
                        None => Next::Halt(HaltReason::MissingInventory),
                    }
                },
                Event::EndRound => {
                    self.trading = false;
                    Next::Proceed
                },
            },
            Delivery::Lagged(missed) => Next::Resync(*missed),
            Delivery::Closed => Next::Halt(HaltReason::BusClosed),
        }
    }

    /// Runs the listener over `feed`: each arrival is taken into the cache in
    /// turn, until the feed ends or a step halts. Returns why it halted, if
    /// it did.
    pub fn listen_to_events(&mut self, feed: &Vec<Arrival>) -> (halt: Option<HaltReason>)
        ensures
            (Heard { state: final(self)@, halt }) == old(self)@.listened(feed@),
    {
        let mut i: usize = 0;
        while i < feed.len()
            invariant
                i <= feed.len(),
                (Heard { state: self@, halt: None }) == old(self)@.listened(feed@.take(i as int)),
            decreases feed.len() - i,
        {
            let next = self.hear(&feed[i].delivery, feed[i].at);
            proof {
                assert(feed@.take(i + 1).drop_last() =~= feed@.take(i as int));
            }
            match next {
                Next::Halt(reason) => {
                    proof {
                        lemma_listened_halt_is_final(old(self)@, feed@, i + 1);
                    }
                    return Some(reason);
                },
                _ => {},
            }
            i = i + 1;
        }
        proof {
            assert(feed@.take(i as int) =~= feed@);
        }
        None
    }

    /// The order of this agent for `card` at `price`, if it passes the screen:
    /// the one to put on the way to the matching engine.
    pub fn send_order(
        &self,
        price: usize,
        direction: Direction,
        card: &Card,
        book: &Book,
    ) -> (order: Option<Order>)
        ensures
            order == screened(self.name, price, direction, *card, *book),
            order matches Some(o) ==> admissible(o, self.name, *book) && o.card == *card,
    {
        screen(self.name, price, direction, *card, book)
    }

    /// The seller's orders for one suit.
    pub fn sell_inventory(
        &self,
        seconds_left: u64,
        inventory: usize,
        book: Book,
        card: Card,
    ) -> (orders: Vec<Order>)
        ensures
            orders@ == sell_orders(self.name, seconds_left, inventory, book, card),
    {
        let mut orders: Vec<Order> = Vec::new();
        if inventory > 0 {
            if seconds_left > 30 {
                if book.ask.price > 7 {
                    collect(
                        &mut orders,
                        self.send_order(book.ask.price - 1, Direction::Sell, &card, &book),
                    );
                }
            } else {
                if book.ask.price > 4 {
                    collect(
                        &mut orders,
                        self.send_order(book.ask.price - 1, Direction::Sell, &card, &book),
                    );
                }
            }
        }
        orders
    }

    /// The spread agent's orders for one suit.
    pub fn provide_spread(
        &self,
        seconds_left: u64,
        inventory: usize,
        book: Book,
        card: Card,
    ) -> (orders: Vec<Order>)
        ensures
            orders@ == spread_orders(self.name, seconds_left, inventory, book, card),
    {
        let mut orders: Vec<Order> = Vec::new();
        if inventory > 0 {
            match book.last_trade {
                Some(last_trade) => {
                    if last_trade > 10 {
                        let ask_price: usize = premium(last_trade);
                        collect(
                            &mut orders,
                            self.send_order(ask_price, Direction::Sell, &card, &book),
                        );
                    }
                    if book.ask.price > 10 {
                        collect(&mut orders, self.send_order(10, Direction::Sell, &card, &book));
                    }
                },
                None => {
                    if book.ask.price > 7 {
                        collect(
                            &mut orders,
                            self.send_order(book.ask.price - 1, Direction::Sell, &card, &book),
                        );
                    }
                },
            }
        }
        assert(orders@ == spread_asks(self.name, inventory, book, card));
        if seconds_left > 20 {
            match book.last_trade {
                Some(last_trade) => {
                    if last_trade < 4 {
                        collect(&mut orders, self.send_order(4, Direction::Buy, &card, &book));
                    }
                    let bid_price: usize = discount(last_trade);
                    if bid_price < 8 {
                        collect(
                            &mut orders,
                            self.send_order(bid_price, Direction::Buy, &card, &book),
                        );
                    }
                },
                None => {
                    match book.bid.price.checked_add(1) {
                        Some(bid_price) => {
                            collect(
                                &mut orders,
                                self.send_order(bid_price, Direction::Buy, &card, &book),
                            );
                        },
                        None => {},
                    }
                },
            }
        }
        assert(orders@ == spread_asks(self.name, inventory, book, card) + spread_bids(
            self.name,
            seconds_left,
            book,
            card,
        ));
        orders
    }

    /// The noisy trader's order for a roll, a coin and a price already drawn:
    /// a bid on heads, an ask on tails, and never an ask for a suit of which
    /// `inventory` holds none.
    pub fn noisy_choice(
        &self,
        inventory: Inventory,
        spades_book: Book,
        clubs_book: Book,
        diamonds_book: Book,
        hearts_book: Book,
        roll: u64,
        heads: bool,
        price: usize,
    ) -> (orders: Vec<Order>)
        ensures
            orders@ == noisy_orders(
                self.name,
                inventory,
                spades_book,
                clubs_book,
                diamonds_book,
                hearts_book,
                roll,
                heads,
                price,
            ),
            sells_only_held(orders@, inventory),
    {
        let (random_card, current_inventory, book) = if roll == 1 {
            (Card::Spade, inventory.spades, spades_book)
        } else if roll == 2 {
            (Card::Club, inventory.clubs, clubs_book)
        } else if roll == 3 {
            (Card::Diamond, inventory.diamonds, diamonds_book)
        } else if roll == 4 {
            (Card::Heart, inventory.hearts, hearts_book)
        } else {
            (Card::Spade, 0, spades_book)
        };
        let mut orders: Vec<Order> = Vec::new();
        if heads {
            if current_inventory < 4 {
                collect(&mut orders, self.send_order(price, Direction::Buy, &random_card, &book));
            }
        } else {
            if current_inventory > 0 {
                collect(&mut orders, self.send_order(price, Direction::Sell, &random_card, &book));
            }
        }
        orders
    }

    /// The noisy trader's order: it rolls for a suit, tosses a coin, draws a
    /// price from one to fourteen, and makes the order that `noisy_choice`
    /// gives for them. Whatever it draws, it asks for no suit of which
    /// `inventory` holds none.
    pub fn noisy_trader(
        &self,
        inventory: Inventory,
        spades_book: Book,
        clubs_book: Book,
        diamonds_book: Book,
        hearts_book: Book,
        rng: &mut rand::rngs::StdRng,
    ) -> (orders: Vec<Order>)
        ensures
            exists|roll: u64, heads: bool, price: usize|
                1 <= roll <= 4 && 1 <= price < 15 && orders@ == #[trigger] noisy_orders(
                    self.name,
                    inventory,
                    spades_book,
                    clubs_book,
                    diamonds_book,
                    hearts_book,
                    roll,
                    heads,
                    price,
                ),
            sells_only_held(orders@, inventory),
    {
        let roll: u64 = between(rng, 1, 5);
        let heads: bool = coin();
        let price: usize = between(rng, 1, 15) as usize;
        self.noisy_choice(
            inventory,
            spades_book,
            clubs_book,
            diamonds_book,
            hearts_book,
            roll,
            heads,
            price,
        )
    }

    /// What the seller and the spread agent quote from the cache.
    pub fn steady(&self, seconds_left: u64) -> (orders: Vec<Order>)
        ensures
            orders@ == self@.steady_quotes(seconds_left),
    {
        match self.name {
            PlayerName::Seller => {
                let mut orders = self.sell_inventory(
                    seconds_left,
                    self.inventory.spades,
                    self.spades_book,
                    Card::Spade,
                );
                let mut clubs = self.sell_inventory(
                    seconds_left,
                    self.inventory.clubs,
                    self.clubs_book,
                    Card::Club,
                );
                let mut diamonds = self.sell_inventory(
                    seconds_left,
                    self.inventory.diamonds,
                    self.diamonds_book,
                    Card::Diamond,
                );
                let mut hearts = self.sell_inventory(
                    seconds_left,
                    self.inventory.hearts,
                    self.hearts_book,
                    Card::Heart,
                );
                orders.append(&mut clubs);
                orders.append(&mut diamonds);
                orders.append(&mut hearts);
                orders
            },
            PlayerName::Spread => {
                let mut orders = self.provide_spread(
                    seconds_left,
                    self.inventory.spades,
                    self.spades_book,
                    Card::Spade,
                );
                let mut clubs = self.provide_spread(
                    seconds_left,
                    self.inventory.clubs,
                    self.clubs_book,
                    Card::Club,
                );
                let mut diamonds = self.provide_spread(
                    seconds_left,
                    self.inventory.diamonds,
                    self.diamonds_book,
                    Card::Diamond,
                );
                let mut hearts = self.provide_spread(
                    seconds_left,
                    self.inventory.hearts,
                    self.hearts_book,
                    Card::Heart,
                );
                orders.append(&mut clubs);
                orders.append(&mut diamonds);
                orders.append(&mut hearts);
                orders
            },
            _ => Vec::new(),
        }
    }

    /// One decision for a draw already made, as `PollingState::decided`
    /// says.
    pub fn plan(&self, now: u64, draw: &Draw) -> (reaction: Reaction)
        ensures
            (reaction.orders@, reaction.next) == self@.decided(now, *draw),
    {
        if !self.trading {
            return Reaction { orders: Vec::new(), next: Next::Sleep(IDLE_PAUSE_MILLIS) };
        }
        let left = seconds_left(self.timer, now);
        let orders = match self.name {
            PlayerName::Noisy => self.noisy_choice(
                self.inventory,
                self.spades_book,
                self.clubs_book,
                self.diamonds_book,
                self.hearts_book,
                draw.roll,
                draw.heads,
                draw.price,
            ),
            _ => self.steady(left),
        };
        Reaction { orders, next: Next::Sleep(draw.pause) }
    }

    /// One decision at `now`. While trading is off nothing is drawn: the
    /// agent sends nothing and pauses for the idle pause. While trading is on
    /// it quotes from its cache, the noisy trader by what it draws, and
    /// pauses for a time drawn from `lower_frequency` up to, and without,
    /// `higher_frequency`; only then must the bounds leave a time to draw.
    /// Every sell order is for a suit of which the cache holds a card.
    pub fn decide(&self, now: u64, rng: &mut rand::rngs::StdRng) -> (reaction: Reaction)
        requires
            self.trading ==> self.lower_frequency < self.higher_frequency,
        ensures
            !self.trading ==> reaction.orders@ == Seq::<Order>::empty() && reaction.next
                == Next::Sleep(IDLE_PAUSE_MILLIS),
            self.trading ==> exists|draw: Draw|
                draw.within(self.lower_frequency, self.higher_frequency) && (
                    reaction.orders@,
                    reaction.next,
                ) == #[trigger] self@.decided(now, draw),
            self.trading ==> (reaction.next matches Next::Sleep(pause) && self.lower_frequency
                <= pause < self.higher_frequency),
            sells_only_held(reaction.orders@, self.inventory),
    {
        let ghost filler = Draw { roll: 1, heads: false, price: 1, pause: self.lower_frequency };
        if !self.trading {
            return Reaction { orders: Vec::new(), next: Next::Sleep(IDLE_PAUSE_MILLIS) };
        }
        let left = seconds_left(self.timer, now);
        let ghost mut drawn = filler;
        let orders = match self.name {
            PlayerName::Noisy => {
                let orders = self.noisy_trader(
                    self.inventory,
                    self.spades_book,
                    self.clubs_book,
                    self.diamonds_book,
                    self.hearts_book,
                    rng,
                );
                proof {
                    let (roll, heads, price) = choose|roll: u64, heads: bool, price: usize|
                        1 <= roll <= 4 && 1 <= price < 15 && orders@ == #[trigger] noisy_orders(
                            self.name,
                            self.inventory,
                            self.spades_book,
                            self.clubs_book,
                            self.diamonds_book,
                            self.hearts_book,
                            roll,
                            heads,
                            price,
                        );
                    drawn = Draw { roll, heads, price, pause: self.lower_frequency };
                }
                orders
            },
            _ => self.steady(left),
        };
        let pause: u64 = between(rng, self.lower_frequency, self.higher_frequency);
        proof {
            let draw = Draw { pause, ..drawn };
            assert(draw.within(self.lower_frequency, self.higher_frequency));
            assert((orders@, Next::Sleep(pause)) == self@.decided(now, draw));
            lemma_polling_sells_only_held(self@, now, draw);
        }
        Reaction { orders, next: Next::Sleep(pause) }
    }

    /// Runs the agent over `schedule`: on a delivery its listener takes one
    /// step, on a wake-up its decision loop makes one decision, until the
    /// schedule ends or the listener halts. Returns every order sent, oldest
    /// first, and why the agent halted, if it did. The result is that of
    /// `PollingState::ran` for some draws, one for each turn, which lie
    /// within the agent's bounds where the bounds leave a time to draw. They
    /// must leave one only if the run draws a pause.
    pub fn start(&mut self, schedule: &Vec<Turn>, rng: &mut rand::rngs::StdRng) -> (report:
        Report)
        requires
            old(self)@.draws_a_pause(schedule@) ==> old(self)@.lower_frequency
                < old(self)@.higher_frequency,
        ensures
            exists|draws: Seq<Draw>|
                {
                    &&& draws.len() == schedule@.len()
                    &&& old(self).lower_frequency < old(self).higher_frequency ==> forall|i: int|
                        0 <= i < draws.len() ==> (#[trigger] draws[i]).within(
                            old(self).lower_frequency,
                            old(self).higher_frequency,
                        )
                    &&& (PollingTrace {
                        state: final(self)@,
                        orders: report.orders@,
                        halt: report.halt,
                    }) == #[trigger] old(self)@.ran(schedule@.zip_with(draws))
                },
    {
        let ghost lower = self.lower_frequency;
        let ghost higher = self.higher_frequency;
        let ghost filler = Draw { roll: 1, heads: false, price: 1, pause: lower };
        let ghost mut draws: Seq<Draw> = Seq::empty();
        let mut orders: Vec<Order> = Vec::new();
        let mut i: usize = 0;
        while i < schedule.len()
            invariant
                i <= schedule.len(),
                old(self)@.draws_a_pause(schedule@) ==> lower < higher,
                (Heard { state: self@, halt: None }) == old(self)@.cached(
                    schedule@.take(i as int),
                ),
                lower == old(self).lower_frequency,
                higher == old(self).higher_frequency,
                self.lower_frequency == lower,
                self.higher_frequency == higher,
                filler == (Draw { roll: 1, heads: false, price: 1, pause: lower }),
                draws.len() == i,
                lower < higher ==> forall|k: int|
                    0 <= k < draws.len() ==> (#[trigger] draws[k]).within(lower, higher),
                (PollingTrace { state: self@, orders: orders@, halt: None }) == old(self)@.ran(
                    schedule@.take(i as int).zip_with(draws),
                ),
            decreases schedule.len() - i,
        {
            let ghost before = self@;
            let ghost sent = orders@;
            let ghost mut drawn = filler;
            proof {
                assert(schedule@.take(i + 1).drop_last() =~= schedule@.take(i as int));
                if self.trading && schedule@[i as int] is Wake {
                    assert(old(self)@.draws_a_pause(schedule@.take(i + 1)));
                    lemma_draws_a_pause_in_prefix(old(self)@, schedule@, i + 1);
                }
            }
            let next = match &schedule[i] {
                Turn::Deliver(arrival) => self.hear(&arrival.delivery, arrival.at),
                Turn::Wake(now) => {
                    let mut reaction = self.decide(*now, rng);
                    proof {
                        if self.trading {
                            drawn = choose|draw: Draw|
                                draw.within(self.lower_frequency, self.higher_frequency) && (
                                    reaction.orders@,
                                    reaction.next,
                                ) == #[trigger] self@.decided(*now, draw);
                        }
                    }
                    orders.append(&mut reaction.orders);
                    reaction.next
                },
            };
            proof {
                let longer = draws.push(drawn);
                let paired = schedule@.take(i + 1).zip_with(longer);
                assert(paired.drop_last() =~= schedule@.take(i as int).zip_with(draws));
                assert(paired.last() == (schedule@[i as int], drawn));
                let added = orders@.skip(sent.len() as int);
                assert(before.turned(schedule@[i as int], drawn) == (self@, added, next)) by {
                    match schedule@[i as int] {
                        Turn::Deliver(arrival) => {
                            assert(added =~= Seq::<Order>::empty());
                        },
                        Turn::Wake(now) => {
                            assert(added =~= before.decided(now, drawn).0);
                        },
                    }
                }
                assert(sent + added =~= orders@);
                draws = longer;
            }
            match next {
                Next::Halt(reason) => {
                    proof {
                        let rest = Seq::new((schedule@.len() - i - 1) as nat, |k: int| filler);
                        let all = draws + rest;
                        assert(schedule@.zip_with(all).take(i + 1) =~= schedule@.take(
                            i + 1,
                        ).zip_with(draws));
                        lemma_ran_halt_is_final(old(self)@, schedule@.zip_with(all), i + 1);
                        assert(all.len() == schedule@.len());
                        if lower < higher {
                            assert forall|k: int|
                                0 <= k < all.len() implies (#[trigger] all[k]).within(
                                lower,
                                higher,
                            ) by {
                                if k < draws.len() {
                                    assert(all[k] == draws[k]);
                                } else {
                                    assert(all[k] == filler);
                                }
                            }
                        }
                    }
                    return Report { orders, halt: Some(reason) };
                },
                _ => {},
            }
            i = i + 1;
        }
        proof {
            assert(schedule@.take(i as int) =~= schedule@);
        }
        Report { orders, halt: None }
    }
}

} // verus!
