//! The hands of one deal: which agent starts the round with which holdings.

use vstd::prelude::*;
use crate::inventory::Inventory;
use crate::market::PlayerName;

verus! {

/// The mapping that a run of hands stands for: each hand binds its agent,
/// and a later hand for the same agent replaces an earlier one.
pub open spec fn hands_map(hands: Seq<(PlayerName, Inventory)>) -> Map<PlayerName, Inventory>
    decreases hands.len(),
{
    if hands.len() == 0 {
        Map::empty()
    } else {
        hands_map(hands.drop_last()).insert(hands.last().0, hands.last().1)
    }
}

/// The hand bound to `name` in `dealt`, if there is one.
pub open spec fn hand_in(dealt: Map<PlayerName, Inventory>, name: PlayerName) -> Option<Inventory> {
    if dealt.dom().contains(name) {
        Some(dealt[name])
    } else {
        None
    }
}

/// The hands dealt at the start of a round, by agent.
#[derive(Clone, Debug)]
pub struct Deal {
    pub hands: Vec<(PlayerName, Inventory)>,
}

impl View for Deal {
    type V = Map<PlayerName, Inventory>;

    open spec fn view(&self) -> Map<PlayerName, Inventory> {
        hands_map(self.hands@)
    }
}

impl Deal {
    /// A deal with no hands.
    pub fn new() -> (deal: Deal)
        ensures
            deal@ == Map::<PlayerName, Inventory>::empty(),
    {
        Deal { hands: Vec::new() }
    }

    /// Deals `inventory` to `name`, in place of any hand it had.
    pub fn insert(&mut self, name: PlayerName, inventory: Inventory)
        ensures
            final(self)@ == old(self)@.insert(name, inventory),
    {
        self.hands.push((name, inventory));
        assert(self.hands@.drop_last() =~= old(self).hands@);
    }

    /// The hand of `name`, if the deal has one.
    pub fn get(&self, name: PlayerName) -> (hand: Option<Inventory>)
        ensures
            hand == hand_in(self@, name),
    {
        let mut found: Option<Inventory> = None;
        let mut i: usize = 0;
        while i < self.hands.len()
            invariant
                i <= self.hands.len(),
                found == hand_in(hands_map(self.hands@.take(i as int)), name),
            decreases self.hands.len() - i,
        {
            assert(self.hands@.take(i + 1).drop_last() =~= self.hands@.take(i as int));
            if self.hands[i].0 == name {
                found = Some(self.hands[i].1);
            }
            i = i + 1;
        }
        assert(self.hands@.take(i as int) =~= self.hands@);
        found
    }
}

} // verus!
