use vstd::prelude::*;

use crate::active::ActivePlayers;
use crate::dash::{CounterMap, counter_map_contents, counter_map_get, counter_map_insert, counter_map_new};

verus! {

/// The count of `id` in a counter map; a player without an entry counts 0.
pub open spec fn count_of(m: Map<u128, u32>, id: u128) -> nat {
    if m.contains_key(id) {
        m[id] as nat
    } else {
        0
    }
}

/// Per player: how many soups were eaten during damager sessions, and how many
/// of them were eaten at or below the accuracy threshold.
pub struct SoupStats {
    consumed: CounterMap,
    accurate: CounterMap,
}

impl SoupStats {
    /// The consumed-soup counts.
    pub closed spec fn consumed_view(&self) -> Map<u128, u32> {
        counter_map_contents(self.consumed)
    }

    /// The accurate-soup counts.
    pub closed spec fn accurate_view(&self) -> Map<u128, u32> {
        counter_map_contents(self.accurate)
    }

    /// No player ever has more accurate soups than consumed soups.
    pub open spec fn wf(&self) -> bool {
        forall|id: u128|
            count_of(#[trigger] self.accurate_view(), id) <= count_of(self.consumed_view(), id)
    }

    /// No counts at all.
    pub fn new() -> (res: Self)
        ensures
            res.wf(),
            res.consumed_view() == Map::<u128, u32>::empty(),
            res.accurate_view() == Map::<u128, u32>::empty(),
    {
        let res = SoupStats { consumed: counter_map_new(), accurate: counter_map_new() };
        assert(res.consumed_view() =~= Map::<u128, u32>::empty());
        assert(res.accurate_view() =~= Map::<u128, u32>::empty());
        res
    }

    /// The consumed-soup count of a player, if it has one.
    pub fn consumed(&self, id: u128) -> (res: Option<u32>)
        ensures
            res == (if self.consumed_view().contains_key(id) {
                Some(self.consumed_view()[id])
            } else {
                None::<u32>
            }),
    {
        counter_map_get(&self.consumed, id)
    }

    /// The accurate-soup count of a player, if it has one.
    pub fn accurate(&self, id: u128) -> (res: Option<u32>)
        ensures
            res == (if self.accurate_view().contains_key(id) {
                Some(self.accurate_view()[id])
            } else {
                None::<u32>
            }),
    {
        counter_map_get(&self.accurate, id)
    }

    /// Both counts of the player start again at 0; other players keep theirs.
    pub fn reset(&mut self, id: u128)
        requires
            old(self).wf(),
        ensures
            final(self).wf(),
            final(self).consumed_view() == old(self).consumed_view().insert(id, 0),
            final(self).accurate_view() == old(self).accurate_view().insert(id, 0),
    {
        counter_map_insert(&mut self.accurate, id, 0);
        counter_map_insert(&mut self.consumed, id, 0);
        assert forall|p: u128|
            count_of(#[trigger] self.accurate_view(), p) <= count_of(self.consumed_view(), p) by {
            assert(count_of(old(self).accurate_view(), p) <= count_of(old(self).consumed_view(), p));
        }
    }

    /// One more soup eaten by the player, counted as accurate too when
    /// `accurate` holds; a missing count starts at 0.
    pub fn record_soup(&mut self, id: u128, accurate: bool)
        requires
            old(self).wf(),
            count_of(old(self).consumed_view(), id) < u32::MAX,
        ensures
            final(self).wf(),
            final(self).consumed_view() == old(self).consumed_view().insert(
                id,
                (count_of(old(self).consumed_view(), id) + 1) as u32,
            ),
            final(self).accurate_view() == (if accurate {
                old(self).accurate_view().insert(
                    id,
                    (count_of(old(self).accurate_view(), id) + 1) as u32,
                )
            } else {
                old(self).accurate_view()
            }),
    {
        let consumed = match counter_map_get(&self.consumed, id) {
            Some(c) => c,
            None => 0,
        };
        counter_map_insert(&mut self.consumed, id, consumed + 1);
        if accurate {
            assert(count_of(old(self).accurate_view(), id) <= count_of(old(self).consumed_view(), id));
            let acc = match counter_map_get(&self.accurate, id) {
                Some(c) => c,
                None => 0,
            };
            counter_map_insert(&mut self.accurate, id, acc + 1);
        }
        assert forall|p: u128|
            count_of(#[trigger] self.accurate_view(), p) <= count_of(self.consumed_view(), p) by {
            assert(count_of(old(self).accurate_view(), p) <= count_of(old(self).consumed_view(), p));
        }
    }
}


/// What a right click with an item shows the soup rules; the two health tests
/// are made by the caller on the player's health (full health is 20, the
/// accuracy threshold is 14).
#[derive(Clone, Copy, Debug, PartialEq, Eq)]
pub struct SoupClick {
    /// The click was a left click (in the air or on a block).
    pub left_click: bool,
    /// The held item is mushroom stew.
    pub holds_stew: bool,
    /// The player's health equals 20.
    pub at_full_health: bool,
    /// The player is hungry.
    pub hungry: bool,
    /// The player's health is at most 14.
    pub at_accuracy_threshold: bool,
}

/// What is done with the player after a click.
#[derive(Clone, Copy, Debug, PartialEq, Eq)]
pub enum SoupAction {
    /// Nothing.
    Ignore,
    /// Food level up by 7, the stew becomes a bowl.
    Eat,
    /// Health up by 7 (at most 20), the stew becomes a bowl.
    Heal,
}

/// The action that the rules choose for a click.
pub open spec fn soup_action(c: SoupClick) -> SoupAction {
    if c.left_click || !c.holds_stew {
        SoupAction::Ignore
    } else if c.at_full_health {
        if c.hungry {
            SoupAction::Eat
        } else {
            SoupAction::Ignore
        }
    } else {
        SoupAction::Heal
    }
}

/// The click counts a soup for the player's damager session.
pub open spec fn counts_soup(c: SoupClick, active: bool) -> bool {
    soup_action(c) == SoupAction::Heal && active
}

/// Handles right clicks with mushroom stew.
pub struct SoupRightClickHandler;

impl SoupRightClickHandler {
    /// Applies the soup rules to a click of player `id`: chooses the action,
    /// and while the player's damager session runs counts a healing soup as
    /// consumed, and as accurate too when eaten at or below the threshold.
    pub fn handle_blocking(
        &self,
        active: &ActivePlayers,
        stats: &mut SoupStats,
        id: u128,
        click: SoupClick,
    ) -> (res: SoupAction)
        requires
            old(stats).wf(),
            counts_soup(click, active@.contains(id)) ==> count_of(old(stats).consumed_view(), id)
                < u32::MAX,
        ensures
            res == soup_action(click),
            !click.holds_stew || click.left_click ==> res == SoupAction::Ignore
                && final(stats).consumed_view() == old(stats).consumed_view()
                && final(stats).accurate_view() == old(stats).accurate_view(),
            final(stats).wf(),
            counts_soup(click, active@.contains(id)) ==> {
                &&& final(stats).consumed_view() == old(stats).consumed_view().insert(
                    id,
                    (count_of(old(stats).consumed_view(), id) + 1) as u32,
                )
                &&& final(stats).accurate_view() == (if click.at_accuracy_threshold {
                    old(stats).accurate_view().insert(
                        id,
                        (count_of(old(stats).accurate_view(), id) + 1) as u32,
                    )
                } else {
                    old(stats).accurate_view()
                })
            },
            !counts_soup(click, active@.contains(id)) ==> final(stats).consumed_view() == old(
                stats,
            ).consumed_view() && final(stats).accurate_view() == old(stats).accurate_view(),
    {
        if click.left_click {
            return SoupAction::Ignore;
        }
        let is_active = active.is_active(id);
        if !click.holds_stew {
            return SoupAction::Ignore;
        }
        if click.at_full_health {
            if click.hungry {
                SoupAction::Eat
            } else {
                SoupAction::Ignore
            }
        } else {
            if is_active {
                stats.record_soup(id, click.at_accuracy_threshold);
            }
            SoupAction::Heal
        }
    }
}


/// The soup rules in terms of the click: a left click or an item that is not
/// stew is always ignored and never counted; stew heals exactly below full
/// health and is eaten exactly at full health when hungry; a soup is counted
/// exactly for an active player it heals, and as accurate exactly at or below
/// the threshold.
pub proof fn lemma_soup_rules(c: SoupClick, active: bool)
    ensures
        !c.holds_stew ==> soup_action(c) == SoupAction::Ignore && !counts_soup(c, active),
        c.left_click ==> soup_action(c) == SoupAction::Ignore && !counts_soup(c, active),
        soup_action(c) == SoupAction::Heal <==> (!c.left_click && c.holds_stew && !c.at_full_health),
        soup_action(c) == SoupAction::Eat <==> (!c.left_click && c.holds_stew && c.at_full_health
            && c.hungry),
        counts_soup(c, active) <==> (active && !c.left_click && c.holds_stew && !c.at_full_health),
{
}

} // verus!
