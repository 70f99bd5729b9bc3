use vstd::prelude::*;

use crate::active::ActivePlayers;
use crate::soup::{count_of, SoupStats};

verus! {

/// How many soups a damager session expects: 32 plus the recraft amount when
/// one was given, 35 otherwise.
pub open spec fn consumable_count(recraft_amount: u8) -> u32 {
    if recraft_amount > 0 {
        (32 + recraft_amount) as u32
    } else {
        35
    }
}

/// The number of soups that a session with this recraft amount can use.
pub fn get_consumable_count(recraft_amount: u8) -> (res: u32)
    ensures
        res == consumable_count(recraft_amount),
{
    if recraft_amount > 0 {
        32 + recraft_amount as u32
    } else {
        35
    }
}

/// What one tick of a running damager does.
#[derive(Clone, Copy, Debug, PartialEq, Eq)]
pub enum TickAction {
    /// The hit would be lethal: health goes to 0, the timer stops and the
    /// session ends.
    Kill,
    /// The player has used all soups of the session: no hit this tick.
    Wait,
    /// The player takes the damager's damage.
    Hit,
}

/// The action of a tick: `lethal` tells whether the damage would bring the
/// player's health to 0 or below.
pub open spec fn tick_action(lethal: bool, consumed: Option<u32>, recraft_amount: u8) -> TickAction {
    if lethal {
        TickAction::Kill
    } else {
        match consumed {
            Some(c) => if c >= consumable_count(recraft_amount) {
                TickAction::Wait
            } else {
                TickAction::Hit
            },
            None => TickAction::Hit,
        }
    }
}

/// One tick of player `id`'s damager: a lethal hit ends the session (and only
/// that player's); otherwise the player is hit unless all soups of the
/// session are used up.
pub fn damager_tick(
    active: &mut ActivePlayers,
    stats: &SoupStats,
    id: u128,
    lethal: bool,
    recraft_amount: u8,
) -> (res: TickAction)
    ensures
        res == tick_action(
            lethal,
            if stats.consumed_view().contains_key(id) {
                Some(stats.consumed_view()[id])
            } else {
                None
            },
            recraft_amount,
        ),
        !lethal && stats.consumed_view().contains_key(id) ==> (res == TickAction::Wait <==> stats.consumed_view()[id] as int >= (if recraft_amount > 0 {
            32 + recraft_amount as int
        } else {
            35int
        })),
        !lethal && stats.consumed_view().contains_key(id) ==> (res == TickAction::Hit <==> (stats.consumed_view()[id] as int) < (if recraft_amount > 0 {
            32 + recraft_amount as int
        } else {
            35int
        })),
        !lethal && !stats.consumed_view().contains_key(id) ==> res == TickAction::Hit,
        lethal ==> res == TickAction::Kill,
        final(active)@ == (if lethal {
            old(active)@.remove(id)
        } else {
            old(active)@
        }),
{
    if lethal {
        active.deactivate(id);
        return TickAction::Kill;
    }
    match stats.consumed(id) {
        Some(count) => {
            if count >= get_consumable_count(recraft_amount) {
                TickAction::Wait
            } else {
                TickAction::Hit
            }
        },
        None => TickAction::Hit,
    }
}

/// A run is perfect when every soup of the session was eaten accurately.
pub fn is_perfect_run(accurate_soups: u32, recraft_amount: u8) -> (res: bool)
    ensures
        res == (accurate_soups == consumable_count(recraft_amount)),
{
    accurate_soups == get_consumable_count(recraft_amount)
}

/// The verb of the congratulation: "completed" for a perfect run, "survived"
/// otherwise.
pub fn congratulation_state(perfect_run: bool) -> (res: &'static str)
    ensures
        res@ == (if perfect_run {
            "completed"@
        } else {
            "survived"@
        }),
{
    if perfect_run {
        "completed"
    } else {
        "survived"
    }
}


/// A perfect run has used up every soup of the session, so the damager stops
/// hitting: with as many accurate soups as the session can use, a tick that
/// is not lethal waits.
pub proof fn lemma_perfect_run_stops_hits(stats: &SoupStats, id: u128, recraft_amount: u8)
    requires
        stats.wf(),
        count_of(stats.accurate_view(), id) == consumable_count(recraft_amount),
    ensures
        stats.consumed_view().contains_key(id),
        tick_action(false, Some(stats.consumed_view()[id]), recraft_amount) == TickAction::Wait,
{
    assert(count_of(stats.accurate_view(), id) <= count_of(stats.consumed_view(), id));
}


/// A tick that is not lethal waits exactly when the consumed count has reached
/// 32 plus the recraft amount (35 without one), and hits for every smaller count.
pub proof fn lemma_tick_waits_when_soups_used(consumed: u32, recraft_amount: u8)
    ensures
        tick_action(false, Some(consumed), recraft_amount) == TickAction::Wait <==> consumed as int
            >= (if recraft_amount > 0 {
            32 + recraft_amount as int
        } else {
            35int
        }),
        tick_action(false, Some(consumed), recraft_amount) == TickAction::Hit <==> (consumed as int)
            < (if recraft_amount > 0 {
            32 + recraft_amount as int
        } else {
            35int
        }),
        tick_action(false, None, recraft_amount) == TickAction::Hit,
        tick_action(true, Some(consumed), recraft_amount) == TickAction::Kill,
{
}

} // verus!
