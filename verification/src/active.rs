use vstd::prelude::*;

use dashmap::DashSet;

use crate::dash::{id_set_contains, id_set_contents, id_set_insert, id_set_new, id_set_remove};

verus! {

/// The players whose damager session is running, each by the 128-bit value
/// of its UUID.
pub struct ActivePlayers {
    ids: DashSet<u128>,
}

impl View for ActivePlayers {
    type V = Set<u128>;

    closed spec fn view(&self) -> Set<u128> {
        id_set_contents(self.ids)
    }
}

impl ActivePlayers {
    /// No player is active.
    pub fn new() -> (res: Self)
        ensures
            res@ == Set::<u128>::empty(),
    {
        ActivePlayers { ids: id_set_new() }
    }

    /// Whether the player's session is running.
    pub fn is_active(&self, id: u128) -> (res: bool)
        ensures
            res == self@.contains(id),
    {
        id_set_contains(&self.ids, id)
    }

    /// Starts or stops the player's session: an active player becomes inactive,
    /// an inactive one active; no other player changes.
    pub fn toggle_damager(&mut self, id: u128)
        ensures
            final(self)@ == toggled(old(self)@, id),
    {
        if id_set_contains(&self.ids, id) {
            id_set_remove(&mut self.ids, id);
        } else {
            id_set_insert(&mut self.ids, id);
        }
    }

    /// Stops the player's session if it runs; no other player changes.
    pub fn deactivate(&mut self, id: u128)
        ensures
            final(self)@ == old(self)@.remove(id),
    {
        if id_set_contains(&self.ids, id) {
            id_set_remove(&mut self.ids, id);
        }
    }
}

/// The set with `id`'s membership flipped.
pub open spec fn toggled(s: Set<u128>, id: u128) -> Set<u128> {
    if s.contains(id) {
        s.remove(id)
    } else {
        s.insert(id)
    }
}

/// Toggling a player twice leaves the set of active players as it was.
pub proof fn lemma_toggle_twice(s: Set<u128>, id: u128)
    ensures
        toggled(toggled(s, id), id) == s,
{
    assert(toggled(toggled(s, id), id) =~= s);
}

} // verus!
