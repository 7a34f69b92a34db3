//! Run-time checks of what the engine asks of a state before a key.
//!
//! A caller that cannot prove the engine's preconditions tests them here.

use crate::game::{GameMode, GameState, Position};
use crate::input::{Direction, Key};
use crate::rules::{first_stocked_from, Haul};
use vstd::prelude::*;

verus! {

impl GameState {
    /// Whether the state meets the invariants of a game state.
    pub fn is_valid(&self) -> (ok: bool)
        ensures
            ok == self@.valid(),
    {
        if !self.player.position.is_in_interior(self.width, self.height) {
            return false;
        }
        if self.player.health < 0 || self.player.health > self.player.max_health {
            return false;
        }
        if !self.player.inventory.is_well_formed() {
            return false;
        }
        let mut i: usize = 0;
        while i < self.dumpsters.len()
            invariant
                i <= self.dumpsters.len(),
                forall|j: int| 0 <= j < i ==> (#[trigger] self@.dumpsters[j]).well_formed(),
            decreases self.dumpsters.len() - i,
        {
            if !self.dumpsters[i].is_well_formed() {
                assert(!self@.dumpsters[i as int].well_formed());
                return false;
            }
            i = i + 1;
        }
        let mut k: usize = 0;
        while k < self.enemies.len()
            invariant
                k <= self.enemies.len(),
                forall|j: int| 0 <= j < k ==> (#[trigger] self@.enemies[j]).consistent(),
            decreases self.enemies.len() - k,
        {
            if !self.enemies[k].is_consistent() {
                assert(!self@.enemies[k as int].consistent());
                return false;
            }
            k = k + 1;
        }
        let fight_ok = match self.mode {
            GameMode::Combat(idx) => idx < self.enemies.len(),
            _ => true,
        };
        fight_ok && self.messages.len() <= 5
    }

    /// Whether the consumable held can be used without a boost leaving the
    /// range of its type.
    pub fn can_use_item(&self) -> (ok: bool)
        ensures
            ok == self@.can_use_item(),
    {
        self.player.inventory.can_use_consumable()
    }

    /// Whether a step in `direction` would keep the player in the interior
    /// of the playfield.
    pub fn accepts_step(&self, direction: Direction) -> (ok: bool)
        ensures
            ok == self@.move_accepted(direction),
    {
        let (dx, dy) = direction.offset();
        let x: i64 = self.player.position.x as i64 + dx;
        let y: i64 = self.player.position.y as i64 + dy;
        x >= 1 && x < self.width as i64 - 1 && y >= 1 && y < self.height as i64 - 1
    }

    /// Whether the scavenge check would take anything if the player stood on
    /// tile `position`.
    fn would_pick_at(&self, position: Position) -> (yes: bool)
        ensures
            yes == (first_stocked_from(self@.dumpsters, position, 0) matches Some(i) && Haul::of(
                self@.dumpsters[i],
                self@.player.inventory,
            ).picked),
    {
        let n = self.dumpsters.len();
        let mut i: usize = 0;
        while i < n && !(self.dumpsters[i].has_items && self.dumpsters[i].position.x == position.x
            && self.dumpsters[i].position.y == position.y)
            invariant
                i <= n,
                n == self.dumpsters.len(),
                first_stocked_from(self@.dumpsters, position, i as int) == first_stocked_from(
                    self@.dumpsters,
                    position,
                    0,
                ),
            decreases n - i,
        {
            i = i + 1;
        }
        if i < n {
            self.dumpsters[i].has_something_for(&self.player.inventory)
        } else {
            false
        }
    }

    /// Whether `key` can be resolved without a number leaving the range of
    /// its type.
    pub fn can_resolve(&self, key: Key) -> (ok: bool)
        ensures
            ok == self@.can_resolve(key),
    {
        match self.mode {
            GameMode::Exploring => match key.to_direction() {
                Some(direction) => {
                    if self.accepts_step(direction) {
                        let (dx, dy) = direction.offset();
                        let target = Position::new(
                            (self.player.position.x as i64 + dx) as i32,
                            (self.player.position.y as i64 + dy) as i32,
                        );
                        self.turn_count < u32::MAX && (self.player.scavenged_items < u32::MAX
                            || !self.would_pick_at(target))
                    } else {
                        true
                    }
                },
                None => !key.uses_item() || (self.turn_count < u32::MAX && self.can_use_item()),
            },
            GameMode::Combat(idx) => {
                if key.attacks() {
                    if idx < self.enemies.len() && self.enemies[idx].is_alive {
                        self.enemies[idx].health as i64 - self.player.attack_sum() <= 2147483647
                    } else {
                        true
                    }
                } else if key.retreats() {
                    idx >= self.enemies.len() || (self.width >= 3 && self.height >= 3)
                } else {
                    !key.uses_item() || self.can_use_item()
                }
            },
            GameMode::LevelComplete => match key.to_direction() {
                Some(direction) => !self.accepts_step(direction) || self.turn_count < u32::MAX,
                None => !key.uses_item() || (self.turn_count < u32::MAX && self.can_use_item()),
            },
            _ => true,
        }
    }

    /// Resolves one key press if the key can be resolved, and says whether
    /// it did. Otherwise the state is left as it is.
    pub fn try_handle_input(&mut self, key: Key) -> (handled: bool)
        ensures
            handled == old(self)@.can_resolve(key),
            handled ==> old(self)@.resolves_to(key, final(self)@),
            handled && old(self)@.valid() ==> final(self)@.valid(),
            !handled ==> *final(self) == *old(self),
            old(self)@.player.position.in_interior(old(self)@.width, old(self)@.height)
                ==> final(self)@.player.position.in_interior(
                final(self)@.width,
                final(self)@.height,
            ),
            old(self)@.player.health_in_range() ==> final(self)@.player.health_in_range(),
    {
        if self.can_resolve(key) {
            self.handle_input(key);
            true
        } else {
            false
        }
    }
}

} // verus!
