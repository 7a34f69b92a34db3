//! The turn engine: what a key press does to a game state.

use crate::game::{texts, GameMode, GameState, GameView, Position};
use crate::input::Key;
use crate::laws::{
    lemma_health_stays_in_range, lemma_key_keeps_valid, lemma_player_stays_inside,
    lemma_ticks_keep_valid,
};
use crate::items::{Armor, Consumable, ConsumableEffect, Weapon};
use crate::messages::{
    all_scavenged_message, armor_found_message, armor_found_text, armor_rejected_message,
    armor_rejected_text, attack_message, bolt_cutters_found_message, bolt_cutters_found_text,
    consumable_found_message,
    consumable_found_text, consumable_rejected_message, consumable_rejected_text,
    counterattack_message, damage_boosted_message, defense_boosted_message, encounter_message,
    enemy_defeated_message, exit_locked_message, food_found_message, healed_message,
    inventory_full_message, no_consumable_message, player_defeated_message, retreat_message,
    scavenged_message, victory_message, weapon_found_message, weapon_found_text,
    weapon_rejected_message, weapon_rejected_text,
};
use crate::chance::random_ratio;
use crate::rules::{
    enemies_ticked, first_alive_from, first_stocked_from, log_extend, log_push, Haul,
};
use vstd::prelude::*;

verus! {

impl GameState {
    /// Adds a line to the message log. The log keeps the last five lines.
    pub fn add_message(&mut self, message: String)
        ensures
            final(self)@ == old(self)@.with_message(message@),
    {
        self.messages.push(message);
        if self.messages.len() > 5 {
            self.messages.remove(0);
        }
        assert(texts(self.messages@) =~= log_push(texts(old(self).messages@), message@));
    }

    /// Moves a weapon from a dumpster's slot to the inventory's if that one
    /// is empty, and notes what was found. The weapon is moved, never copied:
    /// where it is taken the dumpster's slot is left empty, and where it is
    /// not the dumpster keeps it and the inventory is as it was.
    pub fn try_pickup_weapon(
        dumpster_slot: &mut Option<Weapon>,
        inventory_slot: &mut Option<Weapon>,
        found_items: &mut Vec<String>,
    ) -> (picked: bool)
        ensures
            picked == (*old(dumpster_slot) is Some && *old(inventory_slot) is None),
            picked ==> *final(dumpster_slot) is None && *final(inventory_slot) == *old(
                dumpster_slot,
            ),
            !picked ==> *final(dumpster_slot) == *old(dumpster_slot) && *final(inventory_slot)
                == *old(inventory_slot),
            texts(final(found_items)@) == match *old(dumpster_slot) {
                Some(item) => texts(old(found_items)@).push(
                    if picked {
                        weapon_found_text(item@.name, item@.damage_bonus as int)
                    } else {
                        weapon_rejected_text(item@.name)
                    },
                ),
                None => texts(old(found_items)@),
            },
    {
        match dumpster_slot.take() {
            Some(weapon) => {
                if inventory_slot.is_some() {
                    found_items.push(weapon_rejected_message(weapon.name.as_str()));
                    *dumpster_slot = Some(weapon);
                    false
                } else {
                    found_items.push(
                        weapon_found_message(weapon.name.as_str(), weapon.damage_bonus as i64),
                    );
                    *inventory_slot = Some(weapon);
                    true
                }
            },
            None => {
                false
            },
        }
    }

    /// Moves armor from a dumpster's slot to the inventory's if that one is
    /// empty, and notes what was found. The armor is moved, never copied.
    pub fn try_pickup_armor(
        dumpster_slot: &mut Option<Armor>,
        inventory_slot: &mut Option<Armor>,
        found_items: &mut Vec<String>,
    ) -> (picked: bool)
        ensures
            picked == (*old(dumpster_slot) is Some && *old(inventory_slot) is None),
            picked ==> *final(dumpster_slot) is None && *final(inventory_slot) == *old(
                dumpster_slot,
            ),
            !picked ==> *final(dumpster_slot) == *old(dumpster_slot) && *final(inventory_slot)
                == *old(inventory_slot),
            texts(final(found_items)@) == match *old(dumpster_slot) {
                Some(item) => texts(old(found_items)@).push(
                    if picked {
                        armor_found_text(item@.name, item@.defense_bonus as int)
                    } else {
                        armor_rejected_text(item@.name)
                    },
                ),
                None => texts(old(found_items)@),
            },
    {
        match dumpster_slot.take() {
            Some(armor) => {
                if inventory_slot.is_some() {
                    found_items.push(armor_rejected_message(armor.name.as_str()));
                    *dumpster_slot = Some(armor);
                    false
                } else {
                    found_items.push(
                        armor_found_message(armor.name.as_str(), armor.defense_bonus as i64),
                    );
                    *inventory_slot = Some(armor);
                    true
                }
            },
            None => {
                false
            },
        }
    }

    /// Moves a consumable from a dumpster's slot to the inventory's if that
    /// one is empty, and notes what was found. The consumable is moved, never
    /// copied.
    pub fn try_pickup_consumable(
        dumpster_slot: &mut Option<Consumable>,
        inventory_slot: &mut Option<Consumable>,
        found_items: &mut Vec<String>,
    ) -> (picked: bool)
        ensures
            picked == (*old(dumpster_slot) is Some && *old(inventory_slot) is None),
            picked ==> *final(dumpster_slot) is None && *final(inventory_slot) == *old(
                dumpster_slot,
            ),
            !picked ==> *final(dumpster_slot) == *old(dumpster_slot) && *final(inventory_slot)
                == *old(inventory_slot),
            texts(final(found_items)@) == match *old(dumpster_slot) {
                Some(item) => texts(old(found_items)@).push(
                    if picked {
                        consumable_found_text(item@.name)
                    } else {
                        consumable_rejected_text(item@.name)
                    },
                ),
                None => texts(old(found_items)@),
            },
    {
        match dumpster_slot.take() {
            Some(consumable) => {
                if inventory_slot.is_some() {
                    found_items.push(consumable_rejected_message(consumable.name.as_str()));
                    *dumpster_slot = Some(consumable);
                    false
                } else {
                    found_items.push(consumable_found_message(consumable.name.as_str()));
                    *inventory_slot = Some(consumable);
                    true
                }
            },
            None => {
                false
            },
        }
    }

    /// Adds lines to the message log, first to last.
    pub fn add_messages(&mut self, lines: &Vec<String>)
        ensures
            final(self)@ == old(self)@.with_messages(texts(lines@)),
    {
        let ghost all = texts(lines@);
        let ghost start = self@;
        let mut i: usize = 0;
        assert(all.subrange(0, all.len() as int) =~= all);
        while i < lines.len()
            invariant
                i <= lines.len(),
                all == texts(lines@),
                self@ == (GameView { messages: self@.messages, ..start }),
                log_extend(self@.messages, all.subrange(i as int, all.len() as int)) == log_extend(
                    start.messages,
                    all,
                ),
            decreases lines.len() - i,
        {
            assert(all.subrange(i as int, all.len() as int).drop_first() =~= all.subrange(
                i + 1,
                all.len() as int,
            ));
            self.add_message(lines[i].clone());
            i = i + 1;
        }
    }

    /// The scavenge check: the player takes what the inventory has room for
    /// from the first stocked dumpster on the player's tile.
    pub fn check_dumpster_scavenge(&mut self)
        requires
            old(self)@.scavenge_picks() ==> old(self).player.scavenged_items < u32::MAX,
        ensures
            final(self)@ == old(self)@.after_scavenge(),
    {
        let player_pos = self.player.position;
        let n = self.dumpsters.len();
        let mut i: usize = 0;
        while i < n && !(self.dumpsters[i].has_items && self.dumpsters[i].position.x
            == player_pos.x && self.dumpsters[i].position.y == player_pos.y)
            invariant
                i <= n,
                n == self.dumpsters.len(),
                *self == *old(self),
                player_pos == self.player.position,
                first_stocked_from(self@.dumpsters, player_pos, i as int) == first_stocked_from(
                    self@.dumpsters,
                    player_pos,
                    0,
                ),
            decreases n - i,
        {
            i = i + 1;
        }
        if i < n {
            let ghost before = self@;
            let mut found_items: Vec<String> = Vec::new();
            let mut items_picked_up = false;
            assert(texts(found_items@) =~= Seq::<Seq<char>>::empty());

            if self.dumpsters[i].has_bolt_cutters {
                self.player.inventory.bolt_cutters.found = true;
                found_items.push(bolt_cutters_found_message());
                self.dumpsters[i].has_bolt_cutters = false;
                items_picked_up = true;
                assert(texts(found_items@) =~= seq![bolt_cutters_found_text()]);
            }
            if Self::try_pickup_weapon(
                &mut self.dumpsters[i].item_weapon,
                &mut self.player.inventory.weapon,
                &mut found_items,
            ) {
                items_picked_up = true;
            }
            if Self::try_pickup_armor(
                &mut self.dumpsters[i].item_armor,
                &mut self.player.inventory.armor,
                &mut found_items,
            ) {
                items_picked_up = true;
            }
            if Self::try_pickup_consumable(
                &mut self.dumpsters[i].item_consumable,
                &mut self.player.inventory.consumable,
                &mut found_items,
            ) {
                items_picked_up = true;
            }
            let has_remaining_items = self.dumpsters[i].item_weapon.is_some()
                || self.dumpsters[i].item_armor.is_some()
                || self.dumpsters[i].item_consumable.is_some();
            if !has_remaining_items {
                self.dumpsters[i].has_items = false;
            }
            let ghost haul = Haul::of(before.dumpsters[i as int], before.player.inventory);
            assert(self@.dumpsters =~= before.dumpsters.update(i as int, haul.dumpster));

            if items_picked_up {
                self.player.scavenged_items = self.player.scavenged_items + 1;
                self.add_message(scavenged_message(self.player.scavenged_items as i64));
                self.player.heal(20);
                self.add_message(food_found_message());
                self.add_messages(&found_items);
                if self.player.scavenged_items >= 3 {
                    self.mode = GameMode::LevelComplete;
                    self.add_message(all_scavenged_message());
                }
            } else {
                self.add_message(inventory_full_message());
                self.add_messages(&found_items);
            }
        } else {
        }
    }

    /// The encounter check: a living enemy on the player's tile starts a
    /// fight. The first such enemy in the list is the one.
    pub fn check_enemy_encounters(&mut self)
        ensures
            final(self)@ == old(self)@.after_encounter_check(),
    {
        let player_pos = self.player.position;
        let n = self.enemies.len();
        let mut idx: usize = 0;
        while idx < n && !(self.enemies[idx].is_alive && self.enemies[idx].position.x
            == player_pos.x && self.enemies[idx].position.y == player_pos.y)
            invariant
                idx <= n,
                n == self.enemies.len(),
                *self == *old(self),
                player_pos == self.player.position,
                first_alive_from(self@.enemies, player_pos, idx as int) == first_alive_from(
                    self@.enemies,
                    player_pos,
                    0,
                ),
            decreases n - idx,
        {
            idx = idx + 1;
        }
        if idx < n {
            let name = self.enemies[idx].enemy_type.to_string();
            self.mode = GameMode::Combat(idx);
            self.add_message(encounter_message(name.as_str()));
        }
    }

    /// The enemies move. Each living enemy in chase range of the player
    /// tosses a coin, and on one side of it moves a step towards the player.
    pub fn move_enemies(&mut self)
        requires
            old(self).width >= 3,
            old(self).height >= 3,
        ensures
            final(self)@ == (GameView { enemies: final(self)@.enemies, ..old(self)@ }),
            enemies_ticked(
                old(self)@.enemies,
                final(self)@.enemies,
                old(self)@.player.position,
                old(self)@.width,
                old(self)@.height,
            ),
    {
        let player_pos = self.player.position;
        let width = self.width;
        let height = self.height;
        let n = self.enemies.len();
        let mut i: usize = 0;
        while i < n
            invariant
                i <= n,
                n == self.enemies.len(),
                n == old(self).enemies.len(),
                self@ == (GameView { enemies: self@.enemies, ..old(self)@ }),
                player_pos == old(self).player.position,
                width == old(self).width,
                height == old(self).height,
                width >= 3,
                height >= 3,
                forall|j: int|
                    0 <= j < i ==> {
                        ||| #[trigger] self.enemies[j] == old(self).enemies[j].after_tick(
                            player_pos,
                            width,
                            height,
                            true,
                        )
                        ||| self.enemies[j] == old(self).enemies[j].after_tick(
                            player_pos,
                            width,
                            height,
                            false,
                        )
                    },
                forall|j: int| i <= j < n ==> #[trigger] self.enemies[j] == old(self).enemies[j],
            decreases n - i,
        {
            if self.enemies[i].chases(&player_pos) {
                let roll = random_ratio(1, 2);
                self.enemies[i].pursue(&player_pos, width, height, roll);
            }
            i = i + 1;
        }
    }

    /// The chain check: on the tile of the chain, with the level complete,
    /// the bolt cutters win the game.
    pub fn check_chain_interaction(&mut self)
        ensures
            final(self)@ == old(self)@.after_chain_check(),
    {
        if self.player.position.x == self.chain_position.x && self.player.position.y
            == self.chain_position.y && self.mode == GameMode::LevelComplete {
            if self.player.inventory.bolt_cutters.found {
                self.mode = GameMode::Victory;
                self.add_message(victory_message());
            } else {
                self.add_message(exit_locked_message());
            }
        }
    }

    /// Uses the consumable held and says so in the log.
    pub fn use_consumable(&mut self)
        requires
            old(self)@.can_use_item(),
        ensures
            final(self)@ == old(self)@.after_use_item(),
    {
        match self.player.inventory.use_consumable() {
            Some((effect, name)) => {
                match effect {
                    ConsumableEffect::Heal(amount) => {
                        self.player.heal(amount);
                        self.add_message(healed_message(name.as_str(), amount as i64));
                    },
                    ConsumableEffect::DamageBoost(amount, duration) => {
                        self.add_message(
                            damage_boosted_message(name.as_str(), amount as i64, duration as i64),
                        );
                    },
                    ConsumableEffect::DefenseBoost(amount, duration) => {
                        self.add_message(
                            defense_boosted_message(name.as_str(), amount as i64, duration as i64),
                        );
                    },
                }
            },
            None => {
                self.add_message(no_consumable_message());
            },
        }
    }

    /// Moves the player one step in the direction of a movement key, if the
    /// step stays in the interior of the playfield. Says whether it did.
    fn try_step(&mut self, key: Key) -> (moved: bool)
        requires
            key.direction() is Some,
        ensures
            moved == old(self)@.move_accepted(key.direction().unwrap()),
            moved ==> final(self)@ == old(self)@.with_player_moved(key.direction().unwrap()),
            !moved ==> final(self)@ == old(self)@,
    {
        let direction = key.to_direction().unwrap();
        if self.accepts_step(direction) {
            let (dx, dy) = direction.offset();
            self.player.position = Position::new(
                (self.player.position.x as i64 + dx) as i32,
                (self.player.position.y as i64 + dy) as i32,
            );
            true
        } else {
            false
        }
    }

    /// Lets a turn pass: the turn counter goes up and the boost countdown
    /// runs.
    fn pass_turn(&mut self)
        requires
            old(self).turn_count < u32::MAX,
        ensures
            final(self)@ == old(self)@.after_turn(),
    {
        self.turn_count = self.turn_count + 1;
        self.player.inventory.update_turn();
    }

    /// A key while exploring. After an accepted step the enemies move: each
    /// is where its tick put it, moved or not as its coin fell.
    pub fn handle_exploring_input(&mut self, key: Key)
        requires
            old(self)@.can_resolve_exploring(key),
        ensures
            final(self)@ == (GameView {
                enemies: final(self)@.enemies,
                ..old(self)@.after_exploring_key(key)
            }),
            if key.direction() matches Some(direction) && old(self)@.move_accepted(direction) {
                enemies_ticked(
                    old(self)@.after_exploring_key(key).enemies,
                    final(self)@.enemies,
                    old(self)@.after_exploring_key(key).player.position,
                    old(self)@.width,
                    old(self)@.height,
                )
            } else {
                final(self)@.enemies == old(self)@.after_exploring_key(key).enemies
            },
    {
        if key.to_direction().is_some() {
            if self.try_step(key) {
                self.pass_turn();
                self.check_dumpster_scavenge();
                self.check_chain_interaction();
                self.check_enemy_encounters();
                self.move_enemies();
            }
        } else if key.uses_item() {
            self.use_consumable();
            self.pass_turn();
        }
    }

    /// A key in a fight with the enemy at `enemy_idx`.
    pub fn handle_combat_input(&mut self, key: Key, enemy_idx: usize)
        requires
            old(self)@.can_resolve_combat(key, enemy_idx as int),
        ensures
            final(self)@ == old(self)@.after_combat_key(key, enemy_idx as int),
    {
        if key.attacks() {
            if enemy_idx < self.enemies.len() && self.enemies[enemy_idx].is_alive {
                let damage = self.player.attack_sum();
                self.enemies[enemy_idx].take_hit(damage);
                let enemy = self.enemies[enemy_idx];
                let name = enemy.enemy_type.to_string();
                self.add_message(attack_message(name.as_str(), damage));
                if !enemy.is_alive {
                    self.add_message(enemy_defeated_message(name.as_str()));
                    self.mode = GameMode::Exploring;
                } else {
                    let defense = self.player.inventory.defense_bonus_sum();
                    let taken = self.player.damage_from(enemy.attack);
                    self.player.take_damage(enemy.attack);
                    self.add_message(counterattack_message(name.as_str(), taken, defense));
                    if !self.player.is_alive() {
                        self.mode = GameMode::GameOver;
                        self.add_message(player_defeated_message());
                    }
                }
            }
        } else if key.retreats() {
            if enemy_idx < self.enemies.len() {
                self.add_message(retreat_message());
                let threat = self.enemies[enemy_idx].position;
                self.player.position = self.player.position.step_away(
                    &threat,
                    self.width,
                    self.height,
                );
                self.mode = GameMode::Exploring;
            }
        } else if key.uses_item() {
            self.use_consumable();
            self.player.inventory.update_turn();
        }
    }

    /// A key once the level is complete.
    pub fn handle_level_complete_input(&mut self, key: Key)
        requires
            old(self)@.can_resolve_level_complete(key),
        ensures
            final(self)@ == old(self)@.after_level_complete_key(key),
    {
        if key.to_direction().is_some() {
            if self.try_step(key) {
                self.pass_turn();
                self.check_chain_interaction();
            }
        } else if key.uses_item() {
            self.use_consumable();
            self.pass_turn();
        }
    }

    /// Resolves one key press. This is the only way a game state changes.
    ///
    /// The state after the call is what the rules make of the state before
    /// it and the key. Only the movement of the enemies is left to chance:
    /// after an accepted step while exploring, each enemy is where its tick
    /// put it, moved or not as its coin fell. A state that is valid stays
    /// valid; a player in the interior of the playfield stays there, and
    /// health that is in its range stays in it, in every mode and for every
    /// key.
    pub fn handle_input(&mut self, key: Key)
        requires
            old(self)@.can_resolve(key),
        ensures
            old(self)@.resolves_to(key, final(self)@),
            old(self)@.valid() ==> final(self)@.valid(),
            old(self)@.player.position.in_interior(old(self)@.width, old(self)@.height)
                ==> final(self)@.player.position.in_interior(
                final(self)@.width,
                final(self)@.height,
            ),
            old(self)@.player.health_in_range() ==> final(self)@.player.health_in_range(),
    {
        match self.mode {
            GameMode::Exploring => self.handle_exploring_input(key),
            GameMode::Combat(enemy_idx) => self.handle_combat_input(key, enemy_idx),
            GameMode::LevelComplete => self.handle_level_complete_input(key),
            _ => {},
        }
        proof {
            if old(self)@.valid() {
                lemma_key_keeps_valid(old(self)@, key);
                lemma_ticks_keep_valid(old(self)@.after_key(key), self@);
            }
            if old(self).player.position.in_interior(old(self).width, old(self).height) {
                lemma_player_stays_inside(old(self)@, key, self@);
            }
            if old(self)@.player.health_in_range() {
                lemma_health_stays_in_range(old(self)@, key, self@);
            }
        }
    }
}

} // verus!
