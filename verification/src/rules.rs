//! The rules of the game, stated over the value of a game state.
//!
//! Everything here is ghost code: what a key press makes of a state. The
//! engine's functions are proved to compute exactly this.

use crate::game::{
    DumpsterView, Enemy, EnemyType, GameMode, GameView, PlayerView, Position,
};
use crate::input::{Direction, Key};
use crate::items::{ConsumableEffect, InventoryView};
use crate::messages::{
    all_scavenged_text, armor_found_text, armor_rejected_text, attack_text,
    bolt_cutters_found_text, consumable_found_text, consumable_rejected_text,
    counterattack_text, damage_boosted_text, defense_boosted_text, encounter_text,
    enemy_defeated_text, exit_locked_text, food_found_text, healed_text, inventory_full_text,
    no_consumable_text, player_defeated_text, retreat_text, scavenged_text, victory_text,
    weapon_found_text, weapon_rejected_text, welcome_goal_text, welcome_hint_text,
    welcome_keys_text, welcome_title_text,
};
use vstd::prelude::*;

verus! {

/// The log after one more line: the line goes to the end, and when that makes
/// more than five the oldest line is dropped.
pub open spec fn log_push(log: Seq<Seq<char>>, line: Seq<char>) -> Seq<Seq<char>> {
    if log.len() + 1 > 5 {
        log.push(line).drop_first()
    } else {
        log.push(line)
    }
}

/// The log after `lines` have been added one by one, first to last.
pub open spec fn log_extend(log: Seq<Seq<char>>, lines: Seq<Seq<char>>) -> Seq<Seq<char>>
    decreases lines.len(),
{
    if lines.len() == 0 {
        log
    } else {
        log_extend(log_push(log, lines.first()), lines.drop_first())
    }
}

/// The index of the first dumpster at or after `start` that is stocked at
/// `position`, if there is one.
pub open spec fn first_stocked_from(
    dumpsters: Seq<DumpsterView>,
    position: Position,
    start: int,
) -> Option<int>
    decreases dumpsters.len() - start,
{
    if start < 0 || start >= dumpsters.len() {
        None
    } else if dumpsters[start].stocked_at(position) {
        Some(start)
    } else {
        first_stocked_from(dumpsters, position, start + 1)
    }
}

/// The index of the first enemy at or after `start` that is alive on tile
/// `position`, if there is one.
pub open spec fn first_alive_from(enemies: Seq<Enemy>, position: Position, start: int) -> Option<
    int,
>
    decreases enemies.len() - start,
{
    if start < 0 || start >= enemies.len() {
        None
    } else if enemies[start].is_alive && enemies[start].position == position {
        Some(start)
    } else {
        first_alive_from(enemies, position, start + 1)
    }
}

/// What has come of scavenging one dumpster so far.
pub struct Haul {
    /// The dumpster, less what was taken.
    pub dumpster: DumpsterView,
    /// The inventory, with what was taken.
    pub inventory: InventoryView,
    /// Whether anything was taken.
    pub picked: bool,
    /// One line for each item taken or found and left.
    pub notes: Seq<Seq<char>>,
}

impl Haul {
    /// Bolt cutters, where the dumpster has them, are always taken.
    pub open spec fn take_bolt_cutters(self) -> Haul {
        if self.dumpster.has_bolt_cutters {
            Haul {
                dumpster: DumpsterView { has_bolt_cutters: false, ..self.dumpster },
                inventory: InventoryView { bolt_cutters_found: true, ..self.inventory },
                picked: true,
                notes: self.notes.push(bolt_cutters_found_text()),
            }
        } else {
            self
        }
    }

    /// A weapon is taken if the weapon slot is empty; otherwise it is noted
    /// and left in the dumpster.
    pub open spec fn take_weapon(self) -> Haul {
        match self.dumpster.item_weapon {
            Some(item) => if self.inventory.weapon is Some {
                Haul { notes: self.notes.push(weapon_rejected_text(item.name)), ..self }
            } else {
                Haul {
                    dumpster: DumpsterView { item_weapon: None, ..self.dumpster },
                    inventory: InventoryView { weapon: Some(item), ..self.inventory },
                    picked: true,
                    notes: self.notes.push(
                        weapon_found_text(item.name, item.damage_bonus as int),
                    ),
                }
            },
            None => self,
        }
    }

    /// Armor is taken if the armor slot is empty; otherwise it is noted and
    /// left in the dumpster.
    pub open spec fn take_armor(self) -> Haul {
        match self.dumpster.item_armor {
            Some(item) => if self.inventory.armor is Some {
                Haul { notes: self.notes.push(armor_rejected_text(item.name)), ..self }
            } else {
                Haul {
                    dumpster: DumpsterView { item_armor: None, ..self.dumpster },
                    inventory: InventoryView { armor: Some(item), ..self.inventory },
                    picked: true,
                    notes: self.notes.push(
                        armor_found_text(item.name, item.defense_bonus as int),
                    ),
                }
            },
            None => self,
        }
    }

    /// A consumable is taken if the consumable slot is empty; otherwise it is
    /// noted and left in the dumpster.
    pub open spec fn take_consumable(self) -> Haul {
        match self.dumpster.item_consumable {
            Some(item) => if self.inventory.consumable is Some {
                Haul { notes: self.notes.push(consumable_rejected_text(item.name)), ..self }
            } else {
                Haul {
                    dumpster: DumpsterView { item_consumable: None, ..self.dumpster },
                    inventory: InventoryView { consumable: Some(item), ..self.inventory },
                    picked: true,
                    notes: self.notes.push(consumable_found_text(item.name)),
                }
            },
            None => self,
        }
    }

    /// The dumpster is depleted once no payload is left in it. While an item
    /// that was found and left remains, it can be visited again.
    pub open spec fn settle(self) -> Haul {
        Haul {
            dumpster: DumpsterView {
                has_items: self.dumpster.has_items && self.dumpster.has_payload(),
                ..self.dumpster
            },
            ..self
        }
    }

    /// Scavenging a dumpster into an inventory: bolt cutters first, then the
    /// weapon, the armor and the consumable.
    pub open spec fn of(dumpster: DumpsterView, inventory: InventoryView) -> Haul {
        (Haul {
            dumpster,
            inventory,
            picked: false,
            notes: Seq::empty(),
        }).take_bolt_cutters().take_weapon().take_armor().take_consumable().settle()
    }
}

impl GameView {
    /// The state in which a game opens on a playfield of the given size with
    /// the given dumpsters and enemies: the player spawns near the bottom
    /// centre, the chain is at the top centre, the mode is `Exploring`, no
    /// turn has passed and the log holds the four lines of the welcome.
    pub open spec fn opening(
        width: i32,
        height: i32,
        dumpsters: Seq<DumpsterView>,
        enemies: Seq<Enemy>,
    ) -> GameView {
        GameView {
            player: PlayerView::spawned(Position { x: (width / 2) as i32, y: (height - 3) as i32 }),
            enemies,
            dumpsters,
            width,
            height,
            mode: GameMode::Exploring,
            messages: seq![
                welcome_title_text(),
                welcome_goal_text(),
                welcome_keys_text(),
                welcome_hint_text(),
            ],
            turn_count: 0,
            chain_position: Position { x: (width / 2) as i32, y: 1 },
        }
    }

    /// The dumpsters of a new game: three in row 3, at a quarter, at a
    /// quarter plus a third, and at three quarters of the width. Each is
    /// stocked from the tables, and the last one alone has the bolt cutters.
    pub open spec fn standard_dumpsters(self) -> bool {
        &&& self.dumpsters.len() == 3
        &&& self.dumpsters[0].position == (Position { x: (self.width / 4) as i32, y: 3 })
        &&& self.dumpsters[1].position == (Position {
            x: (self.width / 4 + self.width / 3) as i32,
            y: 3,
        })
        &&& self.dumpsters[2].position == (Position { x: (self.width * 3 / 4) as i32, y: 3 })
        &&& forall|i: int|
            0 <= i < 3 ==> {
                &&& (#[trigger] self.dumpsters[i]).has_items
                &&& self.dumpsters[i].stocked_from_tables()
                &&& self.dumpsters[i].has_bolt_cutters == (i == 2)
            }
    }

    /// The enemies of a new game: three rats anywhere at least five tiles
    /// from every edge, a feral cat in the upper half of that area, and a
    /// rival punk five tiles right of centre in row 5. All are alive and at
    /// full health.
    pub open spec fn standard_enemies(self) -> bool {
        &&& self.enemies.len() == 5
        &&& forall|i: int|
            0 <= i < 3 ==> {
                &&& #[trigger] self.enemies[i] == Enemy::spawned(
                    EnemyType::Rat,
                    self.enemies[i].position,
                )
                &&& 5 <= self.enemies[i].position.x < self.width - 5
                &&& 5 <= self.enemies[i].position.y < self.height - 5
            }
        &&& self.enemies[3] == Enemy::spawned(EnemyType::FerralCat, self.enemies[3].position)
        &&& 5 <= self.enemies[3].position.x < self.width - 5
        &&& 5 <= self.enemies[3].position.y < self.height / 2
        &&& self.enemies[4] == Enemy::spawned(
            EnemyType::RivalPunk,
            Position { x: (self.width / 2 + 5) as i32, y: 5 },
        )
    }

    /// Whether this is a state in which a new game on a playfield of the
    /// given size can open.
    pub open spec fn fresh(self, width: i32, height: i32) -> bool {
        &&& self == GameView::opening(width, height, self.dumpsters, self.enemies)
        &&& self.standard_dumpsters()
        &&& self.standard_enemies()
    }

    /// The invariants of a game state. The player stands in the interior of
    /// the playfield, which therefore is at least three tiles wide and high;
    /// health is within its range; the boost rule holds; an enemy is alive
    /// exactly while it has health; a fight is with an enemy that exists; the
    /// log holds no more than five lines.
    pub open spec fn valid(self) -> bool {
        &&& self.player.position.in_interior(self.width, self.height)
        &&& self.player.health_in_range()
        &&& self.player.inventory.well_formed()
        &&& forall|i: int|
            0 <= i < self.dumpsters.len() ==> (#[trigger] self.dumpsters[i]).well_formed()
        &&& forall|i: int| 0 <= i < self.enemies.len() ==> (#[trigger] self.enemies[i]).consistent()
        &&& self.mode matches GameMode::Combat(idx) ==> idx < self.enemies.len()
        &&& self.messages.len() <= 5
    }

    /// Whether the game has ended. No key changes a state that is terminal.
    pub open spec fn terminal(self) -> bool {
        self.mode == GameMode::Victory || self.mode == GameMode::GameOver
    }

    /// The state with one more line in the log.
    pub open spec fn with_message(self, line: Seq<char>) -> GameView {
        GameView { messages: log_push(self.messages, line), ..self }
    }

    /// The state with `lines` added to the log, first to last.
    pub open spec fn with_messages(self, lines: Seq<Seq<char>>) -> GameView {
        GameView { messages: log_extend(self.messages, lines), ..self }
    }

    /// The state one turn later on the clock: the turn counter is one higher
    /// and the boost countdown has run one turn.
    pub open spec fn after_turn(self) -> GameView {
        GameView {
            player: PlayerView {
                inventory: self.player.inventory.after_turn(),
                ..self.player
            },
            turn_count: (self.turn_count + 1) as u32,
            ..self
        }
    }

    /// The state with the boost countdown run one turn; the turn counter
    /// stays.
    pub open spec fn after_boost_tick(self) -> GameView {
        GameView {
            player: PlayerView {
                inventory: self.player.inventory.after_turn(),
                ..self.player
            },
            ..self
        }
    }

    /// Whether a step in `direction` keeps the player in the interior of the
    /// playfield. A step that does not is rejected.
    pub open spec fn move_accepted(self, direction: Direction) -> bool {
        Position::interior(
            self.player.position.x + direction.dx(),
            self.player.position.y + direction.dy(),
            self.width,
            self.height,
        )
    }

    /// The state with the player moved one step in `direction`.
    pub open spec fn with_player_moved(self, direction: Direction) -> GameView {
        GameView {
            player: PlayerView {
                position: self.player.position.neighbour(direction),
                ..self.player
            },
            ..self
        }
    }

    /// The dumpster that the player can scavenge: the first one that is
    /// stocked on the player's tile.
    pub open spec fn dumpster_here(self) -> Option<int> {
        first_stocked_from(self.dumpsters, self.player.position, 0)
    }

    /// Whether the scavenge check would take anything.
    pub open spec fn scavenge_picks(self) -> bool {
        self.dumpster_here() matches Some(i) && Haul::of(
            self.dumpsters[i],
            self.player.inventory,
        ).picked
    }

    /// The scavenge check. Only the first stocked dumpster on the player's
    /// tile is looked at. If anything was taken, the scavenge count goes up,
    /// the player is healed by 20, and when the count has reached 3 the mode
    /// becomes `LevelComplete`. If nothing could be taken the log says that
    /// the inventory is full.
    pub open spec fn after_scavenge(self) -> GameView {
        match self.dumpster_here() {
            Some(i) => {
                let haul = Haul::of(self.dumpsters[i], self.player.inventory);
                let looted = GameView {
                    player: PlayerView { inventory: haul.inventory, ..self.player },
                    dumpsters: self.dumpsters.update(i, haul.dumpster),
                    ..self
                };
                if haul.picked {
                    let count = (self.player.scavenged_items + 1) as u32;
                    let fed = GameView {
                        player: (PlayerView { scavenged_items: count, ..looted.player }).after_heal(
                            20,
                        ),
                        ..looted
                    }.with_message(scavenged_text(count as int)).with_message(
                        food_found_text(),
                    ).with_messages(haul.notes);
                    if count >= 3 {
                        GameView { mode: GameMode::LevelComplete, ..fed }.with_message(
                            all_scavenged_text(),
                        )
                    } else {
                        fed
                    }
                } else {
                    looted.with_message(inventory_full_text()).with_messages(haul.notes)
                }
            },
            None => self,
        }
    }

    /// The chain check. It applies in `LevelComplete` mode on the tile of the
    /// chain: with the bolt cutters the game is won, without them the log
    /// says that the exit is locked.
    pub open spec fn after_chain_check(self) -> GameView {
        if self.player.position == self.chain_position && self.mode == GameMode::LevelComplete {
            if self.player.inventory.bolt_cutters_found {
                GameView { mode: GameMode::Victory, ..self }.with_message(victory_text())
            } else {
                self.with_message(exit_locked_text())
            }
        } else {
            self
        }
    }

    /// The enemy that the player has walked into: the first one that is
    /// alive on the player's tile.
    pub open spec fn enemy_here(self) -> Option<int> {
        first_alive_from(self.enemies, self.player.position, 0)
    }

    /// The encounter check: a living enemy on the player's tile starts a
    /// fight with it.
    pub open spec fn after_encounter_check(self) -> GameView {
        match self.enemy_here() {
            Some(i) => GameView { mode: GameMode::Combat(i as usize), ..self }.with_message(
                encounter_text(self.enemies[i].enemy_type.label()),
            ),
            None => self,
        }
    }

    /// Using the consumable held. Healing is applied to the player, up to the
    /// maximum; a boost is stacked in the inventory; either way the log says
    /// what was used. With no consumable the log says so.
    pub open spec fn after_use_item(self) -> GameView {
        match self.player.inventory.consumable {
            Some(item) => {
                let emptied = PlayerView {
                    inventory: self.player.inventory.after_consume(),
                    ..self.player
                };
                match item.effect {
                    ConsumableEffect::Heal(amount) => GameView {
                        player: emptied.after_heal(amount as int),
                        ..self
                    }.with_message(healed_text(item.name, amount as int)),
                    ConsumableEffect::DamageBoost(amount, duration) => GameView {
                        player: emptied,
                        ..self
                    }.with_message(damage_boosted_text(item.name, amount as int, duration as int)),
                    ConsumableEffect::DefenseBoost(amount, duration) => GameView {
                        player: emptied,
                        ..self
                    }.with_message(
                        defense_boosted_text(item.name, amount as int, duration as int),
                    ),
                }
            },
            None => self.with_message(no_consumable_text()),
        }
    }

    /// An attack on the enemy at `idx`. Nothing happens unless that enemy
    /// exists and is alive. The enemy takes the player's total attack. If
    /// that kills it the fight is over; otherwise it hits back, and if that
    /// takes the player's last health the game is over.
    pub open spec fn after_attack(self, idx: int) -> GameView {
        if 0 <= idx < self.enemies.len() && self.enemies[idx].is_alive {
            let damage = self.player.total_attack();
            let enemy = self.enemies[idx].after_damage(damage);
            let name = enemy.enemy_type.label();
            let struck = GameView { enemies: self.enemies.update(idx, enemy), ..self }.with_message(
                attack_text(name, damage),
            );
            if !enemy.is_alive {
                GameView { mode: GameMode::Exploring, ..struck }.with_message(
                    enemy_defeated_text(name),
                )
            } else {
                let player = self.player.after_damage(enemy.attack as int);
                let hurt = GameView { player, ..struck }.with_message(
                    counterattack_text(
                        name,
                        self.player.damage_taken(enemy.attack as int),
                        self.player.inventory.total_defense_bonus(),
                    ),
                );
                if player.health > 0 {
                    hurt
                } else {
                    GameView { mode: GameMode::GameOver, ..hurt }.with_message(
                        player_defeated_text(),
                    )
                }
            }
        } else {
            self
        }
    }

    /// A retreat from the enemy at `idx`: the player moves one step away
    /// from it on each axis, forced into the interior, and the fight is over.
    /// A retreat is never rejected for where it leads. Nothing happens where
    /// no enemy stands at `idx`: an index that has gone stale is ignored.
    pub open spec fn after_retreat(self, idx: int) -> GameView {
        if 0 <= idx < self.enemies.len() {
            GameView {
                player: PlayerView {
                    position: self.player.position.stepped_away(
                        self.enemies[idx].position,
                        self.width,
                        self.height,
                    ),
                    ..self.player
                },
                mode: GameMode::Exploring,
                ..self
            }.with_message(retreat_text())
        } else {
            self
        }
    }

    /// Whether the consumable held can be used without a boost leaving the
    /// range of its type. True with no consumable, and for every healing.
    pub open spec fn can_use_item(self) -> bool {
        self.player.inventory.can_consume()
    }

    /// What a key makes of the state while exploring, but for the movement
    /// of the enemies. An accepted step takes a turn and is followed by the
    /// scavenge check, the chain check and the encounter check, in this
    /// order. The use of an item takes a turn. A rejected step and any other
    /// key leave the state as it is.
    pub open spec fn after_exploring_key(self, key: Key) -> GameView {
        match key.direction() {
            Some(direction) => if self.move_accepted(direction) {
                self.with_player_moved(
                    direction,
                ).after_turn().after_scavenge().after_chain_check().after_encounter_check()
            } else {
                self
            },
            None => if key.is_use_item() {
                self.after_use_item().after_turn()
            } else {
                self
            },
        }
    }

    /// What a key makes of the state in a fight with the enemy at `idx`: the
    /// player attacks, retreats, or uses an item, which here runs the boost
    /// countdown but takes no turn off the counter. Any other key leaves the
    /// state as it is.
    pub open spec fn after_combat_key(self, key: Key, idx: int) -> GameView {
        if key.is_attack() {
            self.after_attack(idx)
        } else if key.is_retreat() {
            self.after_retreat(idx)
        } else if key.is_use_item() {
            self.after_use_item().after_boost_tick()
        } else {
            self
        }
    }

    /// What a key makes of the state once the level is complete. Steps and
    /// items are handled as while exploring, but of the checks only the
    /// chain check is made: nothing is scavenged, no fight starts and the
    /// enemies stay where they are.
    pub open spec fn after_level_complete_key(self, key: Key) -> GameView {
        match key.direction() {
            Some(direction) => if self.move_accepted(direction) {
                self.with_player_moved(direction).after_turn().after_chain_check()
            } else {
                self
            },
            None => if key.is_use_item() {
                self.after_use_item().after_turn()
            } else {
                self
            },
        }
    }

    /// What a key makes of the state, but for the movement of the enemies.
    /// Every key leaves a terminal state as it is.
    pub open spec fn after_key(self, key: Key) -> GameView {
        match self.mode {
            GameMode::Exploring => self.after_exploring_key(key),
            GameMode::Combat(idx) => self.after_combat_key(key, idx as int),
            GameMode::LevelComplete => self.after_level_complete_key(key),
            GameMode::Victory => self,
            GameMode::GameOver => self,
        }
    }

    /// Whether the enemies get to move after this key: only after an
    /// accepted step while exploring.
    pub open spec fn enemies_move(self, key: Key) -> bool {
        self.mode == GameMode::Exploring && (key.direction() matches Some(direction)
            && self.move_accepted(direction))
    }

    /// Whether `after` is a state that `key` can make of this one: it is
    /// what the rules make of the state and the key, and where the enemies
    /// move, each of them is where its tick put it.
    pub open spec fn resolves_to(self, key: Key, after: GameView) -> bool {
        let settled = self.after_key(key);
        &&& after == (GameView { enemies: after.enemies, ..settled })
        &&& if self.enemies_move(key) {
            enemies_ticked(
                settled.enemies,
                after.enemies,
                settled.player.position,
                self.width,
                self.height,
            )
        } else {
            after.enemies == settled.enemies
        }
    }

    /// Whether a key can be resolved while exploring without a number
    /// leaving the range of its type: the turn counter, the scavenge count
    /// where something is taken, and what an item that is used adds to.
    pub open spec fn can_resolve_exploring(self, key: Key) -> bool {
        match key.direction() {
            Some(direction) => self.move_accepted(direction) ==> {
                &&& self.turn_count < u32::MAX
                &&& self.with_player_moved(direction).after_turn().scavenge_picks()
                    ==> self.player.scavenged_items < u32::MAX
            },
            None => key.is_use_item() ==> self.turn_count < u32::MAX && self.can_use_item(),
        }
    }

    /// Whether a key can be resolved in a fight with the enemy at `idx`: an
    /// attack must leave the enemy's health within its type, a retreat from
    /// an enemy that exists needs a playfield with an interior, an item is
    /// as elsewhere. With no enemy at `idx`, attack and retreat do nothing
    /// and can always be resolved.
    pub open spec fn can_resolve_combat(self, key: Key, idx: int) -> bool {
        if key.is_attack() {
            0 <= idx < self.enemies.len() && self.enemies[idx].is_alive ==> self.enemies[idx].health
                - self.player.total_attack() <= i32::MAX
        } else if key.is_retreat() {
            0 <= idx < self.enemies.len() ==> self.width >= 3 && self.height >= 3
        } else {
            key.is_use_item() ==> self.can_use_item()
        }
    }

    /// Whether a key can be resolved once the level is complete.
    pub open spec fn can_resolve_level_complete(self, key: Key) -> bool {
        match key.direction() {
            Some(direction) => self.move_accepted(direction) ==> self.turn_count < u32::MAX,
            None => key.is_use_item() ==> self.turn_count < u32::MAX && self.can_use_item(),
        }
    }

    /// Whether the key can be resolved without a number leaving the range of
    /// its type. In a terminal mode every key can: it does nothing.
    pub open spec fn can_resolve(self, key: Key) -> bool {
        match self.mode {
            GameMode::Exploring => self.can_resolve_exploring(key),
            GameMode::Combat(idx) => self.can_resolve_combat(key, idx as int),
            GameMode::LevelComplete => self.can_resolve_level_complete(key),
            GameMode::Victory => true,
            GameMode::GameOver => true,
        }
    }
}

/// What the movement of the enemies can make of them: each enemy is as its
/// tick leaves it, moved or not as its own coin fell.
pub open spec fn enemies_ticked(
    before: Seq<Enemy>,
    after: Seq<Enemy>,
    target: Position,
    width: i32,
    height: i32,
) -> bool {
    &&& after.len() == before.len()
    &&& forall|i: int|
        0 <= i < before.len() ==> {
            ||| #[trigger] after[i] == before[i].after_tick(target, width, height, true)
            ||| after[i] == before[i].after_tick(target, width, height, false)
        }
}

} // verus!
