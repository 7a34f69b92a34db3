//! What holds of the rules, proved over the value of a game state.

use crate::game::{DumpsterView, Enemy, GameMode, GameView, PlayerView, Position};
use crate::input::Key;
use crate::items::{Inventory, InventoryView};
use crate::messages::{food_found_text, inventory_full_text, scavenged_text};
use crate::rules::{
    enemies_ticked, first_alive_from, first_stocked_from, log_extend, log_push, Haul,
};
use vstd::prelude::*;

verus! {

/// Adding a line to a log of at most five lines leaves at most five.
pub proof fn lemma_log_stays_short(log: Seq<Seq<char>>, line: Seq<char>)
    requires
        log.len() <= 5,
    ensures
        log_push(log, line).len() <= 5,
        log_push(log, line).len() >= 1,
        log_push(log, line).last() == line,
{
}

/// Adding lines to a log of at most five lines leaves at most five.
pub proof fn lemma_extended_log_stays_short(log: Seq<Seq<char>>, lines: Seq<Seq<char>>)
    requires
        log.len() <= 5,
    ensures
        log_extend(log, lines).len() <= 5,
    decreases lines.len(),
{
    if lines.len() > 0 {
        lemma_log_stays_short(log, lines.first());
        lemma_extended_log_stays_short(log_push(log, lines.first()), lines.drop_first());
    }
}

/// Scavenging keeps the inventory and the dumpster well formed.
pub proof fn lemma_haul_keeps_well_formed(dumpster: DumpsterView, inventory: InventoryView)
    requires
        dumpster.well_formed(),
        inventory.well_formed(),
    ensures
        Haul::of(dumpster, inventory).dumpster.well_formed(),
        Haul::of(dumpster, inventory).inventory.well_formed(),
{
}

/// The scavenge check keeps a valid state valid.
pub proof fn lemma_scavenge_keeps_valid(game: GameView)
    requires
        game.valid(),
        game.scavenge_picks() ==> game.player.scavenged_items < u32::MAX,
    ensures
        game.after_scavenge().valid(),
{
    if let Some(i) = game.dumpster_here() {
        lemma_first_stocked_is_first(game.dumpsters, game.player.position, 0);
        let haul = Haul::of(game.dumpsters[i], game.player.inventory);
        lemma_haul_keeps_well_formed(game.dumpsters[i], game.player.inventory);
        let looted = GameView {
            player: PlayerView { inventory: haul.inventory, ..game.player },
            dumpsters: game.dumpsters.update(i, haul.dumpster),
            ..game
        };
        if haul.picked {
            let count = (game.player.scavenged_items + 1) as u32;
            let fed = GameView {
                player: (PlayerView { scavenged_items: count, ..looted.player }).after_heal(20),
                ..looted
            }.with_message(scavenged_text(count as int)).with_message(food_found_text());
            lemma_extended_log_stays_short(fed.messages, haul.notes);
        } else {
            let told = looted.with_message(inventory_full_text());
            lemma_extended_log_stays_short(told.messages, haul.notes);
        }
    }
}

/// The first stocked dumpster found on a tile is an index of the list, the
/// dumpster there is stocked on that tile, and none between `start` and it
/// is; where none is found, none from `start` on is.
pub proof fn lemma_first_stocked_is_first(
    dumpsters: Seq<DumpsterView>,
    position: Position,
    start: int,
)
    requires
        0 <= start,
    ensures
        match first_stocked_from(dumpsters, position, start) {
            Some(i) => {
                &&& start <= i < dumpsters.len()
                &&& dumpsters[i].stocked_at(position)
                &&& forall|j: int|
                    start <= j < i ==> !(#[trigger] dumpsters[j]).stocked_at(position)
            },
            None => forall|j: int|
                start <= j < dumpsters.len() ==> !(#[trigger] dumpsters[j]).stocked_at(position),
        },
    decreases dumpsters.len() - start,
{
    if start < dumpsters.len() && !dumpsters[start].stocked_at(position) {
        lemma_first_stocked_is_first(dumpsters, position, start + 1);
    }
}

/// The first living enemy found on a tile is an index of the list, the enemy
/// there is alive on that tile, and none between `start` and it is; where
/// none is found, none from `start` on is.
pub proof fn lemma_first_alive_is_first(enemies: Seq<Enemy>, position: Position, start: int)
    requires
        0 <= start,
    ensures
        match first_alive_from(enemies, position, start) {
            Some(i) => {
                &&& start <= i < enemies.len()
                &&& enemies[i].is_alive
                &&& enemies[i].position == position
                &&& forall|j: int|
                    start <= j < i ==> !((#[trigger] enemies[j]).is_alive && enemies[j].position
                        == position)
            },
            None => forall|j: int|
                start <= j < enemies.len() ==> !((#[trigger] enemies[j]).is_alive
                    && enemies[j].position == position),
        },
    decreases enemies.len() - start,
{
    if start < enemies.len() && !(enemies[start].is_alive && enemies[start].position == position) {
        lemma_first_alive_is_first(enemies, position, start + 1);
    }
}

/// Using an item keeps a valid state valid.
pub proof fn lemma_use_item_keeps_valid(game: GameView)
    requires
        game.valid(),
        game.can_use_item(),
    ensures
        game.after_use_item().valid(),
{
    Inventory::lemma_consume_keeps_well_formed(game.player.inventory);
}

/// A key keeps a valid state valid, whatever the enemies do afterwards.
pub proof fn lemma_key_keeps_valid(game: GameView, key: Key)
    requires
        game.valid(),
        game.can_resolve(key),
    ensures
        game.after_key(key).valid(),
{
    Inventory::lemma_turn_keeps_well_formed(game.player.inventory);
    if key.is_use_item() && !game.terminal() {
        lemma_use_item_keeps_valid(game);
        Inventory::lemma_turn_keeps_well_formed(game.after_use_item().player.inventory);
    }
    if game.mode == GameMode::Exploring {
        if let Some(direction) = key.direction() {
            if game.move_accepted(direction) {
                let moved = game.with_player_moved(direction).after_turn();
                lemma_scavenge_keeps_valid(moved);
                let chained = moved.after_scavenge().after_chain_check();
                lemma_first_alive_is_first(chained.enemies, chained.player.position, 0);
            }
        }
    }
}

/// The movement of the enemies keeps a valid state valid: an enemy that
/// moves keeps its health and stays alive.
pub proof fn lemma_ticks_keep_valid(before: GameView, after: GameView)
    requires
        before.valid(),
        after == (GameView { enemies: after.enemies, ..before }),
        after.enemies == before.enemies || enemies_ticked(
            before.enemies,
            after.enemies,
            before.player.position,
            before.width,
            before.height,
        ),
    ensures
        after.valid(),
{
    assert forall|i: int| 0 <= i < after.enemies.len() implies (#[trigger] after.enemies[
        i
    ]).consistent() by {
        assert(before.enemies[i].consistent());
    }
}

/// A step that would leave the interior of the playfield is rejected: the
/// whole state, the player's position and the turn counter with it, stays as
/// it was.
pub proof fn lemma_rejected_step_changes_nothing(game: GameView, key: Key, after: GameView)
    requires
        game.mode == GameMode::Exploring || game.mode == GameMode::LevelComplete,
        key.direction() matches Some(direction) && !game.move_accepted(direction),
        game.resolves_to(key, after),
    ensures
        after == game,
{
}

/// The player never leaves the interior of the playfield, whatever the key
/// and the mode: an accepted step ends inside, a rejected one goes nowhere,
/// and a retreat is forced inside. The playfield keeps its size.
pub proof fn lemma_player_stays_inside(game: GameView, key: Key, after: GameView)
    requires
        game.player.position.in_interior(game.width, game.height),
        game.resolves_to(key, after),
    ensures
        after.width == game.width,
        after.height == game.height,
        1 <= after.player.position.x < after.width - 1,
        1 <= after.player.position.y < after.height - 1,
{
}

/// The player's health never leaves its range, whatever the key: a hit stops
/// at 0 and healing stops at the maximum.
pub proof fn lemma_health_stays_in_range(game: GameView, key: Key, after: GameView)
    requires
        game.player.health_in_range(),
        game.resolves_to(key, after),
    ensures
        after.player.max_health == game.player.max_health,
        0 <= after.player.health <= after.player.max_health,
{
}

/// `Victory` and `GameOver` are terminal: every key can be resolved there and
/// none changes anything.
pub proof fn lemma_terminal_is_final(game: GameView, key: Key, after: GameView)
    requires
        game.terminal(),
        game.resolves_to(key, after),
    ensures
        game.can_resolve(key),
        after == game,
{
}

/// What an attack on a living enemy comes to. The enemy takes the player's
/// total attack. If that kills it, the fight ends in `Exploring` and the
/// player is unhurt. If not, the enemy hits back: the fight goes on while the
/// player has health left, and the game is over when the last of it is gone.
pub proof fn lemma_attack_outcomes(game: GameView, idx: int)
    requires
        0 <= idx < game.enemies.len(),
        game.enemies[idx].is_alive,
    ensures
        ({
            let after = game.after_attack(idx);
            let enemy = game.enemies[idx].after_damage(game.player.total_attack());
            &&& after.enemies == game.enemies.update(idx, enemy)
            &&& !enemy.is_alive ==> after.mode == GameMode::Exploring && after.player
                == game.player
            &&& enemy.is_alive ==> after.player == game.player.after_damage(enemy.attack as int)
            &&& enemy.is_alive && after.player.health == 0 ==> after.mode == GameMode::GameOver
            &&& enemy.is_alive && after.player.health > 0 ==> after.mode == game.mode
        }),
{
}

/// What scavenging can make of one slot of a dumpster and the matching slot
/// of the inventory. Either the item moved, into a slot that was empty, and
/// left the dumpster's slot empty; or both slots are as they were. So after
/// the scavenge the two slots never hold the same item at once, and nothing
/// is lost or made.
pub open spec fn moved_or_kept<T>(
    in_dumpster: Option<T>,
    in_inventory: Option<T>,
    left_in_dumpster: Option<T>,
    now_in_inventory: Option<T>,
) -> bool {
    if in_dumpster is Some && in_inventory is None {
        left_in_dumpster is None && now_in_inventory == in_dumpster
    } else {
        left_in_dumpster == in_dumpster && now_in_inventory == in_inventory
    }
}

/// Items move, they are never copied. After a dumpster has been scavenged,
/// an item is either still in the dumpster, and then the inventory's slot
/// holds what it held before, or it is in the inventory's slot, which was
/// empty, and the dumpster's slot is empty. The bolt cutters leave the
/// dumpster for good. Something is taken exactly when the dumpster offers
/// something, and the dumpster is depleted exactly when no payload is left.
pub proof fn lemma_items_move(dumpster: DumpsterView, inventory: InventoryView)
    ensures
        ({
            let haul = Haul::of(dumpster, inventory);
            &&& moved_or_kept(
                dumpster.item_weapon,
                inventory.weapon,
                haul.dumpster.item_weapon,
                haul.inventory.weapon,
            )
            &&& moved_or_kept(
                dumpster.item_armor,
                inventory.armor,
                haul.dumpster.item_armor,
                haul.inventory.armor,
            )
            &&& moved_or_kept(
                dumpster.item_consumable,
                inventory.consumable,
                haul.dumpster.item_consumable,
                haul.inventory.consumable,
            )
            &&& !haul.dumpster.has_bolt_cutters
            &&& haul.inventory.bolt_cutters_found == (inventory.bolt_cutters_found
                || dumpster.has_bolt_cutters)
            &&& haul.picked == dumpster.offers(inventory)
            &&& haul.dumpster.has_items == (dumpster.has_items && haul.dumpster.has_payload())
        }),
{
}

/// The scavenge check moves items, it never copies, loses or overwrites one.
/// No dumpster joins or leaves the list or changes its place, and only the
/// first stocked dumpster on the player's tile is touched. For each kind of
/// item, either that dumpster's slot and the inventory's slot are both as
/// they were, or the inventory's slot was empty and now holds what the
/// dumpster's slot held, which is left empty.
pub proof fn lemma_scavenge_moves_items(game: GameView)
    ensures
        ({
            let after = game.after_scavenge();
            &&& after.dumpsters.len() == game.dumpsters.len()
            &&& forall|j: int|
                0 <= j < game.dumpsters.len() ==> (#[trigger] after.dumpsters[j]).position
                    == game.dumpsters[j].position
            &&& match game.dumpster_here() {
                Some(i) => {
                    &&& 0 <= i < game.dumpsters.len()
                    &&& forall|j: int|
                        0 <= j < game.dumpsters.len() && j != i ==> #[trigger] after.dumpsters[j]
                            == game.dumpsters[j]
                    &&& moved_or_kept(
                        game.dumpsters[i].item_weapon,
                        game.player.inventory.weapon,
                        after.dumpsters[i].item_weapon,
                        after.player.inventory.weapon,
                    )
                    &&& moved_or_kept(
                        game.dumpsters[i].item_armor,
                        game.player.inventory.armor,
                        after.dumpsters[i].item_armor,
                        after.player.inventory.armor,
                    )
                    &&& moved_or_kept(
                        game.dumpsters[i].item_consumable,
                        game.player.inventory.consumable,
                        after.dumpsters[i].item_consumable,
                        after.player.inventory.consumable,
                    )
                },
                None => after.dumpsters == game.dumpsters && after.player.inventory
                    == game.player.inventory,
            }
        }),
{
    lemma_first_stocked_is_first(game.dumpsters, game.player.position, 0);
    if let Some(i) = game.dumpster_here() {
        lemma_items_move(game.dumpsters[i], game.player.inventory);
    }
}

/// What is won is kept. The scavenge count never goes down, the bolt cutters
/// are never lost once found, and no enemy or dumpster ever leaves its list.
pub proof fn lemma_progress_is_kept(game: GameView, key: Key, after: GameView)
    requires
        game.can_resolve(key),
        game.resolves_to(key, after),
    ensures
        after.player.scavenged_items >= game.player.scavenged_items,
        game.player.inventory.bolt_cutters_found ==> after.player.inventory.bolt_cutters_found,
        after.enemies.len() == game.enemies.len(),
        after.dumpsters.len() == game.dumpsters.len(),
        after.chain_position == game.chain_position,
{
    if game.mode == GameMode::Exploring {
        if let Some(direction) = key.direction() {
            let moved = game.with_player_moved(direction).after_turn();
            lemma_first_stocked_is_first(moved.dumpsters, moved.player.position, 0);
            if let Some(i) = moved.dumpster_here() {
                lemma_items_move(moved.dumpsters[i], moved.player.inventory);
            }
        }
    }
}

/// A dead enemy is inert: no key moves it, hurts it or revives it.
pub proof fn lemma_dead_enemies_are_inert(game: GameView, key: Key, after: GameView, i: int)
    requires
        game.resolves_to(key, after),
        0 <= i < game.enemies.len(),
        !game.enemies[i].is_alive,
    ensures
        i < after.enemies.len(),
        after.enemies[i] == game.enemies[i],
{
}

/// A fight starts only with an enemy that is alive on the player's tile, and
/// with the first such enemy in the list.
pub proof fn lemma_encounter_is_with_first_alive(game: GameView)
    ensures
        match game.enemy_here() {
            Some(i) => {
                &&& 0 <= i < game.enemies.len()
                &&& game.enemies[i].is_alive
                &&& game.enemies[i].position == game.player.position
                &&& game.after_encounter_check().mode == GameMode::Combat(i as usize)
                &&& forall|j: int|
                    0 <= j < i ==> !((#[trigger] game.enemies[j]).is_alive
                        && game.enemies[j].position == game.player.position)
            },
            None => {
                &&& game.after_encounter_check() == game
                &&& forall|j: int|
                    0 <= j < game.enemies.len() ==> !((#[trigger] game.enemies[j]).is_alive
                        && game.enemies[j].position == game.player.position)
            },
        },
{
    lemma_first_alive_is_first(game.enemies, game.player.position, 0);
}

} // verus!
