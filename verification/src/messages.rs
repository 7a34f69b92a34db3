//! The texts of the message log.
//!
//! Each message is stated as a sequence of characters, beside a function that
//! writes it. Numbers are written in decimal.

use crate::text::{decimal_text, int_string};
use vstd::prelude::*;
use vstd::string::*;

verus! {

/// The first line of the welcome.
pub open spec fn welcome_title_text() -> Seq<char> {
    "Welcome to RUST PUNK!"@
}

/// Writes the message of [`welcome_title_text`].
pub fn welcome_title_message() -> (message: String)
    ensures
        message@ == welcome_title_text(),
{
    String::from_str("Welcome to RUST PUNK!")
}

/// The second line of the welcome.
pub open spec fn welcome_goal_text() -> Seq<char> {
    "Fight rats and rivals for dumpster scavenge rights!"@
}

/// Writes the message of [`welcome_goal_text`].
pub fn welcome_goal_message() -> (message: String)
    ensures
        message@ == welcome_goal_text(),
{
    String::from_str("Fight rats and rivals for dumpster scavenge rights!")
}

/// The third line of the welcome.
pub open spec fn welcome_keys_text() -> Seq<char> {
    "Use WASD to move, Space to attack, Q to quit"@
}

/// Writes the message of [`welcome_keys_text`].
pub fn welcome_keys_message() -> (message: String)
    ensures
        message@ == welcome_keys_text(),
{
    String::from_str("Use WASD to move, Space to attack, Q to quit")
}

/// The fourth line of the welcome.
pub open spec fn welcome_hint_text() -> Seq<char> {
    "Find bolt cutters to unlock the exit!"@
}

/// Writes the message of [`welcome_hint_text`].
pub fn welcome_hint_message() -> (message: String)
    ensures
        message@ == welcome_hint_text(),
{
    String::from_str("Find bolt cutters to unlock the exit!")
}

/// The player has died.
pub open spec fn player_defeated_text() -> Seq<char> {
    "You have been defeated!"@
}

/// Writes the message of [`player_defeated_text`].
pub fn player_defeated_message() -> (message: String)
    ensures
        message@ == player_defeated_text(),
{
    String::from_str("You have been defeated!")
}

/// The player leaves a fight.
pub open spec fn retreat_text() -> Seq<char> {
    "You retreat from combat!"@
}

/// Writes the message of [`retreat_text`].
pub fn retreat_message() -> (message: String)
    ensures
        message@ == retreat_text(),
{
    String::from_str("You retreat from combat!")
}

/// The bolt cutters were in the dumpster.
pub open spec fn bolt_cutters_found_text() -> Seq<char> {
    "Bolt Cutters! (You can now cut the chain!)"@
}

/// Writes the message of [`bolt_cutters_found_text`].
pub fn bolt_cutters_found_message() -> (message: String)
    ensures
        message@ == bolt_cutters_found_text(),
{
    String::from_str("Bolt Cutters! (You can now cut the chain!)")
}

/// Scavenging restored some health.
pub open spec fn food_found_text() -> Seq<char> {
    "Found some food! Health restored."@
}

/// Writes the message of [`food_found_text`].
pub fn food_found_message() -> (message: String)
    ensures
        message@ == food_found_text(),
{
    String::from_str("Found some food! Health restored.")
}

/// The scavenge count has reached its goal.
pub open spec fn all_scavenged_text() -> Seq<char> {
    "All dumpsters scavenged! Find the exit."@
}

/// Writes the message of [`all_scavenged_text`].
pub fn all_scavenged_message() -> (message: String)
    ensures
        message@ == all_scavenged_text(),
{
    String::from_str("All dumpsters scavenged! Find the exit.")
}

/// Nothing in the dumpster could be taken.
pub open spec fn inventory_full_text() -> Seq<char> {
    "Your inventory is full! Drop items to pick up more."@
}

/// Writes the message of [`inventory_full_text`].
pub fn inventory_full_message() -> (message: String)
    ensures
        message@ == inventory_full_text(),
{
    String::from_str("Your inventory is full! Drop items to pick up more.")
}

/// The player has cut the chain.
pub open spec fn victory_text() -> Seq<char> {
    "You cut the chain and escape! Victory!"@
}

/// Writes the message of [`victory_text`].
pub fn victory_message() -> (message: String)
    ensures
        message@ == victory_text(),
{
    String::from_str("You cut the chain and escape! Victory!")
}

/// The player stands at the chain without bolt cutters.
pub open spec fn exit_locked_text() -> Seq<char> {
    "The exit is locked with a chain. Need bolt cutters!"@
}

/// Writes the message of [`exit_locked_text`].
pub fn exit_locked_message() -> (message: String)
    ensures
        message@ == exit_locked_text(),
{
    String::from_str("The exit is locked with a chain. Need bolt cutters!")
}

/// The consumable slot is empty.
pub open spec fn no_consumable_text() -> Seq<char> {
    "No consumable to use!"@
}

/// Writes the message of [`no_consumable_text`].
pub fn no_consumable_message() -> (message: String)
    ensures
        message@ == no_consumable_text(),
{
    String::from_str("No consumable to use!")
}

/// The player hits an enemy.
pub open spec fn attack_text(enemy: Seq<char>, damage: int) -> Seq<char> {
    "You attack "@ + enemy + " for "@ + decimal_text(damage) + " damage!"@
}

/// Writes the message of [`attack_text`].
pub fn attack_message(enemy: &str, damage: i64) -> (message: String)
    ensures
        message@ == attack_text(enemy@, damage as int),
{
    let damage_digits = int_string(damage);
    let mut message = String::from_str("You attack ");
    message.append(enemy);
    message.append(" for ");
    message.append(damage_digits.as_str());
    message.append(" damage!");
    message
}

/// An enemy has died.
pub open spec fn enemy_defeated_text(enemy: Seq<char>) -> Seq<char> {
    enemy + " defeated!"@
}

/// Writes the message of [`enemy_defeated_text`].
pub fn enemy_defeated_message(enemy: &str) -> (message: String)
    ensures
        message@ == enemy_defeated_text(enemy@),
{
    let mut message = String::from_str(enemy);
    message.append(" defeated!");
    message
}

/// An enemy hits back. The damage named is what got through; the reduction
/// is the player's defense bonus.
pub open spec fn counterattack_text(enemy: Seq<char>, taken: int, defense: int) -> Seq<char> {
    enemy + " attacks you for "@ + decimal_text(taken) + " damage! (Reduced by "@ + decimal_text(
        defense,
    ) + ")"@
}

/// Writes the message of [`counterattack_text`].
pub fn counterattack_message(enemy: &str, taken: i64, defense: i64) -> (message: String)
    ensures
        message@ == counterattack_text(enemy@, taken as int, defense as int),
{
    let taken_digits = int_string(taken);
    let defense_digits = int_string(defense);
    let mut message = String::from_str(enemy);
    message.append(" attacks you for ");
    message.append(taken_digits.as_str());
    message.append(" damage! (Reduced by ");
    message.append(defense_digits.as_str());
    message.append(")");
    message
}

/// A weapon was found but the weapon slot is taken.
pub open spec fn weapon_rejected_text(name: Seq<char>) -> Seq<char> {
    "Found "@ + name + " but weapon slot full!"@
}

/// Writes the message of [`weapon_rejected_text`].
pub fn weapon_rejected_message(name: &str) -> (message: String)
    ensures
        message@ == weapon_rejected_text(name@),
{
    let mut message = String::from_str("Found ");
    message.append(name);
    message.append(" but weapon slot full!");
    message
}

/// A weapon was picked up.
pub open spec fn weapon_found_text(name: Seq<char>, bonus: int) -> Seq<char> {
    "Found "@ + name + "! (+"@ + decimal_text(bonus) + " damage)"@
}

/// Writes the message of [`weapon_found_text`].
pub fn weapon_found_message(name: &str, bonus: i64) -> (message: String)
    ensures
        message@ == weapon_found_text(name@, bonus as int),
{
    let bonus_digits = int_string(bonus);
    let mut message = String::from_str("Found ");
    message.append(name);
    message.append("! (+");
    message.append(bonus_digits.as_str());
    message.append(" damage)");
    message
}

/// Armor was found but the armor slot is taken.
pub open spec fn armor_rejected_text(name: Seq<char>) -> Seq<char> {
    "Found "@ + name + " but armor slot full!"@
}

/// Writes the message of [`armor_rejected_text`].
pub fn armor_rejected_message(name: &str) -> (message: String)
    ensures
        message@ == armor_rejected_text(name@),
{
    let mut message = String::from_str("Found ");
    message.append(name);
    message.append(" but armor slot full!");
    message
}

/// Armor was picked up.
pub open spec fn armor_found_text(name: Seq<char>, bonus: int) -> Seq<char> {
    "Found "@ + name + "! (+"@ + decimal_text(bonus) + " defense)"@
}

/// Writes the message of [`armor_found_text`].
pub fn armor_found_message(name: &str, bonus: i64) -> (message: String)
    ensures
        message@ == armor_found_text(name@, bonus as int),
{
    let bonus_digits = int_string(bonus);
    let mut message = String::from_str("Found ");
    message.append(name);
    message.append("! (+");
    message.append(bonus_digits.as_str());
    message.append(" defense)");
    message
}

/// A consumable was found but the consumable slot is taken.
pub open spec fn consumable_rejected_text(name: Seq<char>) -> Seq<char> {
    "Found "@ + name + " but consumable slot full!"@
}

/// Writes the message of [`consumable_rejected_text`].
pub fn consumable_rejected_message(name: &str) -> (message: String)
    ensures
        message@ == consumable_rejected_text(name@),
{
    let mut message = String::from_str("Found ");
    message.append(name);
    message.append(" but consumable slot full!");
    message
}

/// A consumable was picked up.
pub open spec fn consumable_found_text(name: Seq<char>) -> Seq<char> {
    "Found "@ + name + "! (Press E to use)"@
}

/// Writes the message of [`consumable_found_text`].
pub fn consumable_found_message(name: &str) -> (message: String)
    ensures
        message@ == consumable_found_text(name@),
{
    let mut message = String::from_str("Found ");
    message.append(name);
    message.append("! (Press E to use)");
    message
}

/// A dumpster was scavenged; `count` is the new scavenge count.
pub open spec fn scavenged_text(count: int) -> Seq<char> {
    "Scavenged dumpster! ("@ + decimal_text(count) + "/3)"@
}

/// Writes the message of [`scavenged_text`].
pub fn scavenged_message(count: i64) -> (message: String)
    ensures
        message@ == scavenged_text(count as int),
{
    let count_digits = int_string(count);
    let mut message = String::from_str("Scavenged dumpster! (");
    message.append(count_digits.as_str());
    message.append("/3)");
    message
}

/// The player has walked into an enemy.
pub open spec fn encounter_text(enemy: Seq<char>) -> Seq<char> {
    "Encountered "@ + enemy + "! Space to attack, R to retreat."@
}

/// Writes the message of [`encounter_text`].
pub fn encounter_message(enemy: &str) -> (message: String)
    ensures
        message@ == encounter_text(enemy@),
{
    let mut message = String::from_str("Encountered ");
    message.append(enemy);
    message.append("! Space to attack, R to retreat.");
    message
}

/// A healing consumable was used.
pub open spec fn healed_text(name: Seq<char>, amount: int) -> Seq<char> {
    "Used "@ + name + "! Healed "@ + decimal_text(amount) + " HP"@
}

/// Writes the message of [`healed_text`].
pub fn healed_message(name: &str, amount: i64) -> (message: String)
    ensures
        message@ == healed_text(name@, amount as int),
{
    let amount_digits = int_string(amount);
    let mut message = String::from_str("Used ");
    message.append(name);
    message.append("! Healed ");
    message.append(amount_digits.as_str());
    message.append(" HP");
    message
}

/// A damage boost was used.
pub open spec fn damage_boosted_text(name: Seq<char>, amount: int, turns: int) -> Seq<char> {
    "Used "@ + name + "! +"@ + decimal_text(amount) + " damage for "@ + decimal_text(turns)
        + " turns"@
}

/// Writes the message of [`damage_boosted_text`].
pub fn damage_boosted_message(name: &str, amount: i64, turns: i64) -> (message: String)
    ensures
        message@ == damage_boosted_text(name@, amount as int, turns as int),
{
    let amount_digits = int_string(amount);
    let turns_digits = int_string(turns);
    let mut message = String::from_str("Used ");
    message.append(name);
    message.append("! +");
    message.append(amount_digits.as_str());
    message.append(" damage for ");
    message.append(turns_digits.as_str());
    message.append(" turns");
    message
}

/// A defense boost was used.
pub open spec fn defense_boosted_text(name: Seq<char>, amount: int, turns: int) -> Seq<char> {
    "Used "@ + name + "! +"@ + decimal_text(amount) + " defense for "@ + decimal_text(turns)
        + " turns"@
}

/// Writes the message of [`defense_boosted_text`].
pub fn defense_boosted_message(name: &str, amount: i64, turns: i64) -> (message: String)
    ensures
        message@ == defense_boosted_text(name@, amount as int, turns as int),
{
    let amount_digits = int_string(amount);
    let turns_digits = int_string(turns);
    let mut message = String::from_str("Used ");
    message.append(name);
    message.append("! +");
    message.append(amount_digits.as_str());
    message.append(" defense for ");
    message.append(turns_digits.as_str());
    message.append(" turns");
    message
}

} // verus!
