//! The entities of the game world: positions, the player, enemies and
//! dumpsters.

use crate::chance::random_ratio;
use crate::input::Direction;
use crate::items::{
    view_opt, Armor, ArmorView, Consumable, ConsumableView, Inventory, InventoryView, Weapon,
    WeaponView,
};
use vstd::prelude::*;
use vstd::string::*;

verus! {

/// The sign of `d`: 1, 0 or -1.
pub open spec fn sign(d: int) -> int {
    if d > 0 {
        1
    } else if d < 0 {
        -1
    } else {
        0
    }
}

/// `v` forced into `low..=high`.
pub open spec fn clamp(v: int, low: int, high: int) -> int {
    if v < low {
        low
    } else if v > high {
        high
    } else {
        v
    }
}

/// The larger of two integers.
pub open spec fn max_of(a: int, b: int) -> int {
    if a >= b {
        a
    } else {
        b
    }
}

/// The smaller of two integers.
pub open spec fn min_of(a: int, b: int) -> int {
    if a <= b {
        a
    } else {
        b
    }
}

/// A tile of the grid. Columns grow to the right and rows grow downwards.
#[derive(Debug, Clone, Copy, PartialEq, Eq, Structural)]
pub struct Position {
    pub x: i32,
    pub y: i32,
}

impl Position {
    /// The square of the Euclidean distance between two tiles.
    pub open spec fn distance_squared(self, other: Position) -> int {
        (self.x - other.x) * (self.x - other.x) + (self.y - other.y) * (self.y - other.y)
    }

    /// Whether the Euclidean distance to `other` lies strictly between 1 and
    /// 10: the range in which an enemy gives chase. An adjacent tile, at
    /// distance 1, is too near; a diagonal neighbour is not.
    pub open spec fn in_chase_range(self, other: Position) -> bool {
        1 < self.distance_squared(other) < 100
    }

    /// Whether the tile `(x, y)` lies in the interior of a playfield of the
    /// given size, that is, inside its one-tile border.
    pub open spec fn interior(x: int, y: int, width: i32, height: i32) -> bool {
        1 <= x < width - 1 && 1 <= y < height - 1
    }

    /// Whether this tile lies in the interior of a playfield of the given
    /// size.
    pub open spec fn in_interior(self, width: i32, height: i32) -> bool {
        Self::interior(self.x as int, self.y as int, width, height)
    }

    /// The tile one step from this one in `direction`. Callers use it only
    /// where the step stays on the grid.
    pub open spec fn neighbour(self, direction: Direction) -> Position {
        Position { x: (self.x + direction.dx()) as i32, y: (self.y + direction.dy()) as i32 }
    }

    /// The tile one step from this one towards `target` on each axis, forced
    /// into the interior of the playfield. The step is diagonal where both
    /// coordinates differ.
    pub open spec fn stepped_toward(self, target: Position, width: i32, height: i32) -> Position {
        Position {
            x: clamp(self.x + sign(target.x - self.x), 1, width - 2) as i32,
            y: clamp(self.y + sign(target.y - self.y), 1, height - 2) as i32,
        }
    }

    /// The tile one step from this one away from `threat` on each axis,
    /// forced into the interior of the playfield.
    pub open spec fn stepped_away(self, threat: Position, width: i32, height: i32) -> Position {
        Position {
            x: clamp(self.x + sign(self.x - threat.x), 1, width - 2) as i32,
            y: clamp(self.y + sign(self.y - threat.y), 1, height - 2) as i32,
        }
    }

    pub fn new(x: i32, y: i32) -> (position: Position)
        ensures
            position == (Position { x, y }),
    {
        Position { x, y }
    }

    /// Whether this tile lies in the interior of a playfield of the given
    /// size.
    pub fn is_in_interior(&self, width: i32, height: i32) -> (inside: bool)
        ensures
            inside == self.in_interior(width, height),
    {
        self.x >= 1 && (self.x as i64) < width as i64 - 1 && self.y >= 1 && (self.y as i64)
            < height as i64 - 1
    }

    /// Whether `other` is in chase range of this tile.
    pub fn is_in_chase_range(&self, other: &Position) -> (near: bool)
        ensures
            near == self.in_chase_range(*other),
    {
        let dx: i64 = self.x as i64 - other.x as i64;
        let dy: i64 = self.y as i64 - other.y as i64;
        if -10 < dx && dx < 10 && -10 < dy && dy < 10 {
            assert(0 <= dx * dx <= 81 && 0 <= dy * dy <= 81) by (nonlinear_arith)
                requires
                    -10 < dx < 10,
                    -10 < dy < 10,
            ;
            let d2: i64 = dx * dx + dy * dy;
            1 < d2 && d2 < 100
        } else {
            assert(dx * dx + dy * dy >= 100) by (nonlinear_arith)
                requires
                    !(-10 < dx < 10 && -10 < dy < 10),
            ;
            false
        }
    }

    /// One step towards `target` on each axis, forced into the interior.
    pub fn step_toward(&self, target: &Position, width: i32, height: i32) -> (next: Position)
        requires
            width >= 3,
            height >= 3,
        ensures
            next == self.stepped_toward(*target, width, height),
            next.in_interior(width, height),
    {
        Position {
            x: clamp_coordinate(self.x as i64 + sign_of(target.x as i64 - self.x as i64), width),
            y: clamp_coordinate(self.y as i64 + sign_of(target.y as i64 - self.y as i64), height),
        }
    }

    /// One step away from `threat` on each axis, forced into the interior.
    pub fn step_away(&self, threat: &Position, width: i32, height: i32) -> (next: Position)
        requires
            width >= 3,
            height >= 3,
        ensures
            next == self.stepped_away(*threat, width, height),
            next.in_interior(width, height),
    {
        Position {
            x: clamp_coordinate(self.x as i64 + sign_of(self.x as i64 - threat.x as i64), width),
            y: clamp_coordinate(self.y as i64 + sign_of(self.y as i64 - threat.y as i64), height),
        }
    }
}

/// The sign of a difference.
fn sign_of(d: i64) -> (s: i64)
    ensures
        s == sign(d as int),
{
    if d > 0 {
        1
    } else if d < 0 {
        -1
    } else {
        0
    }
}

/// Forces a coordinate into `1..=extent - 2`, the interior along one axis.
fn clamp_coordinate(v: i64, extent: i32) -> (c: i32)
    requires
        extent >= 3,
    ensures
        c == clamp(v as int, 1, extent - 2),
        1 <= c < extent - 1,
{
    if v < 1 {
        1
    } else if v > extent as i64 - 2 {
        extent - 2
    } else {
        v as i32
    }
}

/// The player.
#[derive(Debug, Clone)]
pub struct Player {
    pub position: Position,
    pub health: i32,
    pub max_health: i32,
    pub attack: i32,
    pub scavenged_items: u32,
    pub inventory: Inventory,
}

/// The value of a player.
pub struct PlayerView {
    pub position: Position,
    pub health: i32,
    pub max_health: i32,
    pub attack: i32,
    pub scavenged_items: u32,
    pub inventory: InventoryView,
}

impl View for Player {
    type V = PlayerView;

    open spec fn view(&self) -> PlayerView {
        PlayerView {
            position: self.position,
            health: self.health,
            max_health: self.max_health,
            attack: self.attack,
            scavenged_items: self.scavenged_items,
            inventory: self.inventory@,
        }
    }
}

impl PlayerView {
    /// A new player on the given tile: full health of 100, attack 10,
    /// nothing scavenged, nothing carried.
    pub open spec fn spawned(position: Position) -> PlayerView {
        PlayerView {
            position,
            health: 100,
            max_health: 100,
            attack: 10,
            scavenged_items: 0,
            inventory: InventoryView::empty(),
        }
    }

    /// Health is never negative and never above the maximum.
    pub open spec fn health_in_range(self) -> bool {
        0 <= self.health <= self.max_health
    }

    /// Base attack plus the weapon's bonus plus the temporary damage boost.
    pub open spec fn total_attack(self) -> int {
        self.attack + self.inventory.total_damage_bonus()
    }

    /// What a hit of `damage` takes off the player's health: the damage less
    /// the defense bonus, but never less than 1. No defense nullifies a hit.
    pub open spec fn damage_taken(self, damage: int) -> int {
        max_of(damage - self.inventory.total_defense_bonus(), 1)
    }

    /// The player after a hit of `damage`. Health stops at 0.
    pub open spec fn after_damage(self, damage: int) -> PlayerView {
        PlayerView {
            health: max_of(self.health - self.damage_taken(damage), 0) as i32,
            ..self
        }
    }

    /// The player after healing by `amount`. Health stops at the maximum,
    /// and an amount below zero cannot take it under 0.
    pub open spec fn after_heal(self, amount: int) -> PlayerView {
        PlayerView {
            health: max_of(min_of(self.health + amount, self.max_health as int), 0) as i32,
            ..self
        }
    }
}

impl Player {
    /// A new player on tile `(x, y)`.
    pub fn new(x: i32, y: i32) -> (player: Player)
        ensures
            player@ == PlayerView::spawned(Position { x, y }),
    {
        Player {
            position: Position::new(x, y),
            health: 100,
            max_health: 100,
            attack: 10,
            scavenged_items: 0,
            inventory: Inventory::new(),
        }
    }

    pub fn is_alive(&self) -> (alive: bool)
        ensures
            alive == (self.health > 0),
    {
        self.health > 0
    }

    /// What a hit of `damage` takes off the player's health: the damage less
    /// the defense bonus, but never less than 1.
    pub fn damage_from(&self, damage: i32) -> (taken: i64)
        ensures
            taken == self@.damage_taken(damage as int),
    {
        let reduced: i64 = damage as i64 - self.inventory.defense_bonus_sum();
        if reduced < 1 {
            1
        } else {
            reduced
        }
    }

    /// Takes a hit. The defense bonus is taken off the damage, at least 1
    /// point always gets through, and health stops at 0.
    pub fn take_damage(&mut self, damage: i32)
        ensures
            final(self)@ == old(self)@.after_damage(damage as int),
    {
        let left: i64 = self.health as i64 - self.damage_from(damage);
        self.health = if left < 0 {
            0
        } else {
            left as i32
        };
    }

    /// Restores health, up to the maximum. Health never goes below 0,
    /// whatever the amount.
    pub fn heal(&mut self, amount: i32)
        ensures
            final(self)@ == old(self)@.after_heal(amount as int),
            final(self).health == max_of(
                min_of(old(self).health + amount, old(self).max_health as int),
                0,
            ),
    {
        let raised: i64 = self.health as i64 + amount as i64;
        let capped: i64 = if raised > self.max_health as i64 {
            self.max_health as i64
        } else {
            raised
        };
        self.health = if capped < 0 {
            0
        } else {
            capped as i32
        };
    }

    /// Base attack plus the weapon's bonus plus the temporary damage boost,
    /// in a type wide enough for any sum.
    pub fn attack_sum(&self) -> (attack: i64)
        ensures
            attack == self@.total_attack(),
    {
        self.attack as i64 + self.inventory.damage_bonus_sum()
    }

    /// Base attack plus the weapon's bonus plus the temporary damage boost.
    pub fn total_attack(&self) -> (attack: i32)
        requires
            i32::MIN <= self@.total_attack() <= i32::MAX,
        ensures
            attack == self@.total_attack(),
    {
        self.attack_sum() as i32
    }

    /// A hit always costs at least one point, whatever the defense.
    pub proof fn lemma_damage_at_least_one(player: PlayerView, damage: int)
        ensures
            player.damage_taken(damage) >= 1,
            player.health > 0 ==> player.after_damage(damage).health < player.health,
            player.health > 0 ==> player.health - player.after_damage(damage).health >= 1,
    {
    }

    /// Damage and healing keep health between 0 and the maximum, in either
    /// order and whatever the damage and the amount.
    pub proof fn lemma_health_stays_in_range(player: PlayerView, damage: int, amount: int)
        requires
            player.health_in_range(),
        ensures
            player.after_damage(damage).health_in_range(),
            player.after_heal(amount).health_in_range(),
            player.after_heal(amount).after_damage(damage).health_in_range(),
            player.after_damage(damage).after_heal(amount).health_in_range(),
    {
    }
}

/// The kinds of enemy.
#[derive(Debug, Clone, Copy, PartialEq, Eq, Structural)]
pub enum EnemyType {
    Rat,
    FerralCat,
    RivalPunk,
}

impl EnemyType {
    /// The display name of this kind.
    pub open spec fn label(self) -> Seq<char> {
        match self {
            EnemyType::Rat => "Rat"@,
            EnemyType::FerralCat => "Feral Cat"@,
            EnemyType::RivalPunk => "Rival Punk"@,
        }
    }

    /// The health that an enemy of this kind starts with.
    pub open spec fn base_health(self) -> i32 {
        match self {
            EnemyType::Rat => 20,
            EnemyType::FerralCat => 35,
            EnemyType::RivalPunk => 50,
        }
    }

    /// The attack of an enemy of this kind.
    pub open spec fn base_attack(self) -> i32 {
        match self {
            EnemyType::Rat => 3,
            EnemyType::FerralCat => 7,
            EnemyType::RivalPunk => 10,
        }
    }

    /// The character that draws an enemy of this kind.
    pub open spec fn glyph(self) -> char {
        match self {
            EnemyType::Rat => 'r',
            EnemyType::FerralCat => 'c',
            EnemyType::RivalPunk => 'P',
        }
    }

    /// The character that draws an enemy of this kind.
    pub fn get_char(&self) -> (glyph: char)
        ensures
            glyph == self.glyph(),
    {
        match self {
            EnemyType::Rat => 'r',
            EnemyType::FerralCat => 'c',
            EnemyType::RivalPunk => 'P',
        }
    }

    /// The display name of this kind.
    pub fn to_string(&self) -> (s: String)
        ensures
            s@ == self.label(),
    {
        match self {
            EnemyType::Rat => String::from_str("Rat"),
            EnemyType::FerralCat => String::from_str("Feral Cat"),
            EnemyType::RivalPunk => String::from_str("Rival Punk"),
        }
    }
}

/// An enemy. A dead enemy stays in the world, and does nothing.
#[derive(Debug, Clone, Copy, PartialEq, Eq, Structural)]
pub struct Enemy {
    pub position: Position,
    pub health: i32,
    pub max_health: i32,
    pub attack: i32,
    pub enemy_type: EnemyType,
    pub is_alive: bool,
}

impl Enemy {
    /// A new enemy of the given kind on the given tile, alive and at full
    /// health.
    pub open spec fn spawned(kind: EnemyType, position: Position) -> Enemy {
        Enemy {
            position,
            health: kind.base_health(),
            max_health: kind.base_health(),
            attack: kind.base_attack(),
            enemy_type: kind,
            is_alive: true,
        }
    }

    /// Health is never negative, and an enemy is alive exactly while it has
    /// health left.
    pub open spec fn consistent(self) -> bool {
        self.health >= 0 && (self.is_alive <==> self.health > 0)
    }

    /// The enemy after a hit of `damage`: health goes down by the damage and
    /// stops at 0, where the enemy dies.
    pub open spec fn after_damage(self, damage: int) -> Enemy {
        if self.health - damage <= 0 {
            Enemy { health: 0, is_alive: false, ..self }
        } else {
            Enemy { health: (self.health - damage) as i32, ..self }
        }
    }

    /// Whether this enemy gives chase to something on tile `target`: it is
    /// alive and the tile is in chase range.
    pub open spec fn can_chase(self, target: Position) -> bool {
        self.is_alive && self.position.in_chase_range(target)
    }

    /// The enemy after one tick of its pursuit of `target`. It moves one step
    /// if it can give chase and `roll` came up; otherwise it stays.
    pub open spec fn after_tick(self, target: Position, width: i32, height: i32, roll: bool)
        -> Enemy {
        if self.can_chase(target) && roll {
            Enemy { position: self.position.stepped_toward(target, width, height), ..self }
        } else {
            self
        }
    }

    pub fn new_rat(x: i32, y: i32) -> (enemy: Enemy)
        ensures
            enemy == Enemy::spawned(EnemyType::Rat, Position { x, y }),
    {
        Enemy {
            position: Position::new(x, y),
            health: 20,
            max_health: 20,
            attack: 3,
            enemy_type: EnemyType::Rat,
            is_alive: true,
        }
    }

    pub fn new_feral_cat(x: i32, y: i32) -> (enemy: Enemy)
        ensures
            enemy == Enemy::spawned(EnemyType::FerralCat, Position { x, y }),
    {
        Enemy {
            position: Position::new(x, y),
            health: 35,
            max_health: 35,
            attack: 7,
            enemy_type: EnemyType::FerralCat,
            is_alive: true,
        }
    }

    pub fn new_rival_punk(x: i32, y: i32) -> (enemy: Enemy)
        ensures
            enemy == Enemy::spawned(EnemyType::RivalPunk, Position { x, y }),
    {
        Enemy {
            position: Position::new(x, y),
            health: 50,
            max_health: 50,
            attack: 10,
            enemy_type: EnemyType::RivalPunk,
            is_alive: true,
        }
    }

    /// Takes a hit of any size that leaves the health within `i32`.
    pub fn take_hit(&mut self, damage: i64)
        requires
            old(self).health - damage <= i32::MAX,
        ensures
            *final(self) == old(self).after_damage(damage as int),
    {
        let left: i128 = self.health as i128 - damage as i128;
        if left <= 0 {
            self.health = 0;
            self.is_alive = false;
        } else {
            self.health = left as i32;
        }
    }

    /// Takes a hit. Health stops at 0, where the enemy dies.
    pub fn take_damage(&mut self, damage: i32)
        requires
            old(self).health - damage <= i32::MAX,
        ensures
            *final(self) == old(self).after_damage(damage as int),
    {
        self.take_hit(damage as i64)
    }

    /// The character that draws this enemy.
    pub fn get_char(&self) -> (glyph: char)
        ensures
            glyph == self.enemy_type.glyph(),
    {
        self.enemy_type.get_char()
    }

    /// Whether health and the alive flag agree.
    pub fn is_consistent(&self) -> (ok: bool)
        ensures
            ok == self.consistent(),
    {
        self.health >= 0 && (self.is_alive == (self.health > 0))
    }

    /// Whether this enemy gives chase to something on tile `target`.
    pub fn chases(&self, target: &Position) -> (yes: bool)
        ensures
            yes == self.can_chase(*target),
    {
        self.is_alive && self.position.is_in_chase_range(target)
    }

    /// One tick of pursuit. `roll` is the coin that decides whether an enemy
    /// that can give chase moves this tick.
    pub fn pursue(&mut self, target: &Position, width: i32, height: i32, roll: bool)
        requires
            width >= 3,
            height >= 3,
        ensures
            *final(self) == old(self).after_tick(*target, width, height, roll),
    {
        if roll && self.chases(target) {
            self.position = self.position.step_toward(target, width, height);
        }
    }

    /// A hit that takes the last health kills, and a dead enemy at 0 health
    /// stays as it is under any further hit. A hit of negative damage is no
    /// hit and is left out.
    pub proof fn lemma_death_is_final(enemy: Enemy, damage: int)
        requires
            damage >= 0,
        ensures
            enemy.health - damage <= 0 ==> enemy.after_damage(damage).health == 0
                && !enemy.after_damage(damage).is_alive,
            !enemy.is_alive ==> !enemy.after_damage(damage).is_alive,
            enemy.health == 0 && !enemy.is_alive ==> enemy.after_damage(damage) == enemy,
            enemy.consistent() ==> enemy.after_damage(damage).consistent(),
    {
    }

    /// A dead enemy never moves.
    pub proof fn lemma_dead_enemy_is_inert(
        enemy: Enemy,
        target: Position,
        width: i32,
        height: i32,
        roll: bool,
    )
        requires
            !enemy.is_alive,
        ensures
            enemy.after_tick(target, width, height, roll) == enemy,
    {
    }
}

/// A dumpster: up to one weapon, one piece of armor and one consumable, and
/// perhaps the bolt cutters.
#[derive(Debug, Clone)]
pub struct Dumpster {
    pub position: Position,
    pub has_items: bool,
    pub item_weapon: Option<Weapon>,
    pub item_armor: Option<Armor>,
    pub item_consumable: Option<Consumable>,
    pub has_bolt_cutters: bool,
}

/// The value of a dumpster.
pub struct DumpsterView {
    pub position: Position,
    pub has_items: bool,
    pub item_weapon: Option<WeaponView>,
    pub item_armor: Option<ArmorView>,
    pub item_consumable: Option<ConsumableView>,
    pub has_bolt_cutters: bool,
}

impl View for Dumpster {
    type V = DumpsterView;

    open spec fn view(&self) -> DumpsterView {
        DumpsterView {
            position: self.position,
            has_items: self.has_items,
            item_weapon: view_opt(self.item_weapon),
            item_armor: view_opt(self.item_armor),
            item_consumable: view_opt(self.item_consumable),
            has_bolt_cutters: self.has_bolt_cutters,
        }
    }
}

impl DumpsterView {
    /// Whether a player on tile `position` can scavenge this dumpster: it
    /// stands there and still has items.
    pub open spec fn stocked_at(self, position: Position) -> bool {
        self.has_items && self.position == position
    }

    /// Whether any payload is left in the three slots.
    pub open spec fn has_payload(self) -> bool {
        self.item_weapon is Some || self.item_armor is Some || self.item_consumable is Some
    }

    /// Whether an inventory would take anything from this dumpster: the
    /// bolt cutters, or an item for which its slot is empty.
    pub open spec fn offers(self, inventory: InventoryView) -> bool {
        ||| self.has_bolt_cutters
        ||| self.item_weapon is Some && inventory.weapon is None
        ||| self.item_armor is Some && inventory.armor is None
        ||| self.item_consumable is Some && inventory.consumable is None
    }

    /// Every item in the dumpster is one that generation can produce.
    pub open spec fn stocked_from_tables(self) -> bool {
        &&& self.item_weapon matches Some(item) ==> Weapon::can_generate(item)
        &&& self.item_armor matches Some(item) ==> Armor::can_generate(item)
        &&& self.item_consumable matches Some(item) ==> Consumable::can_generate(item)
    }

    /// The consumable in the dumpster, if any, has a well formed effect.
    pub open spec fn well_formed(self) -> bool {
        self.item_consumable matches Some(item) ==> item.effect.well_formed()
    }
}

impl Dumpster {
    /// A dumpster on tile `(x, y)` that holds the given items and no bolt
    /// cutters. It counts as having items even when all three slots are
    /// empty, until someone has looked.
    pub fn with_contents(
        x: i32,
        y: i32,
        weapon: Option<Weapon>,
        armor: Option<Armor>,
        consumable: Option<Consumable>,
    ) -> (dumpster: Dumpster)
        ensures
            dumpster@ == (DumpsterView {
                position: Position { x, y },
                has_items: true,
                item_weapon: view_opt(weapon),
                item_armor: view_opt(armor),
                item_consumable: view_opt(consumable),
                has_bolt_cutters: false,
            }),
    {
        Dumpster {
            position: Position::new(x, y),
            has_items: true,
            item_weapon: weapon,
            item_armor: armor,
            item_consumable: consumable,
            has_bolt_cutters: false,
        }
    }

    /// A dumpster on tile `(x, y)` with random contents: a weapon with
    /// probability 7 in 10, armor with 7 in 10, a consumable with 4 in 5,
    /// each generated from its table.
    pub fn new(x: i32, y: i32) -> (dumpster: Dumpster)
        ensures
            dumpster@.position == (Position { x, y }),
            dumpster@.has_items,
            !dumpster@.has_bolt_cutters,
            dumpster@.stocked_from_tables(),
    {
        let has_weapon = random_ratio(7, 10);
        let has_armor = random_ratio(7, 10);
        let has_consumable = random_ratio(4, 5);
        let weapon = if has_weapon {
            Some(Weapon::random_generate())
        } else {
            None
        };
        let armor = if has_armor {
            Some(Armor::random_generate())
        } else {
            None
        };
        let consumable = if has_consumable {
            Some(Consumable::random_generate())
        } else {
            None
        };
        Self::with_contents(x, y, weapon, armor, consumable)
    }

    /// A dumpster with random contents that also holds the bolt cutters.
    pub fn new_with_bolt_cutters(x: i32, y: i32) -> (dumpster: Dumpster)
        ensures
            dumpster@.position == (Position { x, y }),
            dumpster@.has_items,
            dumpster@.has_bolt_cutters,
            dumpster@.stocked_from_tables(),
    {
        let mut dumpster = Self::new(x, y);
        dumpster.has_bolt_cutters = true;
        dumpster
    }

    /// Whether the consumable in the dumpster, if any, is well formed.
    pub fn is_well_formed(&self) -> (ok: bool)
        ensures
            ok == self@.well_formed(),
    {
        match &self.item_consumable {
            Some(item) => item.effect.is_well_formed(),
            None => true,
        }
    }

    /// Whether an inventory would take anything from this dumpster.
    pub fn has_something_for(&self, inventory: &Inventory) -> (yes: bool)
        ensures
            yes == self@.offers(inventory@),
    {
        self.has_bolt_cutters || (self.item_weapon.is_some() && inventory.weapon.is_none()) || (
        self.item_armor.is_some() && inventory.armor.is_none()) || (self.item_consumable.is_some()
            && inventory.consumable.is_none())
    }

    /// A dumpster stocked from the tables is well formed.
    pub proof fn lemma_stocked_is_well_formed(dumpster: DumpsterView)
        requires
            dumpster.stocked_from_tables(),
        ensures
            dumpster.well_formed(),
    {
        if let Some(item) = dumpster.item_consumable {
            Consumable::lemma_generated_bounds(item);
        }
    }
}

/// The mode of the game. `Victory` and `GameOver` are terminal.
#[derive(Debug, Clone, Copy, PartialEq, Eq, Structural)]
pub enum GameMode {
    Exploring,
    /// In combat with the enemy at this index of the enemy list.
    Combat(usize),
    Victory,
    GameOver,
    /// Enough has been scavenged; the exit is still to be reached.
    LevelComplete,
}

/// The whole state of a game. Nothing else holds state that a turn reads or
/// writes.
pub struct GameState {
    pub player: Player,
    /// The enemies. None is ever removed: a dead enemy stays in its place,
    /// so an index into this list stays good.
    pub enemies: Vec<Enemy>,
    pub dumpsters: Vec<Dumpster>,
    pub width: i32,
    pub height: i32,
    pub mode: GameMode,
    /// The message log, oldest first.
    pub messages: Vec<String>,
    pub turn_count: u32,
    /// The tile of the chain that locks the exit.
    pub chain_position: Position,
}

/// The value of a game state: what the rules of the game are stated over.
pub struct GameView {
    pub player: PlayerView,
    pub enemies: Seq<Enemy>,
    pub dumpsters: Seq<DumpsterView>,
    pub width: i32,
    pub height: i32,
    pub mode: GameMode,
    pub messages: Seq<Seq<char>>,
    pub turn_count: u32,
    pub chain_position: Position,
}

/// The views of a sequence of dumpsters.
pub open spec fn dumpster_views(dumpsters: Seq<Dumpster>) -> Seq<DumpsterView> {
    Seq::new(dumpsters.len(), |i: int| dumpsters[i]@)
}

/// The texts of a sequence of strings.
pub open spec fn texts(lines: Seq<String>) -> Seq<Seq<char>> {
    Seq::new(lines.len(), |i: int| lines[i]@)
}

impl View for GameState {
    type V = GameView;

    open spec fn view(&self) -> GameView {
        GameView {
            player: self.player@,
            enemies: self.enemies@,
            dumpsters: dumpster_views(self.dumpsters@),
            width: self.width,
            height: self.height,
            mode: self.mode,
            messages: texts(self.messages@),
            turn_count: self.turn_count,
            chain_position: self.chain_position,
        }
    }
}

} // verus!
