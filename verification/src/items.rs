//! Items, the tables they are generated from, and the player's inventory.

use crate::chance::random_range;
use vstd::prelude::*;
use vstd::string::*;

verus! {

/// How rare an item is. Rarity scales the base value of weapons and armor.
#[derive(Debug, Clone, Copy, PartialEq, Eq, Structural)]
pub enum ItemRarity {
    Common,
    Uncommon,
    Rare,
}

impl ItemRarity {
    /// The factor by which this rarity scales a base value.
    pub open spec fn factor(self) -> int {
        match self {
            ItemRarity::Common => 1,
            ItemRarity::Uncommon => 2,
            ItemRarity::Rare => 3,
        }
    }

    /// The display name of this rarity.
    pub open spec fn label(self) -> Seq<char> {
        match self {
            ItemRarity::Common => "Common"@,
            ItemRarity::Uncommon => "Uncommon"@,
            ItemRarity::Rare => "Rare"@,
        }
    }

    /// The rarity that a roll in `0..100` selects: sixty in a hundred are
    /// common, thirty uncommon, ten rare.
    pub open spec fn of_roll(roll: int) -> ItemRarity {
        if roll < 60 {
            ItemRarity::Common
        } else if roll < 90 {
            ItemRarity::Uncommon
        } else {
            ItemRarity::Rare
        }
    }

    /// Maps a roll to its rarity tier.
    pub fn from_roll(roll: i32) -> (rarity: ItemRarity)
        ensures
            rarity == Self::of_roll(roll as int),
    {
        if roll < 60 {
            ItemRarity::Common
        } else if roll < 90 {
            ItemRarity::Uncommon
        } else {
            ItemRarity::Rare
        }
    }

    /// The factor by which this rarity scales a base value.
    pub fn multiplier(&self) -> (m: i32)
        ensures
            m == self.factor(),
    {
        match self {
            ItemRarity::Common => 1,
            ItemRarity::Uncommon => 2,
            ItemRarity::Rare => 3,
        }
    }

    /// The display name of this rarity.
    pub fn to_string(&self) -> (s: String)
        ensures
            s@ == self.label(),
    {
        match self {
            ItemRarity::Common => String::from_str("Common"),
            ItemRarity::Uncommon => String::from_str("Uncommon"),
            ItemRarity::Rare => String::from_str("Rare"),
        }
    }
}

/// A weapon: adds its damage bonus to the attack of whoever holds it.
#[derive(Debug, Clone)]
pub struct Weapon {
    pub name: String,
    pub damage_bonus: i32,
    pub rarity: ItemRarity,
    pub description: String,
}

/// The value of a weapon, with its texts as character sequences.
pub struct WeaponView {
    pub name: Seq<char>,
    pub damage_bonus: i32,
    pub rarity: ItemRarity,
    pub description: Seq<char>,
}

impl View for Weapon {
    type V = WeaponView;

    open spec fn view(&self) -> WeaponView {
        WeaponView {
            name: self.name@,
            damage_bonus: self.damage_bonus,
            rarity: self.rarity,
            description: self.description@,
        }
    }
}

impl Weapon {
    /// The name in row `idx` of the weapon table.
    pub open spec fn table_name(idx: int) -> Seq<char> {
        if idx == 0 {
            "Broken Bottle"@
        } else if idx == 1 {
            "Rusty Chain"@
        } else if idx == 2 {
            "Spiked Bat"@
        } else if idx == 3 {
            "Bike Lock"@
        } else if idx == 4 {
            "Crowbar"@
        } else if idx == 5 {
            "Switchblade"@
        } else if idx == 6 {
            "Brass Knuckles"@
        } else {
            "Metal Pipe"@
        }
    }

    /// The base value in row `idx` of the weapon table.
    pub open spec fn table_base(idx: int) -> int {
        if idx == 0 {
            2
        } else if idx == 1 {
            3
        } else if idx == 2 {
            4
        } else if idx == 3 {
            3
        } else if idx == 4 {
            5
        } else if idx == 5 {
            3
        } else if idx == 6 {
            2
        } else {
            4
        }
    }

    /// The description in row `idx` of the weapon table.
    pub open spec fn table_description(idx: int) -> Seq<char> {
        if idx == 0 {
            "Sharp glass from the dumpster"@
        } else if idx == 1 {
            "Heavy and intimidating"@
        } else if idx == 2 {
            "With nails driven through it"@
        } else if idx == 3 {
            "U-lock makes a good weapon"@
        } else if idx == 4 {
            "Classic street tool"@
        } else if idx == 5 {
            "Flicks open with a satisfying click"@
        } else if idx == 6 {
            "Adds weight to your punch"@
        } else {
            "Found behind the dumpster"@
        }
    }

    /// The weapon that a rarity roll and a table row give: the row's name and
    /// description, and its base value scaled by the rarity that the roll
    /// selects.
    pub open spec fn generated(roll: int, idx: int) -> WeaponView {
        WeaponView {
            name: Self::table_name(idx),
            damage_bonus: (Self::table_base(idx) * ItemRarity::of_roll(roll).factor()) as i32,
            rarity: ItemRarity::of_roll(roll),
            description: Self::table_description(idx),
        }
    }

    /// Whether `item` is one of the values that generation can produce.
    pub open spec fn can_generate(item: WeaponView) -> bool {
        exists|roll: int, idx: int|
            0 <= roll < 100 && 0 <= idx < 8 && item == #[trigger] Self::generated(roll, idx)
    }

    /// Row `idx` of the weapon table.
    fn table_row(idx: usize) -> (row: (&'static str, i32, &'static str))
        requires
            idx < 8,
        ensures
            row.0@ == Self::table_name(idx as int),
            row.1 == Self::table_base(idx as int),
            row.2@ == Self::table_description(idx as int),
            1 <= row.1 <= 5,
    {
        if idx == 0 {
            ("Broken Bottle", 2, "Sharp glass from the dumpster")
        } else if idx == 1 {
            ("Rusty Chain", 3, "Heavy and intimidating")
        } else if idx == 2 {
            ("Spiked Bat", 4, "With nails driven through it")
        } else if idx == 3 {
            ("Bike Lock", 3, "U-lock makes a good weapon")
        } else if idx == 4 {
            ("Crowbar", 5, "Classic street tool")
        } else if idx == 5 {
            ("Switchblade", 3, "Flicks open with a satisfying click")
        } else if idx == 6 {
            ("Brass Knuckles", 2, "Adds weight to your punch")
        } else {
            ("Metal Pipe", 4, "Found behind the dumpster")
        }
    }

    /// Builds the weapon that a rarity roll and a table row select.
    pub fn from_rolls(roll: i32, idx: usize) -> (item: Weapon)
        requires
            idx < 8,
        ensures
            item@ == Self::generated(roll as int, idx as int),
    {
        let rarity = ItemRarity::from_roll(roll);
        let factor = rarity.multiplier();
        let (name, base, description) = Self::table_row(idx);
        assert(1 <= base * factor <= 15) by (nonlinear_arith)
            requires
                1 <= base <= 5,
                1 <= factor <= 3,
        ;
        Weapon {
            name: String::from_str(name),
            damage_bonus: base * factor,
            rarity,
            description: String::from_str(description),
        }
    }

    /// Generates a random weapon: a rarity roll in `0..100`, then a row of the
    /// table chosen uniformly.
    pub fn random_generate() -> (item: Weapon)
        ensures
            Self::can_generate(item@),
    {
        let roll = random_range(0, 100);
        let idx = random_range(0, 8);
        Self::from_rolls(roll, idx as usize)
    }

    /// Every generated weapon has a name, a description and a bonus between 1
    /// and 15.
    pub proof fn lemma_generated_bounds(item: WeaponView)
        requires
            Self::can_generate(item),
        ensures
            1 <= item.damage_bonus <= 15,
            item.name.len() > 0,
            item.description.len() > 0,
    {
        let (roll, idx) = choose|roll: int, idx: int|
            0 <= roll < 100 && 0 <= idx < 8 && item == #[trigger] Self::generated(roll, idx);
        let base = Self::table_base(idx);
        let factor = ItemRarity::of_roll(roll).factor();
        assert(1 <= base * factor <= 15) by (nonlinear_arith)
            requires
                1 <= base <= 5,
                1 <= factor <= 3,
        ;
        reveal_strlit("Broken Bottle");
        reveal_strlit("Sharp glass from the dumpster");
        reveal_strlit("Rusty Chain");
        reveal_strlit("Heavy and intimidating");
        reveal_strlit("Spiked Bat");
        reveal_strlit("With nails driven through it");
        reveal_strlit("Bike Lock");
        reveal_strlit("U-lock makes a good weapon");
        reveal_strlit("Crowbar");
        reveal_strlit("Classic street tool");
        reveal_strlit("Switchblade");
        reveal_strlit("Flicks open with a satisfying click");
        reveal_strlit("Brass Knuckles");
        reveal_strlit("Adds weight to your punch");
        reveal_strlit("Metal Pipe");
        reveal_strlit("Found behind the dumpster");
    }
}

/// A piece of armor: takes its defense bonus off every hit on whoever wears it.
#[derive(Debug, Clone)]
pub struct Armor {
    pub name: String,
    pub defense_bonus: i32,
    pub rarity: ItemRarity,
    pub description: String,
}

/// The value of a piece of armor, with its texts as character sequences.
pub struct ArmorView {
    pub name: Seq<char>,
    pub defense_bonus: i32,
    pub rarity: ItemRarity,
    pub description: Seq<char>,
}

impl View for Armor {
    type V = ArmorView;

    open spec fn view(&self) -> ArmorView {
        ArmorView {
            name: self.name@,
            defense_bonus: self.defense_bonus,
            rarity: self.rarity,
            description: self.description@,
        }
    }
}

impl Armor {
    /// The name in row `idx` of the armor table.
    pub open spec fn table_name(idx: int) -> Seq<char> {
        if idx == 0 {
            "Leather Jacket"@
        } else if idx == 1 {
            "Studded Vest"@
        } else if idx == 2 {
            "Chain Mail Shirt"@
        } else if idx == 3 {
            "Motorcycle Helmet"@
        } else if idx == 4 {
            "Kevlar Vest"@
        } else if idx == 5 {
            "Padded Hoodie"@
        } else if idx == 6 {
            "Steel-Toe Boots"@
        } else {
            "Riot Shield"@
        }
    }

    /// The base value in row `idx` of the armor table.
    pub open spec fn table_base(idx: int) -> int {
        if idx == 0 {
            2
        } else if idx == 1 {
            3
        } else if idx == 2 {
            4
        } else if idx == 3 {
            2
        } else if idx == 4 {
            5
        } else if idx == 5 {
            2
        } else if idx == 6 {
            1
        } else {
            4
        }
    }

    /// The description in row `idx` of the armor table.
    pub open spec fn table_description(idx: int) -> Seq<char> {
        if idx == 0 {
            "Worn but protective"@
        } else if idx == 1 {
            "Metal studs add defense"@
        } else if idx == 2 {
            "Surprisingly effective"@
        } else if idx == 3 {
            "Protects your head"@
        } else if idx == 4 {
            "Military surplus find"@
        } else if idx == 5 {
            "Extra layers help"@
        } else if idx == 6 {
            "Good for kicking and protection"@
        } else {
            "Liberated from authorities"@
        }
    }

    /// The armor that a rarity roll and a table row give: the row's name and
    /// description, and its base value scaled by the rarity that the roll
    /// selects.
    pub open spec fn generated(roll: int, idx: int) -> ArmorView {
        ArmorView {
            name: Self::table_name(idx),
            defense_bonus: (Self::table_base(idx) * ItemRarity::of_roll(roll).factor()) as i32,
            rarity: ItemRarity::of_roll(roll),
            description: Self::table_description(idx),
        }
    }

    /// Whether `item` is one of the values that generation can produce.
    pub open spec fn can_generate(item: ArmorView) -> bool {
        exists|roll: int, idx: int|
            0 <= roll < 100 && 0 <= idx < 8 && item == #[trigger] Self::generated(roll, idx)
    }

    /// Row `idx` of the armor table.
    fn table_row(idx: usize) -> (row: (&'static str, i32, &'static str))
        requires
            idx < 8,
        ensures
            row.0@ == Self::table_name(idx as int),
            row.1 == Self::table_base(idx as int),
            row.2@ == Self::table_description(idx as int),
            1 <= row.1 <= 5,
    {
        if idx == 0 {
            ("Leather Jacket", 2, "Worn but protective")
        } else if idx == 1 {
            ("Studded Vest", 3, "Metal studs add defense")
        } else if idx == 2 {
            ("Chain Mail Shirt", 4, "Surprisingly effective")
        } else if idx == 3 {
            ("Motorcycle Helmet", 2, "Protects your head")
        } else if idx == 4 {
            ("Kevlar Vest", 5, "Military surplus find")
        } else if idx == 5 {
            ("Padded Hoodie", 2, "Extra layers help")
        } else if idx == 6 {
            ("Steel-Toe Boots", 1, "Good for kicking and protection")
        } else {
            ("Riot Shield", 4, "Liberated from authorities")
        }
    }

    /// Builds the armor that a rarity roll and a table row select.
    pub fn from_rolls(roll: i32, idx: usize) -> (item: Armor)
        requires
            idx < 8,
        ensures
            item@ == Self::generated(roll as int, idx as int),
    {
        let rarity = ItemRarity::from_roll(roll);
        let factor = rarity.multiplier();
        let (name, base, description) = Self::table_row(idx);
        assert(1 <= base * factor <= 15) by (nonlinear_arith)
            requires
                1 <= base <= 5,
                1 <= factor <= 3,
        ;
        Armor {
            name: String::from_str(name),
            defense_bonus: base * factor,
            rarity,
            description: String::from_str(description),
        }
    }

    /// Generates a random armor: a rarity roll in `0..100`, then a row of the
    /// table chosen uniformly.
    pub fn random_generate() -> (item: Armor)
        ensures
            Self::can_generate(item@),
    {
        let roll = random_range(0, 100);
        let idx = random_range(0, 8);
        Self::from_rolls(roll, idx as usize)
    }

    /// Every generated armor has a name, a description and a bonus between 1
    /// and 15.
    pub proof fn lemma_generated_bounds(item: ArmorView)
        requires
            Self::can_generate(item),
        ensures
            1 <= item.defense_bonus <= 15,
            item.name.len() > 0,
            item.description.len() > 0,
    {
        let (roll, idx) = choose|roll: int, idx: int|
            0 <= roll < 100 && 0 <= idx < 8 && item == #[trigger] Self::generated(roll, idx);
        let base = Self::table_base(idx);
        let factor = ItemRarity::of_roll(roll).factor();
        assert(1 <= base * factor <= 15) by (nonlinear_arith)
            requires
                1 <= base <= 5,
                1 <= factor <= 3,
        ;
        reveal_strlit("Leather Jacket");
        reveal_strlit("Worn but protective");
        reveal_strlit("Studded Vest");
        reveal_strlit("Metal studs add defense");
        reveal_strlit("Chain Mail Shirt");
        reveal_strlit("Surprisingly effective");
        reveal_strlit("Motorcycle Helmet");
        reveal_strlit("Protects your head");
        reveal_strlit("Kevlar Vest");
        reveal_strlit("Military surplus find");
        reveal_strlit("Padded Hoodie");
        reveal_strlit("Extra layers help");
        reveal_strlit("Steel-Toe Boots");
        reveal_strlit("Good for kicking and protection");
        reveal_strlit("Riot Shield");
        reveal_strlit("Liberated from authorities");
    }
}

/// What a consumable does when it is used.
#[derive(Debug, Clone, Copy, PartialEq, Eq, Structural)]
pub enum ConsumableEffect {
    /// Restores this many health points.
    Heal(i32),
    /// Adds an amount to the temporary damage boost, for a number of turns.
    DamageBoost(i32, u32),
    /// Adds an amount to the temporary defense boost, for a number of turns.
    DefenseBoost(i32, u32),
}

impl ConsumableEffect {
    /// A boost lasts at least one turn. A boost of no duration would leave
    /// its amount behind with no timer to clear it.
    pub open spec fn well_formed(self) -> bool {
        match self {
            ConsumableEffect::Heal(_) => true,
            ConsumableEffect::DamageBoost(_, duration) => duration > 0,
            ConsumableEffect::DefenseBoost(_, duration) => duration > 0,
        }
    }
}

/// A single-use item.
#[derive(Debug, Clone)]
pub struct Consumable {
    pub name: String,
    pub effect: ConsumableEffect,
    pub description: String,
}

/// The value of a consumable, with its texts as character sequences.
pub struct ConsumableView {
    pub name: Seq<char>,
    pub effect: ConsumableEffect,
    pub description: Seq<char>,
}

impl View for Consumable {
    type V = ConsumableView;

    open spec fn view(&self) -> ConsumableView {
        ConsumableView { name: self.name@, effect: self.effect, description: self.description@ }
    }
}

impl Consumable {
    /// The name in row `idx` of the consumable table.
    pub open spec fn table_name(idx: int) -> Seq<char> {
        if idx == 0 {
            "Burger Leftovers"@
        } else if idx == 1 {
            "Energy Drink"@
        } else if idx == 2 {
            "Painkillers"@
        } else if idx == 3 {
            "Mystery Meat"@
        } else if idx == 4 {
            "Expired Soda"@
        } else if idx == 5 {
            "Protein Bar"@
        } else if idx == 6 {
            "Adrenaline Shot"@
        } else {
            "Bandages"@
        }
    }

    /// The effect in row `idx` of the consumable table.
    pub open spec fn table_effect(idx: int) -> ConsumableEffect {
        if idx == 0 {
            ConsumableEffect::Heal(15)
        } else if idx == 1 {
            ConsumableEffect::DamageBoost(5, 3)
        } else if idx == 2 {
            ConsumableEffect::DefenseBoost(3, 5)
        } else if idx == 3 {
            ConsumableEffect::Heal(25)
        } else if idx == 4 {
            ConsumableEffect::Heal(10)
        } else if idx == 5 {
            ConsumableEffect::Heal(20)
        } else if idx == 6 {
            ConsumableEffect::DamageBoost(8, 2)
        } else {
            ConsumableEffect::Heal(30)
        }
    }

    /// The description in row `idx` of the consumable table.
    pub open spec fn table_description(idx: int) -> Seq<char> {
        if idx == 0 {
            "Still edible... probably"@
        } else if idx == 1 {
            "Gives you wings (and jitters)"@
        } else if idx == 2 {
            "Takes the edge off"@
        } else if idx == 3 {
            "Don't ask what it is"@
        } else if idx == 4 {
            "Flat but refreshing"@
        } else if idx == 5 {
            "Found in someone's backpack"@
        } else if idx == 6 {
            "Fight or flight activated"@
        } else {
            "Clean-ish medical supplies"@
        }
    }

    /// The consumable in row `idx` of the table. Consumables have fixed
    /// effects: no rarity scales them.
    pub open spec fn generated(idx: int) -> ConsumableView {
        ConsumableView {
            name: Self::table_name(idx),
            effect: Self::table_effect(idx),
            description: Self::table_description(idx),
        }
    }

    /// Whether `item` is one of the values that generation can produce.
    pub open spec fn can_generate(item: ConsumableView) -> bool {
        exists|idx: int| 0 <= idx < 8 && item == #[trigger] Self::generated(idx)
    }

    /// Builds the consumable in row `idx` of the table.
    pub fn from_roll(idx: usize) -> (item: Consumable)
        requires
            idx < 8,
        ensures
            item@ == Self::generated(idx as int),
    {
        let (name, effect, description) =
            if idx == 0 {
                ("Burger Leftovers", ConsumableEffect::Heal(15), "Still edible... probably")
            } else if idx == 1 {
                ("Energy Drink", ConsumableEffect::DamageBoost(5, 3), "Gives you wings (and jitters)")
            } else if idx == 2 {
                ("Painkillers", ConsumableEffect::DefenseBoost(3, 5), "Takes the edge off")
            } else if idx == 3 {
                ("Mystery Meat", ConsumableEffect::Heal(25), "Don't ask what it is")
            } else if idx == 4 {
                ("Expired Soda", ConsumableEffect::Heal(10), "Flat but refreshing")
            } else if idx == 5 {
                ("Protein Bar", ConsumableEffect::Heal(20), "Found in someone's backpack")
            } else if idx == 6 {
                ("Adrenaline Shot", ConsumableEffect::DamageBoost(8, 2), "Fight or flight activated")
            } else {
                ("Bandages", ConsumableEffect::Heal(30), "Clean-ish medical supplies")
            };
        Consumable {
            name: String::from_str(name),
            effect,
            description: String::from_str(description),
        }
    }

    /// Generates a random consumable: a row of the table chosen uniformly.
    pub fn random_generate() -> (item: Consumable)
        ensures
            Self::can_generate(item@),
    {
        let idx = random_range(0, 8);
        Self::from_roll(idx as usize)
    }

    /// Every generated consumable has a name, a description and an effect
    /// that is well formed.
    pub proof fn lemma_generated_bounds(item: ConsumableView)
        requires
            Self::can_generate(item),
        ensures
            item.effect.well_formed(),
            item.name.len() > 0,
            item.description.len() > 0,
    {
        reveal_strlit("Burger Leftovers");
        reveal_strlit("Still edible... probably");
        reveal_strlit("Energy Drink");
        reveal_strlit("Gives you wings (and jitters)");
        reveal_strlit("Painkillers");
        reveal_strlit("Takes the edge off");
        reveal_strlit("Mystery Meat");
        reveal_strlit("Don't ask what it is");
        reveal_strlit("Expired Soda");
        reveal_strlit("Flat but refreshing");
        reveal_strlit("Protein Bar");
        reveal_strlit("Found in someone's backpack");
        reveal_strlit("Adrenaline Shot");
        reveal_strlit("Fight or flight activated");
        reveal_strlit("Bandages");
        reveal_strlit("Clean-ish medical supplies");
    }
}

/// The view of an optional value: the view of what it holds, if anything.
pub open spec fn view_opt<T: View>(slot: Option<T>) -> Option<T::V> {
    match slot {
        Some(item) => Some(item@),
        None => None,
    }
}

/// The key item that opens the exit. Once found it is never lost.
#[derive(Debug, Clone)]
pub struct BoltCutters {
    pub found: bool,
}

impl BoltCutters {
    /// Bolt cutters that have not been found yet.
    pub fn new() -> (cutters: BoltCutters)
        ensures
            !cutters.found,
    {
        BoltCutters { found: false }
    }
}

/// What the player carries: at most one weapon, one piece of armor and one
/// consumable, the bolt cutters once found, and a temporary boost to damage
/// and defense that runs on one shared countdown.
#[derive(Debug, Clone)]
pub struct Inventory {
    pub weapon: Option<Weapon>,
    pub armor: Option<Armor>,
    pub consumable: Option<Consumable>,
    pub bolt_cutters: BoltCutters,
    pub temp_damage_boost: i32,
    pub temp_defense_boost: i32,
    pub boost_turns_remaining: u32,
}

/// The value of an inventory.
pub struct InventoryView {
    pub weapon: Option<WeaponView>,
    pub armor: Option<ArmorView>,
    pub consumable: Option<ConsumableView>,
    pub bolt_cutters_found: bool,
    pub temp_damage_boost: i32,
    pub temp_defense_boost: i32,
    pub boost_turns_remaining: u32,
}

impl View for Inventory {
    type V = InventoryView;

    open spec fn view(&self) -> InventoryView {
        InventoryView {
            weapon: view_opt(self.weapon),
            armor: view_opt(self.armor),
            consumable: view_opt(self.consumable),
            bolt_cutters_found: self.bolt_cutters.found,
            temp_damage_boost: self.temp_damage_boost,
            temp_defense_boost: self.temp_defense_boost,
            boost_turns_remaining: self.boost_turns_remaining,
        }
    }
}

impl InventoryView {
    /// The empty inventory: nothing held, no boost running.
    pub open spec fn empty() -> InventoryView {
        InventoryView {
            weapon: None,
            armor: None,
            consumable: None,
            bolt_cutters_found: false,
            temp_damage_boost: 0,
            temp_defense_boost: 0,
            boost_turns_remaining: 0,
        }
    }

    /// The damage bonus of the equipped weapon, 0 with none.
    pub open spec fn weapon_bonus(self) -> int {
        match self.weapon {
            Some(weapon) => weapon.damage_bonus as int,
            None => 0,
        }
    }

    /// The defense bonus of the equipped armor, 0 with none.
    pub open spec fn armor_bonus(self) -> int {
        match self.armor {
            Some(armor) => armor.defense_bonus as int,
            None => 0,
        }
    }

    /// The weapon's bonus plus the temporary damage boost.
    pub open spec fn total_damage_bonus(self) -> int {
        self.weapon_bonus() + self.temp_damage_boost
    }

    /// The armor's bonus plus the temporary defense boost.
    pub open spec fn total_defense_bonus(self) -> int {
        self.armor_bonus() + self.temp_defense_boost
    }

    /// The boost rule: the temporary boosts are zero unless the countdown is
    /// running.
    pub open spec fn boosts_timed(self) -> bool {
        self.boost_turns_remaining == 0 ==> self.temp_damage_boost == 0
            && self.temp_defense_boost == 0
    }

    /// The boost rule holds, and the consumable held, if any, has a well
    /// formed effect, so that using it keeps the rule.
    pub open spec fn well_formed(self) -> bool {
        &&& self.boosts_timed()
        &&& self.consumable matches Some(item) ==> item.effect.well_formed()
    }

    /// The inventory after one turn has passed: a running countdown loses one
    /// turn, and when it reaches zero both boosts are cleared.
    pub open spec fn after_turn(self) -> InventoryView {
        if self.boost_turns_remaining == 0 {
            self
        } else if self.boost_turns_remaining == 1 {
            InventoryView {
                temp_damage_boost: 0,
                temp_defense_boost: 0,
                boost_turns_remaining: 0,
                ..self
            }
        } else {
            InventoryView {
                boost_turns_remaining: (self.boost_turns_remaining - 1) as u32,
                ..self
            }
        }
    }

    /// Whether the consumable held can be used without a boost leaving the
    /// range of `i32`. True with no consumable.
    pub open spec fn can_consume(self) -> bool {
        match self.consumable {
            Some(item) => match item.effect {
                ConsumableEffect::Heal(_) => true,
                ConsumableEffect::DamageBoost(amount, _) => i32::MIN <= self.temp_damage_boost
                    + amount <= i32::MAX,
                ConsumableEffect::DefenseBoost(amount, _) => i32::MIN <= self.temp_defense_boost
                    + amount <= i32::MAX,
            },
            None => true,
        }
    }

    /// The inventory after `effect` has been applied to the boosts: a boost
    /// adds its amount to the one that is running, and the countdown becomes
    /// the longer of what remains and the new duration. Healing leaves the
    /// inventory alone.
    pub open spec fn with_effect(self, effect: ConsumableEffect) -> InventoryView {
        match effect {
            ConsumableEffect::Heal(_) => self,
            ConsumableEffect::DamageBoost(amount, duration) => InventoryView {
                temp_damage_boost: (self.temp_damage_boost + amount) as i32,
                boost_turns_remaining: if duration > self.boost_turns_remaining {
                    duration
                } else {
                    self.boost_turns_remaining
                },
                ..self
            },
            ConsumableEffect::DefenseBoost(amount, duration) => InventoryView {
                temp_defense_boost: (self.temp_defense_boost + amount) as i32,
                boost_turns_remaining: if duration > self.boost_turns_remaining {
                    duration
                } else {
                    self.boost_turns_remaining
                },
                ..self
            },
        }
    }

    /// The inventory after the consumable held, if any, has been used: the
    /// slot is empty and the effect has been applied to the boosts.
    pub open spec fn after_consume(self) -> InventoryView {
        match self.consumable {
            Some(item) => (InventoryView { consumable: None, ..self }).with_effect(item.effect),
            None => self,
        }
    }
}

impl ConsumableEffect {
    /// Whether the effect is well formed.
    pub fn is_well_formed(&self) -> (ok: bool)
        ensures
            ok == self.well_formed(),
    {
        match self {
            ConsumableEffect::Heal(_) => true,
            ConsumableEffect::DamageBoost(_, duration) => *duration > 0,
            ConsumableEffect::DefenseBoost(_, duration) => *duration > 0,
        }
    }
}

impl Inventory {
    /// Whether the inventory is well formed.
    pub fn is_well_formed(&self) -> (ok: bool)
        ensures
            ok == self@.well_formed(),
    {
        let timed = self.boost_turns_remaining != 0 || (self.temp_damage_boost == 0
            && self.temp_defense_boost == 0);
        let sound = match &self.consumable {
            Some(item) => item.effect.is_well_formed(),
            None => true,
        };
        timed && sound
    }

    /// Whether the consumable held can be used without a boost leaving the
    /// range of `i32`.
    pub fn can_use_consumable(&self) -> (ok: bool)
        ensures
            ok == self@.can_consume(),
    {
        match &self.consumable {
            Some(item) => match item.effect {
                ConsumableEffect::Heal(_) => true,
                ConsumableEffect::DamageBoost(amount, _) => {
                    let sum: i64 = self.temp_damage_boost as i64 + amount as i64;
                    -2147483648 <= sum && sum <= 2147483647
                },
                ConsumableEffect::DefenseBoost(amount, _) => {
                    let sum: i64 = self.temp_defense_boost as i64 + amount as i64;
                    -2147483648 <= sum && sum <= 2147483647
                },
            },
            None => true,
        }
    }

    /// An empty inventory.
    pub fn new() -> (inventory: Inventory)
        ensures
            inventory@ == InventoryView::empty(),
    {
        Inventory {
            weapon: None,
            armor: None,
            consumable: None,
            bolt_cutters: BoltCutters::new(),
            temp_damage_boost: 0,
            temp_defense_boost: 0,
            boost_turns_remaining: 0,
        }
    }

    /// The equipped weapon's bonus plus the temporary damage boost, in a type
    /// wide enough for any sum.
    pub fn damage_bonus_sum(&self) -> (bonus: i64)
        ensures
            bonus == self@.total_damage_bonus(),
    {
        let weapon_bonus: i64 = match &self.weapon {
            Some(weapon) => weapon.damage_bonus as i64,
            None => 0,
        };
        weapon_bonus + self.temp_damage_boost as i64
    }

    /// The equipped armor's bonus plus the temporary defense boost, in a type
    /// wide enough for any sum.
    pub fn defense_bonus_sum(&self) -> (bonus: i64)
        ensures
            bonus == self@.total_defense_bonus(),
    {
        let armor_bonus: i64 = match &self.armor {
            Some(armor) => armor.defense_bonus as i64,
            None => 0,
        };
        armor_bonus + self.temp_defense_boost as i64
    }

    /// The equipped weapon's bonus plus the temporary damage boost.
    pub fn total_damage_bonus(&self) -> (bonus: i32)
        requires
            i32::MIN <= self@.total_damage_bonus() <= i32::MAX,
        ensures
            bonus == self@.total_damage_bonus(),
    {
        self.damage_bonus_sum() as i32
    }

    /// The equipped armor's bonus plus the temporary defense boost.
    pub fn total_defense_bonus(&self) -> (bonus: i32)
        requires
            i32::MIN <= self@.total_defense_bonus() <= i32::MAX,
        ensures
            bonus == self@.total_defense_bonus(),
    {
        self.defense_bonus_sum() as i32
    }

    /// Lets one turn pass on the boost countdown. Does nothing once the
    /// countdown is at zero.
    pub fn update_turn(&mut self)
        ensures
            final(self)@ == old(self)@.after_turn(),
    {
        if self.boost_turns_remaining > 0 {
            self.boost_turns_remaining = self.boost_turns_remaining - 1;
            if self.boost_turns_remaining == 0 {
                self.temp_damage_boost = 0;
                self.temp_defense_boost = 0;
            }
        }
    }

    /// Uses the consumable held, if any. The slot is emptied, a boost is
    /// stacked onto the running one, and the effect and the item's name are
    /// returned. Healing is left to the caller, who owns the health.
    pub fn use_consumable(&mut self) -> (used: Option<(ConsumableEffect, String)>)
        requires
            old(self)@.can_consume(),
        ensures
            final(self)@ == old(self)@.after_consume(),
            match old(self)@.consumable {
                Some(item) => used matches Some(pair) && pair.0 == item.effect && pair.1@
                    == item.name,
                None => used is None,
            },
    {
        match self.consumable.take() {
            Some(consumable) => {
                let Consumable { name, effect, description: _ } = consumable;
                match effect {
                    ConsumableEffect::DamageBoost(amount, duration) => {
                        self.temp_damage_boost = self.temp_damage_boost + amount;
                        if duration > self.boost_turns_remaining {
                            self.boost_turns_remaining = duration;
                        }
                    },
                    ConsumableEffect::DefenseBoost(amount, duration) => {
                        self.temp_defense_boost = self.temp_defense_boost + amount;
                        if duration > self.boost_turns_remaining {
                            self.boost_turns_remaining = duration;
                        }
                    },
                    ConsumableEffect::Heal(_) => {},
                }
                Some((effect, name))
            },
            None => None,
        }
    }

    /// A turn keeps the boost rule.
    pub proof fn lemma_turn_keeps_well_formed(inventory: InventoryView)
        requires
            inventory.well_formed(),
        ensures
            inventory.after_turn().well_formed(),
    {
    }

    /// Using the consumable keeps the boost rule, and leaves the slot empty.
    pub proof fn lemma_consume_keeps_well_formed(inventory: InventoryView)
        requires
            inventory.well_formed(),
            inventory.can_consume(),
        ensures
            inventory.after_consume().well_formed(),
            inventory.after_consume().consumable is None,
    {
    }

    /// Boosts stack. Two damage boosts used one after the other, with no turn
    /// in between, add up, and the countdown is the longest of what was left
    /// and the two durations: durations do not add up.
    pub proof fn lemma_boosts_stack(
        inventory: InventoryView,
        first: (i32, u32),
        second: (i32, u32),
    )
        requires
            i32::MIN <= inventory.temp_damage_boost + first.0 <= i32::MAX,
            i32::MIN <= inventory.temp_damage_boost + first.0 + second.0 <= i32::MAX,
        ensures
            ({
                let after = inventory.with_effect(
                    ConsumableEffect::DamageBoost(first.0, first.1),
                ).with_effect(ConsumableEffect::DamageBoost(second.0, second.1));
                &&& after.temp_damage_boost == inventory.temp_damage_boost + first.0 + second.0
                &&& after.temp_defense_boost == inventory.temp_defense_boost
                &&& after.boost_turns_remaining >= inventory.boost_turns_remaining
                &&& after.boost_turns_remaining >= first.1
                &&& after.boost_turns_remaining >= second.1
                &&& after.boost_turns_remaining == inventory.boost_turns_remaining
                    || after.boost_turns_remaining == first.1 || after.boost_turns_remaining
                    == second.1
            }),
    {
    }
}

} // verus!
