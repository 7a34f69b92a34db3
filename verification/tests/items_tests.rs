use rust_punk::items::{
    Armor, BoltCutters, Consumable, ConsumableEffect, Inventory, ItemRarity, Weapon,
};

fn drink(effect: ConsumableEffect) -> Consumable {
    Consumable { name: "Drink".to_string(), effect, description: "Test".to_string() }
}

#[test]
fn test_weapon_generation() {
    let weapon = Weapon::random_generate();
    assert!(!weapon.name.is_empty());
    assert!(weapon.damage_bonus > 0);
    assert!(!weapon.description.is_empty());
}

#[test]
fn test_armor_generation() {
    let armor = Armor::random_generate();
    assert!(!armor.name.is_empty());
    assert!(armor.defense_bonus > 0);
    assert!(!armor.description.is_empty());
}

#[test]
fn test_consumable_generation() {
    let consumable = Consumable::random_generate();
    assert!(!consumable.name.is_empty());
    assert!(!consumable.description.is_empty());
}

#[test]
fn test_inventory_creation() {
    let inventory = Inventory::new();
    assert!(inventory.weapon.is_none());
    assert!(inventory.armor.is_none());
    assert!(inventory.consumable.is_none());
    assert!(!inventory.bolt_cutters.found);
}

#[test]
fn test_inventory_bonuses() {
    let mut inventory = Inventory::new();
    assert_eq!(inventory.total_damage_bonus(), 0);
    assert_eq!(inventory.total_defense_bonus(), 0);

    inventory.weapon = Some(Weapon {
        name: "Test Weapon".to_string(),
        damage_bonus: 5,
        rarity: ItemRarity::Common,
        description: "Test".to_string(),
    });

    inventory.armor = Some(Armor {
        name: "Test Armor".to_string(),
        defense_bonus: 3,
        rarity: ItemRarity::Common,
        description: "Test".to_string(),
    });

    assert_eq!(inventory.total_damage_bonus(), 5);
    assert_eq!(inventory.total_defense_bonus(), 3);
}

#[test]
fn test_consumable_use() {
    let mut inventory = Inventory::new();
    inventory.consumable = Some(Consumable {
        name: "Test Consumable".to_string(),
        effect: ConsumableEffect::DamageBoost(5, 3),
        description: "Test".to_string(),
    });

    let result = inventory.use_consumable();
    assert!(result.is_some());
    assert!(inventory.consumable.is_none());
    assert_eq!(inventory.temp_damage_boost, 5);
    assert_eq!(inventory.boost_turns_remaining, 3);
}

#[test]
fn test_boost_duration() {
    let mut inventory = Inventory::new();
    inventory.temp_damage_boost = 5;
    inventory.boost_turns_remaining = 2;

    inventory.update_turn();
    assert_eq!(inventory.boost_turns_remaining, 1);
    assert_eq!(inventory.temp_damage_boost, 5);

    inventory.update_turn();
    assert_eq!(inventory.boost_turns_remaining, 0);
    assert_eq!(inventory.temp_damage_boost, 0);
}

#[test]
fn rarity_follows_the_roll() {
    assert_eq!(ItemRarity::from_roll(0), ItemRarity::Common);
    assert_eq!(ItemRarity::from_roll(59), ItemRarity::Common);
    assert_eq!(ItemRarity::from_roll(60), ItemRarity::Uncommon);
    assert_eq!(ItemRarity::from_roll(89), ItemRarity::Uncommon);
    assert_eq!(ItemRarity::from_roll(90), ItemRarity::Rare);
    assert_eq!(ItemRarity::from_roll(99), ItemRarity::Rare);
}

#[test]
fn rarity_scales_by_one_two_three() {
    assert_eq!(ItemRarity::Common.multiplier(), 1);
    assert_eq!(ItemRarity::Uncommon.multiplier(), 2);
    assert_eq!(ItemRarity::Rare.multiplier(), 3);
    assert_eq!(ItemRarity::Common.to_string(), "Common");
    assert_eq!(ItemRarity::Uncommon.to_string(), "Uncommon");
    assert_eq!(ItemRarity::Rare.to_string(), "Rare");
}

#[test]
fn weapon_from_rolls_reads_the_table() {
    let expected = [
        ("Broken Bottle", 2, "Sharp glass from the dumpster"),
        ("Rusty Chain", 3, "Heavy and intimidating"),
        ("Spiked Bat", 4, "With nails driven through it"),
        ("Bike Lock", 3, "U-lock makes a good weapon"),
        ("Crowbar", 5, "Classic street tool"),
        ("Switchblade", 3, "Flicks open with a satisfying click"),
        ("Brass Knuckles", 2, "Adds weight to your punch"),
        ("Metal Pipe", 4, "Found behind the dumpster"),
    ];
    for (idx, (name, base, description)) in expected.iter().enumerate() {
        let common = Weapon::from_rolls(10, idx);
        assert_eq!(common.name, *name);
        assert_eq!(common.description, *description);
        assert_eq!(common.damage_bonus, *base);
        assert_eq!(common.rarity, ItemRarity::Common);
        let uncommon = Weapon::from_rolls(75, idx);
        assert_eq!(uncommon.damage_bonus, 2 * base);
        assert_eq!(uncommon.rarity, ItemRarity::Uncommon);
        let rare = Weapon::from_rolls(95, idx);
        assert_eq!(rare.damage_bonus, 3 * base);
        assert_eq!(rare.rarity, ItemRarity::Rare);
        assert_eq!(rare.name, *name);
    }
}

#[test]
fn armor_from_rolls_reads_the_table() {
    let expected = [
        ("Leather Jacket", 2, "Worn but protective"),
        ("Studded Vest", 3, "Metal studs add defense"),
        ("Chain Mail Shirt", 4, "Surprisingly effective"),
        ("Motorcycle Helmet", 2, "Protects your head"),
        ("Kevlar Vest", 5, "Military surplus find"),
        ("Padded Hoodie", 2, "Extra layers help"),
        ("Steel-Toe Boots", 1, "Good for kicking and protection"),
        ("Riot Shield", 4, "Liberated from authorities"),
    ];
    for (idx, (name, base, description)) in expected.iter().enumerate() {
        let common = Armor::from_rolls(59, idx);
        assert_eq!(common.name, *name);
        assert_eq!(common.description, *description);
        assert_eq!(common.defense_bonus, *base);
        assert_eq!(common.rarity, ItemRarity::Common);
        let uncommon = Armor::from_rolls(60, idx);
        assert_eq!(uncommon.defense_bonus, 2 * base);
        assert_eq!(uncommon.rarity, ItemRarity::Uncommon);
        let rare = Armor::from_rolls(90, idx);
        assert_eq!(rare.defense_bonus, 3 * base);
        assert_eq!(rare.rarity, ItemRarity::Rare);
    }
}

#[test]
fn consumable_from_roll_reads_the_table() {
    let expected = [
        ("Burger Leftovers", ConsumableEffect::Heal(15), "Still edible... probably"),
        ("Energy Drink", ConsumableEffect::DamageBoost(5, 3), "Gives you wings (and jitters)"),
        ("Painkillers", ConsumableEffect::DefenseBoost(3, 5), "Takes the edge off"),
        ("Mystery Meat", ConsumableEffect::Heal(25), "Don't ask what it is"),
        ("Expired Soda", ConsumableEffect::Heal(10), "Flat but refreshing"),
        ("Protein Bar", ConsumableEffect::Heal(20), "Found in someone's backpack"),
        ("Adrenaline Shot", ConsumableEffect::DamageBoost(8, 2), "Fight or flight activated"),
        ("Bandages", ConsumableEffect::Heal(30), "Clean-ish medical supplies"),
    ];
    for (idx, (name, effect, description)) in expected.iter().enumerate() {
        let item = Consumable::from_roll(idx);
        assert_eq!(item.name, *name);
        assert_eq!(item.effect, *effect);
        assert_eq!(item.description, *description);
        assert!(item.effect.is_well_formed());
    }
}

#[test]
fn generated_weapons_vary_and_stay_in_the_table() {
    let names = [
        "Broken Bottle",
        "Rusty Chain",
        "Spiked Bat",
        "Bike Lock",
        "Crowbar",
        "Switchblade",
        "Brass Knuckles",
        "Metal Pipe",
    ];
    let mut seen = std::collections::BTreeSet::new();
    let mut rarities = std::collections::BTreeSet::new();
    for _ in 0..400 {
        let weapon = Weapon::random_generate();
        let idx = names.iter().position(|n| *n == weapon.name);
        assert!(idx.is_some());
        let roll = match weapon.rarity {
            ItemRarity::Common => 0,
            ItemRarity::Uncommon => 60,
            ItemRarity::Rare => 90,
        };
        let same = Weapon::from_rolls(roll, idx.unwrap());
        assert_eq!(weapon.damage_bonus, same.damage_bonus);
        assert_eq!(weapon.description, same.description);
        seen.insert(weapon.name.clone());
        rarities.insert(roll);
    }
    assert!(seen.len() > 1);
    assert!(rarities.len() > 1);
}

#[test]
fn generated_armor_and_consumables_vary() {
    let mut armor = std::collections::BTreeSet::new();
    let mut consumables = std::collections::BTreeSet::new();
    for _ in 0..400 {
        let piece = Armor::random_generate();
        assert!((1..=15).contains(&piece.defense_bonus));
        armor.insert(piece.name);
        let item = Consumable::random_generate();
        assert!(item.effect.is_well_formed());
        consumables.insert(item.name);
    }
    assert!(armor.len() > 1);
    assert!(consumables.len() > 1);
}

#[test]
fn bolt_cutters_start_unfound() {
    assert!(!BoltCutters::new().found);
}

#[test]
fn bonuses_include_the_temporary_boosts() {
    let mut inventory = Inventory::new();
    inventory.temp_damage_boost = 4;
    inventory.temp_defense_boost = 6;
    inventory.boost_turns_remaining = 1;
    assert_eq!(inventory.total_damage_bonus(), 4);
    assert_eq!(inventory.total_defense_bonus(), 6);
    inventory.weapon = Some(Weapon::from_rolls(95, 4));
    inventory.armor = Some(Armor::from_rolls(0, 6));
    assert_eq!(inventory.total_damage_bonus(), 19);
    assert_eq!(inventory.total_defense_bonus(), 7);
    assert_eq!(inventory.damage_bonus_sum(), 19);
    assert_eq!(inventory.defense_bonus_sum(), 7);
}

#[test]
fn wide_sums_do_not_overflow() {
    let mut inventory = Inventory::new();
    inventory.weapon = Some(Weapon {
        name: "Big".to_string(),
        damage_bonus: i32::MAX,
        rarity: ItemRarity::Rare,
        description: "Test".to_string(),
    });
    inventory.temp_damage_boost = i32::MAX;
    inventory.boost_turns_remaining = 1;
    assert_eq!(inventory.damage_bonus_sum(), 2 * (i32::MAX as i64));
}

#[test]
fn update_turn_does_nothing_at_zero() {
    let mut inventory = Inventory::new();
    inventory.update_turn();
    assert_eq!(inventory.boost_turns_remaining, 0);
    assert_eq!(inventory.temp_damage_boost, 0);
    assert_eq!(inventory.temp_defense_boost, 0);
}

#[test]
fn update_turn_clears_both_boosts_together() {
    let mut inventory = Inventory::new();
    inventory.temp_damage_boost = 5;
    inventory.temp_defense_boost = 3;
    inventory.boost_turns_remaining = 1;
    inventory.update_turn();
    assert_eq!(inventory.boost_turns_remaining, 0);
    assert_eq!(inventory.temp_damage_boost, 0);
    assert_eq!(inventory.temp_defense_boost, 0);
    assert!(inventory.is_well_formed());
}

#[test]
fn use_consumable_without_one_returns_none() {
    let mut inventory = Inventory::new();
    assert!(inventory.use_consumable().is_none());
    assert_eq!(inventory.temp_damage_boost, 0);
    assert_eq!(inventory.boost_turns_remaining, 0);
}

#[test]
fn use_consumable_reports_effect_and_name() {
    let mut inventory = Inventory::new();
    inventory.consumable = Some(drink(ConsumableEffect::Heal(15)));
    let used = inventory.use_consumable();
    assert_eq!(used, Some((ConsumableEffect::Heal(15), "Drink".to_string())));
    assert!(inventory.consumable.is_none());
    assert_eq!(inventory.temp_damage_boost, 0);
    assert_eq!(inventory.temp_defense_boost, 0);
    assert_eq!(inventory.boost_turns_remaining, 0);
    // single use
    assert!(inventory.use_consumable().is_none());
}

#[test]
fn damage_boosts_stack_and_duration_is_the_longest() {
    let mut inventory = Inventory::new();
    inventory.consumable = Some(drink(ConsumableEffect::DamageBoost(5, 3)));
    inventory.use_consumable();
    inventory.consumable = Some(drink(ConsumableEffect::DamageBoost(5, 3)));
    inventory.use_consumable();
    assert_eq!(inventory.temp_damage_boost, 10);
    assert_eq!(inventory.boost_turns_remaining, 3);
}

#[test]
fn a_shorter_boost_keeps_the_longer_countdown() {
    let mut inventory = Inventory::new();
    inventory.consumable = Some(drink(ConsumableEffect::DefenseBoost(3, 5)));
    inventory.use_consumable();
    inventory.update_turn();
    inventory.consumable = Some(drink(ConsumableEffect::DamageBoost(8, 2)));
    let used = inventory.use_consumable();
    assert_eq!(used, Some((ConsumableEffect::DamageBoost(8, 2), "Drink".to_string())));
    assert_eq!(inventory.temp_damage_boost, 8);
    assert_eq!(inventory.temp_defense_boost, 3);
    assert_eq!(inventory.boost_turns_remaining, 4);
    inventory.consumable = Some(drink(ConsumableEffect::DefenseBoost(1, 9)));
    inventory.use_consumable();
    assert_eq!(inventory.temp_defense_boost, 4);
    assert_eq!(inventory.boost_turns_remaining, 9);
}

#[test]
fn can_use_consumable_tells_when_a_boost_would_overflow() {
    let mut inventory = Inventory::new();
    assert!(inventory.can_use_consumable());
    inventory.temp_damage_boost = i32::MAX;
    inventory.boost_turns_remaining = 1;
    inventory.consumable = Some(drink(ConsumableEffect::DamageBoost(1, 1)));
    assert!(!inventory.can_use_consumable());
    inventory.consumable = Some(drink(ConsumableEffect::DefenseBoost(1, 1)));
    assert!(inventory.can_use_consumable());
    inventory.consumable = Some(drink(ConsumableEffect::DamageBoost(0, 1)));
    assert!(inventory.can_use_consumable());
    inventory.consumable = Some(drink(ConsumableEffect::Heal(i32::MAX)));
    assert!(inventory.can_use_consumable());
}

#[test]
fn well_formed_effects() {
    assert!(ConsumableEffect::Heal(0).is_well_formed());
    assert!(ConsumableEffect::Heal(-1).is_well_formed());
    assert!(ConsumableEffect::DamageBoost(-3, 1).is_well_formed());
    assert!(!ConsumableEffect::DamageBoost(3, 0).is_well_formed());
    assert!(!ConsumableEffect::DefenseBoost(3, 0).is_well_formed());
    let mut inventory = Inventory::new();
    assert!(inventory.is_well_formed());
    inventory.temp_damage_boost = 1;
    assert!(!inventory.is_well_formed());
    inventory.boost_turns_remaining = 1;
    assert!(inventory.is_well_formed());
    inventory.consumable = Some(drink(ConsumableEffect::DefenseBoost(3, 0)));
    assert!(!inventory.is_well_formed());
}
