use rust_punk::messages::{
    armor_found_message, armor_rejected_message, attack_message, consumable_found_message,
    consumable_rejected_message, counterattack_message, damage_boosted_message,
    defense_boosted_message, encounter_message, enemy_defeated_message, healed_message,
    scavenged_message, weapon_found_message, weapon_rejected_message,
};
use rust_punk::text::{digit_str, digits_string, int_string};

#[test]
fn digits_are_written_one_by_one() {
    for d in 0..10u64 {
        assert_eq!(digit_str(d), format!("{}", d));
    }
}

#[test]
fn naturals_are_written_in_decimal() {
    for n in [0u64, 1, 9, 10, 11, 99, 100, 101, 12345, 1_000_000, u32::MAX as u64, u64::MAX] {
        assert_eq!(digits_string(n), format!("{}", n));
    }
}

#[test]
fn integers_are_written_with_their_sign() {
    for n in [0i64, 1, -1, 7, -7, 10, -10, 25, -100, 2147483647, -2147483648, i64::MAX, i64::MIN] {
        assert_eq!(int_string(n), format!("{}", n));
    }
    assert_eq!(int_string(-42), "-42");
    assert_eq!(int_string(1005), "1005");
}

#[test]
fn combat_messages_read_as_expected() {
    assert_eq!(attack_message("Rat", 25), "You attack Rat for 25 damage!");
    assert_eq!(attack_message("Rival Punk", -3), "You attack Rival Punk for -3 damage!");
    assert_eq!(enemy_defeated_message("Feral Cat"), "Feral Cat defeated!");
    assert_eq!(
        counterattack_message("Rival Punk", 1, 50),
        "Rival Punk attacks you for 1 damage! (Reduced by 50)"
    );
    assert_eq!(
        encounter_message("Rat"),
        "Encountered Rat! Space to attack, R to retreat."
    );
}

#[test]
fn pickup_messages_read_as_expected() {
    assert_eq!(weapon_found_message("Crowbar", 15), "Found Crowbar! (+15 damage)");
    assert_eq!(weapon_rejected_message("Crowbar"), "Found Crowbar but weapon slot full!");
    assert_eq!(armor_found_message("Kevlar Vest", 5), "Found Kevlar Vest! (+5 defense)");
    assert_eq!(armor_rejected_message("Kevlar Vest"), "Found Kevlar Vest but armor slot full!");
    assert_eq!(consumable_found_message("Bandages"), "Found Bandages! (Press E to use)");
    assert_eq!(
        consumable_rejected_message("Bandages"),
        "Found Bandages but consumable slot full!"
    );
    assert_eq!(scavenged_message(2), "Scavenged dumpster! (2/3)");
}

#[test]
fn item_messages_read_as_expected() {
    assert_eq!(healed_message("Bandages", 30), "Used Bandages! Healed 30 HP");
    assert_eq!(
        damage_boosted_message("Energy Drink", 5, 3),
        "Used Energy Drink! +5 damage for 3 turns"
    );
    assert_eq!(
        defense_boosted_message("Painkillers", 3, 5),
        "Used Painkillers! +3 defense for 5 turns"
    );
}
