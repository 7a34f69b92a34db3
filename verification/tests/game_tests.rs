use rust_punk::game::{Dumpster, Enemy, EnemyType, GameMode, GameState, Player, Position};
use rust_punk::items::{Armor, ItemRarity};

fn plate(defense_bonus: i32) -> Armor {
    Armor {
        name: "Plate".to_string(),
        defense_bonus,
        rarity: ItemRarity::Common,
        description: "Test".to_string(),
    }
}

#[test]
fn test_player_creation() {
    let player = Player::new(10, 15);
    assert_eq!(player.position.x, 10);
    assert_eq!(player.position.y, 15);
    assert_eq!(player.health, 100);
    assert_eq!(player.max_health, 100);
    assert!(player.is_alive());
}

#[test]
fn test_player_damage() {
    let mut player = Player::new(0, 0);
    player.take_damage(30);
    assert_eq!(player.health, 70);
    assert!(player.is_alive());

    player.take_damage(80);
    assert_eq!(player.health, 0);
    assert!(!player.is_alive());
}

#[test]
fn test_player_healing() {
    let mut player = Player::new(0, 0);
    player.take_damage(50);
    player.heal(20);
    assert_eq!(player.health, 70);

    // Cannot heal beyond max health
    player.heal(100);
    assert_eq!(player.health, 100);
}

#[test]
fn test_enemy_creation() {
    let rat = Enemy::new_rat(5, 5);
    assert_eq!(rat.health, 20);
    assert_eq!(rat.attack, 3);
    assert!(rat.is_alive);
    assert_eq!(rat.get_char(), 'r');

    let cat = Enemy::new_feral_cat(5, 5);
    assert_eq!(cat.health, 35);
    assert_eq!(cat.attack, 7);
    assert_eq!(cat.get_char(), 'c');

    let punk = Enemy::new_rival_punk(5, 5);
    assert_eq!(punk.health, 50);
    assert_eq!(punk.attack, 10);
    assert_eq!(punk.get_char(), 'P');
}

#[test]
fn test_enemy_damage() {
    let mut enemy = Enemy::new_rat(0, 0);
    enemy.take_damage(10);
    assert_eq!(enemy.health, 10);
    assert!(enemy.is_alive);

    enemy.take_damage(15);
    assert_eq!(enemy.health, 0);
    assert!(!enemy.is_alive);
}

#[test]
fn test_game_state_initialization() {
    let game = GameState::new(60, 20);
    assert_eq!(game.width, 60);
    assert_eq!(game.height, 20);
    assert!(game.player.is_alive());
    assert_eq!(game.player.scavenged_items, 0);
    assert_eq!(game.dumpsters.len(), 3);
    assert!(!game.enemies.is_empty());
    assert_eq!(game.mode, GameMode::Exploring);
}

#[test]
fn test_dumpster_creation() {
    let dumpster = Dumpster::new(10, 10);
    assert_eq!(dumpster.position.x, 10);
    assert_eq!(dumpster.position.y, 10);
    assert!(dumpster.has_items);
}

#[test]
fn position_new_keeps_coordinates() {
    let position = Position::new(-4, 9);
    assert_eq!(position, Position { x: -4, y: 9 });
}

#[test]
fn interior_excludes_the_border() {
    assert!(Position::new(1, 1).is_in_interior(60, 20));
    assert!(Position::new(58, 18).is_in_interior(60, 20));
    assert!(!Position::new(0, 5).is_in_interior(60, 20));
    assert!(!Position::new(59, 5).is_in_interior(60, 20));
    assert!(!Position::new(5, 0).is_in_interior(60, 20));
    assert!(!Position::new(5, 19).is_in_interior(60, 20));
    assert!(!Position::new(1, 1).is_in_interior(2, 2));
    assert!(!Position::new(1, 1).is_in_interior(i32::MIN, 20));
}

#[test]
fn chase_range_is_strictly_between_one_and_ten() {
    let origin = Position::new(0, 0);
    // distance 0 and distance 1: too near
    assert!(!origin.is_in_chase_range(&Position::new(0, 0)));
    assert!(!origin.is_in_chase_range(&Position::new(1, 0)));
    assert!(!origin.is_in_chase_range(&Position::new(0, -1)));
    // a diagonal neighbour is at distance sqrt(2)
    assert!(origin.is_in_chase_range(&Position::new(1, 1)));
    assert!(origin.is_in_chase_range(&Position::new(3, 4)));
    // 99 = 49 + 50 is not a sum of two squares here, 98 = 49 + 49 is
    assert!(origin.is_in_chase_range(&Position::new(7, 7)));
    assert!(origin.is_in_chase_range(&Position::new(9, 4)));
    // distance exactly 10: too far
    assert!(!origin.is_in_chase_range(&Position::new(10, 0)));
    assert!(!origin.is_in_chase_range(&Position::new(6, 8)));
    assert!(!origin.is_in_chase_range(&Position::new(8, 7)));
    // far apart, where a 32-bit square would overflow
    assert!(!Position::new(i32::MIN, i32::MIN).is_in_chase_range(&Position::new(i32::MAX, i32::MAX)));
}

#[test]
fn step_toward_is_diagonal_and_clamped() {
    let from = Position::new(10, 10);
    assert_eq!(from.step_toward(&Position::new(20, 3), 60, 20), Position::new(11, 9));
    assert_eq!(from.step_toward(&Position::new(10, 30), 60, 20), Position::new(10, 11));
    assert_eq!(from.step_toward(&Position::new(10, 10), 60, 20), Position::new(10, 10));
    // a step from outside is forced into the interior
    assert_eq!(Position::new(70, -5).step_toward(&Position::new(71, -9), 60, 20), Position::new(58, 1));
    assert_eq!(Position::new(i32::MAX, i32::MIN).step_toward(&Position::new(0, 0), 60, 20), Position::new(58, 1));
}

#[test]
fn step_away_is_clamped_to_the_interior() {
    assert_eq!(Position::new(1, 1).step_away(&Position::new(2, 2), 60, 20), Position::new(1, 1));
    assert_eq!(Position::new(58, 18).step_away(&Position::new(3, 3), 60, 20), Position::new(58, 18));
    assert_eq!(Position::new(10, 10).step_away(&Position::new(10, 9), 60, 20), Position::new(10, 11));
    assert_eq!(Position::new(10, 10).step_away(&Position::new(10, 10), 60, 20), Position::new(10, 10));
}

#[test]
fn player_starts_with_base_stats() {
    let player = Player::new(3, 4);
    assert_eq!(player.attack, 10);
    assert_eq!(player.scavenged_items, 0);
    assert_eq!(player.total_attack(), 10);
    assert_eq!(player.attack_sum(), 10);
    assert!(player.inventory.weapon.is_none());
}

#[test]
fn damage_is_never_below_one() {
    let mut player = Player::new(0, 0);
    player.inventory.armor = Some(plate(50));
    player.take_damage(10);
    assert_eq!(player.health, 99);
    player.take_damage(0);
    assert_eq!(player.health, 98);
    player.take_damage(-100);
    assert_eq!(player.health, 97);
    player.take_damage(53);
    assert_eq!(player.health, 94);
}

#[test]
fn damage_from_is_what_a_hit_takes() {
    let mut player = Player::new(0, 0);
    assert_eq!(player.damage_from(10), 10);
    assert_eq!(player.damage_from(0), 1);
    player.inventory.armor = Some(plate(50));
    assert_eq!(player.damage_from(10), 1);
    assert_eq!(player.damage_from(51), 1);
    assert_eq!(player.damage_from(52), 2);
    player.inventory.armor = Some(plate(-4));
    assert_eq!(player.damage_from(10), 14);
}

#[test]
fn defense_includes_the_temporary_boost() {
    let mut player = Player::new(0, 0);
    player.inventory.armor = Some(plate(3));
    player.inventory.temp_defense_boost = 4;
    player.inventory.boost_turns_remaining = 2;
    player.take_damage(10);
    assert_eq!(player.health, 97);
}

#[test]
fn damage_with_extreme_values_stays_defined() {
    let mut player = Player::new(0, 0);
    player.inventory.armor = Some(plate(i32::MIN));
    player.inventory.temp_defense_boost = i32::MIN;
    player.take_damage(i32::MAX);
    assert_eq!(player.health, 0);

    let mut player = Player::new(0, 0);
    player.inventory.armor = Some(plate(i32::MAX));
    player.inventory.temp_defense_boost = i32::MAX;
    player.take_damage(i32::MIN);
    assert_eq!(player.health, 99);
}

#[test]
fn health_stays_in_range_under_heal_and_damage() {
    let mut player = Player::new(0, 0);
    player.heal(40);
    assert_eq!(player.health, 100);
    player.take_damage(250);
    assert_eq!(player.health, 0);
    player.heal(30);
    assert_eq!(player.health, 30);
    player.take_damage(10);
    player.heal(0);
    assert_eq!(player.health, 20);
    player.heal(i32::MAX);
    assert_eq!(player.health, 100);
}

#[test]
fn healing_by_a_negative_amount_stops_at_zero() {
    let mut player = Player::new(0, 0);
    player.heal(-200);
    assert_eq!(player.health, 0);
    assert!(!player.is_alive());
    player.heal(40);
    assert_eq!(player.health, 40);
    player.heal(-15);
    assert_eq!(player.health, 25);
    player.heal(i32::MIN);
    assert_eq!(player.health, 0);
    player.health = i32::MIN;
    player.heal(i32::MIN);
    assert_eq!(player.health, 0);
    player.heal(-1);
    player.take_damage(5);
    player.heal(3);
    assert_eq!(player.health, 3);
}

#[test]
fn enemy_kinds_draw_as_their_glyphs() {
    assert_eq!(EnemyType::Rat.get_char(), 'r');
    assert_eq!(EnemyType::FerralCat.get_char(), 'c');
    assert_eq!(EnemyType::RivalPunk.get_char(), 'P');
}

#[test]
fn total_attack_adds_weapon_and_boost() {
    let mut player = Player::new(0, 0);
    player.inventory.weapon = Some(rust_punk::items::Weapon {
        name: "Pipe".to_string(),
        damage_bonus: 8,
        rarity: ItemRarity::Uncommon,
        description: "Test".to_string(),
    });
    player.inventory.temp_damage_boost = 5;
    player.inventory.boost_turns_remaining = 3;
    assert_eq!(player.total_attack(), 23);
    assert_eq!(player.attack_sum(), 23);
}

#[test]
fn enemy_kinds_have_names_and_stats() {
    assert_eq!(EnemyType::Rat.to_string(), "Rat");
    assert_eq!(EnemyType::FerralCat.to_string(), "Feral Cat");
    assert_eq!(EnemyType::RivalPunk.to_string(), "Rival Punk");
    let cat = Enemy::new_feral_cat(7, 8);
    assert_eq!(cat.position, Position::new(7, 8));
    assert_eq!(cat.max_health, 35);
    assert_eq!(cat.enemy_type, EnemyType::FerralCat);
    assert!(cat.is_consistent());
}

#[test]
fn enemy_death_is_final() {
    let mut enemy = Enemy::new_rat(0, 0);
    enemy.take_damage(20);
    assert_eq!(enemy.health, 0);
    assert!(!enemy.is_alive);
    let dead = enemy;
    enemy.take_damage(7);
    assert_eq!(enemy, dead);
    enemy.take_damage(0);
    assert_eq!(enemy, dead);
    enemy.take_hit(i64::MAX);
    assert_eq!(enemy, dead);
}

#[test]
fn enemy_survives_a_hit_that_leaves_health() {
    let mut enemy = Enemy::new_rival_punk(0, 0);
    enemy.take_damage(49);
    assert_eq!(enemy.health, 1);
    assert!(enemy.is_alive);
    enemy.take_damage(1);
    assert_eq!(enemy.health, 0);
    assert!(!enemy.is_alive);
}

#[test]
fn enemy_pursues_only_on_a_winning_roll() {
    let target = Position::new(30, 17);
    let mut rat = Enemy::new_rat(25, 12);
    rat.pursue(&target, 60, 20, false);
    assert_eq!(rat.position, Position::new(25, 12));
    rat.pursue(&target, 60, 20, true);
    assert_eq!(rat.position, Position::new(26, 13));
    assert_eq!(rat.health, 20);
    assert!(rat.is_alive);
}

#[test]
fn enemy_does_not_pursue_when_adjacent_far_or_dead() {
    let target = Position::new(30, 17);
    let mut adjacent = Enemy::new_rat(30, 16);
    adjacent.pursue(&target, 60, 20, true);
    assert_eq!(adjacent.position, Position::new(30, 16));
    assert!(!adjacent.chases(&target));

    let mut far = Enemy::new_rat(20, 17);
    far.pursue(&target, 60, 20, true);
    assert_eq!(far.position, Position::new(20, 17));

    let mut near = Enemy::new_rat(21, 17);
    assert!(near.chases(&target));
    near.pursue(&target, 60, 20, true);
    assert_eq!(near.position, Position::new(22, 17));

    let mut dead = Enemy::new_rat(25, 12);
    dead.take_damage(20);
    dead.pursue(&target, 60, 20, true);
    assert_eq!(dead.position, Position::new(25, 12));
}

#[test]
fn dumpster_with_contents_holds_what_it_is_given() {
    let dumpster = Dumpster::with_contents(4, 3, None, Some(plate(2)), None);
    assert_eq!(dumpster.position, Position::new(4, 3));
    assert!(dumpster.has_items);
    assert!(!dumpster.has_bolt_cutters);
    assert!(dumpster.item_weapon.is_none());
    assert_eq!(dumpster.item_armor.as_ref().map(|a| a.defense_bonus), Some(2));
    assert!(dumpster.item_consumable.is_none());
    assert!(dumpster.is_well_formed());
}

#[test]
fn dumpster_with_bolt_cutters_has_them() {
    let dumpster = Dumpster::new_with_bolt_cutters(45, 3);
    assert_eq!(dumpster.position, Position::new(45, 3));
    assert!(dumpster.has_items);
    assert!(dumpster.has_bolt_cutters);
    assert!(!Dumpster::new(45, 3).has_bolt_cutters);
}

#[test]
fn dumpster_contents_vary_and_come_from_the_tables() {
    let mut with_weapon = 0;
    let mut without_weapon = 0;
    let mut with_consumable = 0;
    let mut without_consumable = 0;
    for _ in 0..400 {
        let dumpster = Dumpster::new(1, 1);
        match &dumpster.item_weapon {
            Some(weapon) => {
                with_weapon += 1;
                assert!((1..=15).contains(&weapon.damage_bonus));
            }
            None => without_weapon += 1,
        }
        if let Some(armor) = &dumpster.item_armor {
            assert!((1..=15).contains(&armor.defense_bonus));
        }
        match &dumpster.item_consumable {
            Some(_) => with_consumable += 1,
            None => without_consumable += 1,
        }
        assert!(dumpster.is_well_formed());
    }
    assert!(with_weapon > 0 && without_weapon > 0);
    assert!(with_consumable > 0 && without_consumable > 0);
    assert!(with_weapon > without_weapon);
    assert!(with_consumable > without_consumable);
}

#[test]
fn new_game_has_the_standard_layout() {
    let game = GameState::new(60, 20);
    assert_eq!(game.dumpsters.len(), 3);
    assert_eq!(game.dumpsters.iter().filter(|d| d.has_bolt_cutters).count(), 1);
    assert!(game.dumpsters[2].has_bolt_cutters);
    assert_eq!(game.dumpsters[0].position, Position::new(15, 3));
    assert_eq!(game.dumpsters[1].position, Position::new(35, 3));
    assert_eq!(game.dumpsters[2].position, Position::new(45, 3));
    assert_eq!(game.player.position, Position::new(30, 17));
    assert_eq!(game.mode, GameMode::Exploring);
    assert_eq!(game.player.scavenged_items, 0);
    assert_eq!(game.turn_count, 0);
    assert_eq!(game.chain_position, Position::new(30, 1));
    assert_eq!(
        game.messages,
        vec![
            "Welcome to RUST PUNK!".to_string(),
            "Fight rats and rivals for dumpster scavenge rights!".to_string(),
            "Use WASD to move, Space to attack, Q to quit".to_string(),
            "Find bolt cutters to unlock the exit!".to_string(),
        ]
    );
    assert!(game.is_valid());
}

#[test]
fn new_game_places_the_enemies_in_their_areas() {
    let mut xs = std::collections::BTreeSet::new();
    for _ in 0..50 {
        let game = GameState::new(60, 20);
        assert_eq!(game.enemies.len(), 5);
        for rat in &game.enemies[0..3] {
            assert_eq!(*rat, Enemy::new_rat(rat.position.x, rat.position.y));
            assert!((5..55).contains(&rat.position.x));
            assert!((5..15).contains(&rat.position.y));
            xs.insert(rat.position.x);
        }
        let cat = game.enemies[3];
        assert_eq!(cat, Enemy::new_feral_cat(cat.position.x, cat.position.y));
        assert!((5..55).contains(&cat.position.x));
        assert!((5..10).contains(&cat.position.y));
        assert_eq!(game.enemies[4], Enemy::new_rival_punk(35, 5));
    }
    // the positions are drawn, not fixed
    assert!(xs.len() > 1);
}

#[test]
fn new_game_on_the_smallest_playfield() {
    let game = GameState::new(11, 12);
    assert_eq!(game.player.position, Position::new(5, 9));
    assert_eq!(game.chain_position, Position::new(5, 1));
    assert_eq!(game.dumpsters[0].position, Position::new(2, 3));
    assert_eq!(game.dumpsters[1].position, Position::new(5, 3));
    assert_eq!(game.dumpsters[2].position, Position::new(8, 3));
    for enemy in &game.enemies[0..4] {
        assert_eq!(enemy.position.x, 5);
    }
    assert_eq!(game.enemies[4].position, Position::new(10, 5));
    assert!(game.is_valid());
}

#[test]
fn with_world_opens_on_the_given_world() {
    let game = GameState::with_world(
        40,
        10,
        vec![Dumpster::with_contents(2, 2, None, None, None)],
        vec![Enemy::new_rat(3, 3)],
    );
    assert_eq!(game.width, 40);
    assert_eq!(game.height, 10);
    assert_eq!(game.player.position, Position::new(20, 7));
    assert_eq!(game.player.health, 100);
    assert_eq!(game.chain_position, Position::new(20, 1));
    assert_eq!(game.dumpsters.len(), 1);
    assert_eq!(game.enemies, vec![Enemy::new_rat(3, 3)]);
    assert_eq!(game.messages.len(), 4);
    assert_eq!(game.mode, GameMode::Exploring);
    assert!(game.is_valid());
}
