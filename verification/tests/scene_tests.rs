use rust_punk::game::{Dumpster, Enemy, EnemyType, GameState};
use rust_punk::scene::Tile;

fn world() -> GameState {
    let mut dead = Enemy::new_rat(12, 12);
    dead.take_damage(20);
    let mut depleted = Dumpster::with_contents(20, 3, None, None, None);
    depleted.has_items = false;
    GameState::with_world(
        60,
        20,
        vec![
            Dumpster::with_contents(15, 3, None, None, None),
            depleted,
            Dumpster::with_contents(30, 17, None, None, None),
            Dumpster::with_contents(10, 10, None, None, None),
            Dumpster::with_contents(30, 1, None, None, None),
        ],
        vec![
            dead,
            Enemy::new_feral_cat(12, 12),
            Enemy::new_rat(12, 12),
            Enemy::new_rival_punk(10, 10),
            Enemy::new_rat(30, 17),
            Enemy::new_rat(0, 0),
        ],
    )
}

#[test]
fn tiles_show_what_stands_on_them() {
    let game = world();
    assert_eq!(game.tile_at(5, 5), Tile::Ground);
    assert_eq!(game.tile_at(15, 3), Tile::Dumpster(true));
    assert_eq!(game.tile_at(20, 3), Tile::Dumpster(false));
    assert_eq!(game.tile_at(0, 7), Tile::Wall);
    assert_eq!(game.tile_at(59, 7), Tile::Wall);
    assert_eq!(game.tile_at(7, 0), Tile::Wall);
    assert_eq!(game.tile_at(7, 19), Tile::Wall);
    assert_eq!(game.tile_at(58, 18), Tile::Ground);
    assert_eq!(game.tile_at(60, 20), Tile::Ground);
    assert_eq!(game.tile_at(-1, -1), Tile::Ground);
}

#[test]
fn tiles_show_the_topmost_thing() {
    let mut game = world();
    // the player hides the rat and the dumpster on the same tile
    assert_eq!(game.tile_at(30, 17), Tile::Player);
    // the first living enemy is shown; the dead rat before it is not
    assert_eq!(game.tile_at(12, 12), Tile::Enemy(EnemyType::FerralCat));
    // an enemy hides a dumpster
    assert_eq!(game.tile_at(10, 10), Tile::Enemy(EnemyType::RivalPunk));
    // an enemy hides the wall
    assert_eq!(game.tile_at(0, 0), Tile::Enemy(EnemyType::Rat));
    // a dumpster hides the chain
    assert_eq!(game.tile_at(30, 1), Tile::Dumpster(true));
    game.dumpsters.pop();
    assert_eq!(game.tile_at(30, 1), Tile::Chain(false));
    game.player.inventory.bolt_cutters.found = true;
    assert_eq!(game.tile_at(30, 1), Tile::Chain(true));
    // once the cat is dead the rat behind it shows
    game.enemies[1].take_damage(35);
    assert_eq!(game.tile_at(12, 12), Tile::Enemy(EnemyType::Rat));
    game.enemies[2].take_damage(20);
    assert_eq!(game.tile_at(12, 12), Tile::Ground);
}
