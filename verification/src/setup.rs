//! How a game is set up.

use crate::chance::random_range;
use crate::game::{
    dumpster_views, Dumpster, DumpsterView, Enemy, EnemyType, GameMode, GameState, GameView,
    Player, Position,
};
use crate::input::Key;
use crate::messages::{
    welcome_goal_message, welcome_hint_message, welcome_keys_message, welcome_title_message,
};
use vstd::prelude::*;

verus! {

impl GameState {
    /// Opens a game on a playfield of the given size with the given
    /// dumpsters and enemies. The playfield must have room for the tile on
    /// which the player spawns.
    pub fn with_world(
        width: i32,
        height: i32,
        dumpsters: Vec<Dumpster>,
        enemies: Vec<Enemy>,
    ) -> (game: GameState)
        requires
            width >= 3,
            height >= 4,
        ensures
            game@ == GameView::opening(width, height, dumpster_views(dumpsters@), enemies@),
    {
        let mut messages: Vec<String> = Vec::new();
        messages.push(welcome_title_message());
        messages.push(welcome_goal_message());
        messages.push(welcome_keys_message());
        messages.push(welcome_hint_message());
        let game = GameState {
            player: Player::new(width / 2, height - 3),
            enemies,
            dumpsters,
            width,
            height,
            mode: GameMode::Exploring,
            messages,
            turn_count: 0,
            chain_position: Position::new(width / 2, 1),
        };
        assert(game@.messages =~= GameView::opening(
            width,
            height,
            dumpster_views(dumpsters@),
            enemies@,
        ).messages);
        game
    }

    /// Opens a new game. The dumpsters stand in fixed places with random
    /// contents, and the last one has the bolt cutters. The rats and the
    /// feral cat start on random tiles; the rival punk stands near the
    /// dumpsters.
    ///
    /// The playfield must be wide and high enough for the areas in which the
    /// enemies are placed: more than 10 wide and at least 12 high.
    pub fn new(width: i32, height: i32) -> (game: GameState)
        requires
            10 < width,
            width * 3 <= i32::MAX,
            12 <= height,
        ensures
            game@.fresh(width, height),
            game@.valid(),
    {
        let mut dumpsters: Vec<Dumpster> = Vec::new();
        let mut i: i32 = 0;
        while i < 2
            invariant
                0 <= i <= 2,
                10 < width,
                width * 3 <= i32::MAX,
                dumpsters.len() == i,
                forall|j: int|
                    0 <= j < i ==> {
                        &&& (#[trigger] dumpsters[j])@.position == (Position {
                            x: (width / 4 + j * (width / 3)) as i32,
                            y: 3,
                        })
                        &&& dumpsters[j]@.has_items
                        &&& dumpsters[j]@.stocked_from_tables()
                        &&& !dumpsters[j]@.has_bolt_cutters
                    },
            decreases 2 - i,
        {
            assert(0 <= i * (width / 3) <= width / 3) by (nonlinear_arith)
                requires
                    0 <= i <= 1,
                    0 <= width / 3,
            ;
            dumpsters.push(Dumpster::new(width / 4 + i * (width / 3), 3));
            i = i + 1;
        }
        dumpsters.push(Dumpster::new_with_bolt_cutters(width * 3 / 4, 3));

        let mut enemies: Vec<Enemy> = Vec::new();
        let mut k: usize = 0;
        while k < 3
            invariant
                k <= 3,
                10 < width,
                12 <= height,
                enemies.len() == k,
                forall|j: int|
                    0 <= j < k ==> {
                        &&& #[trigger] enemies[j] == Enemy::spawned(
                            EnemyType::Rat,
                            enemies[j].position,
                        )
                        &&& 5 <= enemies[j].position.x < width - 5
                        &&& 5 <= enemies[j].position.y < height - 5
                    },
            decreases 3 - k,
        {
            let x = random_range(5, width - 5);
            let y = random_range(5, height - 5);
            enemies.push(Enemy::new_rat(x, y));
            k = k + 1;
        }
        let x = random_range(5, width - 5);
        let y = random_range(5, height / 2);
        enemies.push(Enemy::new_feral_cat(x, y));
        enemies.push(Enemy::new_rival_punk(width / 2 + 5, 5));

        let game = Self::with_world(width, height, dumpsters, enemies);
        proof {
            Self::lemma_fresh_is_valid(game@, width, height);
        }
        game
    }

    /// A new game opens in a valid state, with exactly one dumpster that has
    /// the bolt cutters.
    pub proof fn lemma_fresh_is_valid(game: GameView, width: i32, height: i32)
        requires
            10 < width,
            12 <= height,
            game.fresh(width, height),
        ensures
            game.valid(),
            game.dumpsters.len() == 3,
            game.dumpsters.filter(|d: DumpsterView| d.has_bolt_cutters).len() == 1,
            game.player.position == (Position { x: (width / 2) as i32, y: (height - 3) as i32 }),
            game.mode == GameMode::Exploring,
            game.player.scavenged_items == 0,
    {
        assert forall|i: int| 0 <= i < game.dumpsters.len() implies (#[trigger] game.dumpsters[
            i
        ]).well_formed() by {
            Dumpster::lemma_stocked_is_well_formed(game.dumpsters[i]);
        }
        reveal_with_fuel(Seq::filter, 4);
    }

    /// Every key can be resolved in the state in which a new game opens.
    pub proof fn lemma_fresh_resolves_every_key(
        game: GameView,
        width: i32,
        height: i32,
        key: Key,
    )
        requires
            game.fresh(width, height),
        ensures
            game.can_resolve(key),
    {
    }
}

} // verus!
