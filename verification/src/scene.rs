//! What a renderer shows on each tile of the playfield.

use crate::game::{DumpsterView, EnemyType, GameState, GameView, Position};
use crate::rules::first_alive_from;
use vstd::prelude::*;

verus! {

/// What stands on a tile, as a renderer shows it.
#[derive(Debug, Clone, Copy, PartialEq, Eq, Structural)]
pub enum Tile {
    Player,
    /// A living enemy of this kind.
    Enemy(EnemyType),
    /// A dumpster; the flag says whether it still has items.
    Dumpster(bool),
    /// The chain at the exit; the flag says whether the bolt cutters that
    /// open it have been found.
    Chain(bool),
    /// The border of the playfield.
    Wall,
    Ground,
}

/// The index of the first dumpster at or after `start` that stands on tile
/// `position`, if there is one.
pub open spec fn first_dumpster_from(
    dumpsters: Seq<DumpsterView>,
    position: Position,
    start: int,
) -> Option<int>
    decreases dumpsters.len() - start,
{
    if start < 0 || start >= dumpsters.len() {
        None
    } else if dumpsters[start].position == position {
        Some(start)
    } else {
        first_dumpster_from(dumpsters, position, start + 1)
    }
}

impl GameView {
    /// What a renderer shows on tile `(x, y)`. Where several things share a
    /// tile, the player hides a living enemy, which hides a dumpster, which
    /// hides the chain, which hides the wall. Dead enemies are not shown.
    pub open spec fn tile_at(self, x: i32, y: i32) -> Tile {
        let here = Position { x, y };
        if self.player.position == here {
            Tile::Player
        } else if let Some(i) = first_alive_from(self.enemies, here, 0) {
            Tile::Enemy(self.enemies[i].enemy_type)
        } else if let Some(i) = first_dumpster_from(self.dumpsters, here, 0) {
            Tile::Dumpster(self.dumpsters[i].has_items)
        } else if self.chain_position == here {
            Tile::Chain(self.player.inventory.bolt_cutters_found)
        } else if x == 0 || x == self.width - 1 || y == 0 || y == self.height - 1 {
            Tile::Wall
        } else {
            Tile::Ground
        }
    }
}

impl GameState {
    /// What a renderer shows on tile `(x, y)`.
    pub fn tile_at(&self, x: i32, y: i32) -> (tile: Tile)
        ensures
            tile == self@.tile_at(x, y),
    {
        let ghost here = Position { x, y };
        if self.player.position.x == x && self.player.position.y == y {
            return Tile::Player;
        }
        let mut i: usize = 0;
        while i < self.enemies.len()
            invariant
                i <= self.enemies.len(),
                here == (Position { x, y }),
                self.player.position != here,
                first_alive_from(self@.enemies, here, i as int) == first_alive_from(
                    self@.enemies,
                    here,
                    0,
                ),
            decreases self.enemies.len() - i,
        {
            if self.enemies[i].is_alive && self.enemies[i].position.x == x
                && self.enemies[i].position.y == y {
                return Tile::Enemy(self.enemies[i].enemy_type);
            }
            i = i + 1;
        }
        let mut k: usize = 0;
        while k < self.dumpsters.len()
            invariant
                k <= self.dumpsters.len(),
                here == (Position { x, y }),
                self.player.position != here,
                first_alive_from(self@.enemies, here, 0) is None,
                first_dumpster_from(self@.dumpsters, here, k as int) == first_dumpster_from(
                    self@.dumpsters,
                    here,
                    0,
                ),
            decreases self.dumpsters.len() - k,
        {
            if self.dumpsters[k].position.x == x && self.dumpsters[k].position.y == y {
                return Tile::Dumpster(self.dumpsters[k].has_items);
            }
            k = k + 1;
        }
        if self.chain_position.x == x && self.chain_position.y == y {
            Tile::Chain(self.player.inventory.bolt_cutters.found)
        } else if x == 0 || x as i64 == self.width as i64 - 1 || y == 0 || y as i64
            == self.height as i64 - 1 {
            Tile::Wall
        } else {
            Tile::Ground
        }
    }
}

} // verus!
