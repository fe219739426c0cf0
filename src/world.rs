use vstd::prelude::*;

use crate::object::Object;

verus! {

/// One map cell.
#[derive(Clone, Copy, Debug, PartialEq, Eq, Structural)]
pub struct Tile {
    pub blocked: bool,
    pub explored: bool,
    pub block_sight: bool,
}

/// The dungeon map, indexed as `tiles[x][y]`.
pub struct World {
    pub tiles: Vec<Vec<Tile>>,
}

/// A cell outside the map counts as a wall.
pub open spec fn tile_blocked(world: World, x: int, y: int) -> bool {
    !(0 <= x < world.tiles@.len() && 0 <= y < world.tiles@[x].len()) || world.tiles@[x]@[y].blocked
}

pub open spec fn object_blocks_at(o: Object, x: int, y: int) -> bool {
    o.blocks && o.x == x && o.y == y
}

/// A cell is blocked by a wall or by a blocking entity standing on it.
pub open spec fn blocked_at(world: World, objects: Seq<Object>, x: int, y: int) -> bool {
    tile_blocked(world, x, y) || exists|i: int| 0 <= i < objects.len() && object_blocks_at(#[trigger] objects[i], x, y)
}

pub fn is_blocked(world: &World, objects: &[Object], x: i32, y: i32) -> (r: bool)
    ensures
        r == blocked_at(*world, objects@, x as int, y as int),
{
    if x < 0 || y < 0 || x as usize >= world.tiles.len() || y as usize >= world.tiles[x as usize].len() {
        return true;
    }
    if world.tiles[x as usize][y as usize].blocked {
        return true;
    }
    let mut i: usize = 0;
    while i < objects.len()
        invariant
            0 <= i <= objects@.len(),
            forall|j: int| 0 <= j < i ==> !object_blocks_at(#[trigger] objects@[j], x as int, y as int),
        decreases objects@.len() - i,
    {
        if objects[i].blocks && objects[i].x == x && objects[i].y == y {
            return true;
        }
        i += 1;
    }
    false
}

} // verus!
