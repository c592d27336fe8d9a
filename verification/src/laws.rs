//! Laws that relate several operations: stated over the same transition
//! relations that the operations' contracts use, and proved once for every
//! input.

use vstd::prelude::*;

use crate::game::{GameError, GameState, MoveResult};
use crate::tactical::{TacticalMap, TacticalTile};
use crate::types::{Direction, LocationId, ViewMode};
use crate::world::{WorldMap, WorldTerrain};

verus! {

/// Reading after a write on the world grid: an in-bounds write is read back
/// exactly at the written cell and nowhere else, and an out-of-bounds write
/// alters no cell.
pub proof fn lemma_world_get_after_set(
    pre: WorldMap,
    post: WorldMap,
    x: u32,
    y: u32,
    terrain: WorldTerrain,
)
    requires
        WorldMap::set_terrain_post(pre, post, x, y, terrain),
    ensures
        pre.in_bounds(x, y) ==> post.terrain_at(x, y) == terrain,
        forall|xx: u32, yy: u32|
            pre.in_bounds(xx, yy) && !(xx == x && yy == y) ==> #[trigger] post.terrain_at(xx, yy)
                == pre.terrain_at(xx, yy),
        post.width == pre.width,
        post.height == pre.height,
{
}

/// Reading after a write on a tactical grid: an in-bounds write is read back
/// exactly at the written cell and nowhere else, and an out-of-bounds write
/// alters no cell.
pub proof fn lemma_tactical_get_after_set(
    pre: TacticalMap,
    post: TacticalMap,
    x: u16,
    y: u16,
    tile: TacticalTile,
)
    requires
        TacticalMap::set_tile_post(pre, post, x, y, tile),
    ensures
        pre.in_bounds(x, y) ==> post.tile_at(x, y) == tile,
        forall|xx: u16, yy: u16|
            pre.in_bounds(xx, yy) && !(xx == x && yy == y) ==> #[trigger] post.tile_at(xx, yy)
                == pre.tile_at(xx, yy),
        post.width == pre.width,
        post.height == pre.height,
{
}

/// Fog of war only grows: after a reveal, every previously discovered tile is
/// still discovered, and every newly discovered tile lies on the grid and
/// within the Chebyshev radius of the revealed centre.
pub proof fn lemma_discover_monotonic(pre: WorldMap, post: WorldMap, x: u32, y: u32, radius: u32)
    requires
        WorldMap::discover_post(pre, post, x, y, radius),
    ensures
        forall|p: (u32, u32)| pre.is_discovered(p) ==> #[trigger] post.is_discovered(p),
        forall|p: (u32, u32)|
            #[trigger] post.is_discovered(p) && !pre.is_discovered(p) ==> {
                &&& p.0 < pre.width
                &&& p.1 < pre.height
                &&& x - radius <= p.0 <= x + radius
                &&& y - radius <= p.1 <= y + radius
            },
{
}

/// Revealing the same square twice changes nothing the second time: the
/// discovered list after the second call is exactly the list after the first.
pub proof fn lemma_discover_idempotent(
    m0: WorldMap,
    m1: WorldMap,
    m2: WorldMap,
    x: u32,
    y: u32,
    radius: u32,
)
    requires
        m1.wf(),
        m2.wf(),
        WorldMap::discover_post(m0, m1, x, y, radius),
        WorldMap::discover_post(m1, m2, x, y, radius),
    ensures
        m2.discovered_tiles@ == m1.discovered_tiles@,
{
    let s1 = m1.discovered_tiles@;
    let s2 = m2.discovered_tiles@;
    assert(s1.is_prefix_of(s2));
    if s2.len() > s1.len() {
        let e = s2[s1.len() as int];
        assert(s2.contains(e));
        assert(m2.is_discovered(e));
        if m1.discovers(x, y, radius, e) {
            assert(m0.discovers(x, y, radius, e));
            assert(m1.is_discovered(e));
        }
        assert(m1.is_discovered(e));
        let j = choose|j: int| 0 <= j < s1.len() && s1[j] == e;
        assert(s2.subrange(0, s1.len() as int) =~= s1);
        assert(s2[j] == e);
        assert(false);
    }
    assert(s2.subrange(0, s1.len() as int) =~= s1);
    assert(s2 =~= s1);
}

/// A world move never commits an impassable position: whenever the party's
/// world position changes, the new position is on the grid and passable.
/// (Coordinates are unsigned, so they cannot fall below zero at all.)
pub proof fn lemma_world_move_commits_passable(
    pre: GameState,
    post: GameState,
    dx: i32,
    dy: i32,
    r: Result<MoveResult, GameError>,
)
    requires
        GameState::world_move_post(pre, post, dx, dy, r),
    ensures
        post.party_world_position != pre.party_world_position ==> match post.party_world_position {
            Some(p) => pre.world_map.spec_is_passable(p.0, p.1),
            None => false,
        },
{
}

/// A move request with `dx = 1, dy = 0` in the world view leaves the party
/// facing east, whatever it faced before and whether or not the step was
/// blocked.
pub proof fn lemma_facing_east(
    pre: GameState,
    post: GameState,
    r: Result<MoveResult, GameError>,
)
    requires
        GameState::world_move_post(pre, post, 1i32, 0i32, r),
        pre.current_view == ViewMode::WorldMap,
        pre.party_world_position is Some,
    ensures
        post.party_facing == Direction::East,
{
}

/// A move request with `dx = 0, dy = 0` leaves the facing unchanged.
pub proof fn lemma_facing_unchanged(
    pre: GameState,
    post: GameState,
    r: Result<MoveResult, GameError>,
)
    requires
        GameState::world_move_post(pre, post, 0i32, 0i32, r),
    ensures
        post.party_facing == pre.party_facing,
{
}

/// Entering a location and immediately exiting to `(wx, wy)` restores the
/// world view with exactly that position, and leaves no tactical position
/// recorded.
pub proof fn lemma_enter_then_exit(
    s0: GameState,
    s1: GameState,
    s2: GameState,
    location_id: LocationId,
    wx: u32,
    wy: u32,
)
    requires
        GameState::enter_location_post(s0, s1, location_id, Ok(())),
        GameState::exit_to_world_post(s1, s2, wx, wy, Ok(())),
    ensures
        s2.current_view == ViewMode::WorldMap,
        s2.party_world_position == Some((wx, wy)),
        s2.party_tactical_positions@.len() == 0,
        s2.active_tactical_map is None,
{
}

} // verus!
