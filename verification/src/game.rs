//! The root aggregate: the whole game state, the movement validators for the
//! strategic and tactical scales, and the read-only snapshot handed to a
//! renderer.

use vstd::prelude::*;

use crate::character::{Character, Party};
use crate::tactical::{Exit, TacticalMap, TacticalTile};
use crate::types::{CharacterId, Direction, GameTime, LocationId, MapId, ViewMode};
use crate::world::{Location, WorldMap, WorldTerrain};

verus! {

/// Result of a movement attempt. `Blocked` is a legal no-op, not an error.
#[derive(Debug, Clone, Copy, PartialEq, Eq)]
pub enum MoveResult {
    Moved,
    Blocked,
    ArrivedAtLocation(LocationId),
    ReachedExit(Exit),
}

/// A character's position on the tactical map.
#[derive(Debug, Clone, Copy, PartialEq, Eq, Structural)]
pub struct CharacterPosition {
    pub id: CharacterId,
    pub x: u16,
    pub y: u16,
}

/// The ways an operation can be refused. A refused operation leaves the state
/// exactly as it was.
#[derive(Debug, Clone, Copy, PartialEq, Eq, Structural)]
pub enum GameError {
    WrongView,
    NoPosition,
    NoMap,
    InvalidLocation,
    SerializationError,
}

impl GameError {
    /// A short human-readable description of the error.
    pub fn message(&self) -> (s: &'static str)
        ensures
            *self is WrongView ==> s@ == "Action not available in current view"@,
            *self is NoPosition ==> s@ == "Party has no position"@,
            *self is NoMap ==> s@ == "No tactical map loaded"@,
            *self is InvalidLocation ==> s@ == "Invalid location"@,
            *self is SerializationError ==> s@ == "Serialization error"@,
    {
        match self {
            GameError::WrongView => "Action not available in current view",
            GameError::NoPosition => "Party has no position",
            GameError::NoMap => "No tactical map loaded",
            GameError::InvalidLocation => "Invalid location",
            GameError::SerializationError => "Serialization error",
        }
    }
}

/// The read-only snapshot handed to a renderer: one shape per view mode.
#[derive(Debug)]
pub enum ViewState {
    WorldMap {
        party_position: (u32, u32),
        party_facing: Direction,
        terrain: Vec<Vec<WorldTerrain>>,
        discovered: Vec<(u32, u32)>,
        locations: Vec<Location>,
        game_time: GameTime,
    },
    Tactical {
        map_name: String,
        map_width: u16,
        map_height: u16,
        tiles: Vec<Vec<TacticalTile>>,
        party_positions: Vec<CharacterPosition>,
        exits: Vec<Exit>,
        in_combat: bool,
    },
    Menu,
}

/// The complete game state. All mutation goes through its methods, one
/// command at a time.
#[derive(Debug)]
pub struct GameState {
    pub current_view: ViewMode,
    pub world_map: WorldMap,
    pub party_world_position: Option<(u32, u32)>,
    pub party_facing: Direction,
    pub active_tactical_map: Option<MapId>,
    pub tactical_maps: Vec<TacticalMap>,
    pub party_tactical_positions: Vec<(CharacterId, u16, u16)>,
    pub party: Party,
    pub characters: Vec<Character>,
    pub game_time: GameTime,
}

impl GameState {
    /// Structural invariant: every owned component is well formed, and every
    /// list keyed by an identifier holds each identifier at most once.
    pub open spec fn wf(&self) -> bool {
        &&& self.world_map.wf()
        &&& self.party.wf()
        &&& (forall|i: int|
            0 <= i < self.tactical_maps@.len() ==> (#[trigger] self.tactical_maps@[i]).wf())
        &&& (forall|i: int, j: int|
            0 <= i < self.tactical_maps@.len() && 0 <= j < self.tactical_maps@.len() && i != j
                ==> (#[trigger] self.tactical_maps@[i]).id != (#[trigger] self.tactical_maps@[j]).id)
        &&& (forall|i: int, j: int|
            0 <= i < self.characters@.len() && 0 <= j < self.characters@.len() && i != j
                ==> (#[trigger] self.characters@[i]).id != (#[trigger] self.characters@[j]).id)
        &&& (forall|i: int, j: int|
            0 <= i < self.party_tactical_positions@.len() && 0 <= j
                < self.party_tactical_positions@.len() && i != j
                ==> (#[trigger] self.party_tactical_positions@[i]).0
                != (#[trigger] self.party_tactical_positions@[j]).0)
    }

    /// Whether a tactical map with this id is registered.
    pub open spec fn has_tactical_map(&self, id: MapId) -> bool {
        exists|i: int|
            0 <= i < self.tactical_maps@.len() && (#[trigger] self.tactical_maps@[i]).id == id
    }

    /// The registered tactical map with this id (meaningful when
    /// `has_tactical_map(id)` holds; under `wf` there is at most one).
    pub open spec fn tactical_map_of(&self, id: MapId) -> TacticalMap {
        self.tactical_maps@[choose|i: int|
            0 <= i < self.tactical_maps@.len() && (#[trigger] self.tactical_maps@[i]).id == id]
    }

    /// A new game: an undiscovered all-plains world of the given size, the
    /// party standing at the origin facing south, no characters, no tactical
    /// maps, and the clock at eight in the morning of day zero.
    pub fn new(world_width: u32, world_height: u32) -> (s: GameState)
        ensures
            s.wf(),
            s.current_view == ViewMode::WorldMap,
            s.world_map.width == world_width,
            s.world_map.height == world_height,
            forall|x: u32, y: u32|
                s.world_map.in_bounds(x, y) ==> s.world_map.terrain_at(x, y)
                    == WorldTerrain::Plains,
            s.world_map.locations@.len() == 0,
            s.world_map.discovered_tiles@.len() == 0,
            s.party_world_position == Some((0u32, 0u32)),
            s.party_facing == Direction::South,
            s.active_tactical_map is None,
            s.tactical_maps@.len() == 0,
            s.party_tactical_positions@.len() == 0,
            s.party.wf(),
            s.party.members@.len() == 0,
            s.party.rations == 10,
            s.party.gold == 50,
            s.characters@.len() == 0,
            s.game_time.total_minutes == 480,
    {
        GameState {
            current_view: ViewMode::WorldMap,
            world_map: WorldMap::new(world_width, world_height),
            party_world_position: Some((0, 0)),
            party_facing: Direction::South,
            active_tactical_map: None,
            tactical_maps: Vec::new(),
            party_tactical_positions: Vec::new(),
            party: Party::new(),
            characters: Vec::new(),
            game_time: GameTime::default(),
        }
    }

    /// Register a character (overwriting one with the same id) and add it to
    /// the party roster.
    pub fn add_character(&mut self, character: Character)
        requires
            old(self).wf(),
            old(self).party.members@.contains(character.id) || old(self).party.members@.len()
                < 128,
        ensures
            final(self).wf(),
            final(self).current_view == old(self).current_view,
            final(self).world_map == old(self).world_map,
            final(self).party_world_position == old(self).party_world_position,
            final(self).party_facing == old(self).party_facing,
            final(self).active_tactical_map == old(self).active_tactical_map,
            final(self).tactical_maps == old(self).tactical_maps,
            final(self).party_tactical_positions == old(self).party_tactical_positions,
            final(self).game_time == old(self).game_time,
            forall|j: int|
                0 <= j < old(self).characters@.len() && (#[trigger] old(self).characters@[j]).id
                    == character.id ==> final(self).characters@ == old(self).characters@.update(
                    j,
                    character,
                ),
            (forall|j: int|
                0 <= j < old(self).characters@.len() ==> (#[trigger] old(self).characters@[j]).id
                    != character.id) ==> final(self).characters@ == old(self).characters@.push(
                character,
            ),
            old(self).party.members@.contains(character.id) ==> final(self).party == old(
                self,
            ).party,
            !old(self).party.members@.contains(character.id) ==> {
                &&& final(self).party.members@ == old(self).party.members@.push(character.id)
                &&& final(self).party.formation@ == old(self).party.formation@.push(
                    (character.id, old(self).party.members@.len() as i8, 0i8),
                )
                &&& final(self).party.rations == old(self).party.rations
                &&& final(self).party.gold == old(self).party.gold
            },
    {
        let id = character.id;
        let mut i: usize = 0;
        while i < self.characters.len()
            invariant
                old(self).wf(),
                *self == *old(self),
                id == character.id,
                old(self).party.members@.contains(character.id) || old(
                    self,
                ).party.members@.len() < 128,
                i <= self.characters@.len(),
                forall|j: int| 0 <= j < i ==> (#[trigger] self.characters@[j]).id != id,
            decreases self.characters@.len() - i,
        {
            if self.characters[i].id == id {
                proof {
                    assert(old(self).characters@[i as int].id == character.id);
                }
                self.place_character(character, i);
                return ;
            }
            i = i + 1;
        }
        self.characters.push(character);
        proof {
            assert forall|a: int, b: int|
                0 <= a < self.characters@.len() && 0 <= b < self.characters@.len() && a
                    != b implies (#[trigger] self.characters@[a]).id
                != (#[trigger] self.characters@[b]).id by {
                let n = old(self).characters@.len() as int;
                if a < n && b < n {
                    assert(old(self).characters@[a].id != old(self).characters@[b].id);
                } else if a == n {
                    assert(old(self).characters@[b].id != id);
                } else {
                    assert(old(self).characters@[a].id != id);
                }
            }
        }
        self.party.add_member(id);
    }

    /// Register a tactical map, overwriting any map with the same id.
    pub fn add_tactical_map(&mut self, map: TacticalMap)
        requires
            old(self).wf(),
            map.wf(),
        ensures
            final(self).wf(),
            final(self).current_view == old(self).current_view,
            final(self).world_map == old(self).world_map,
            final(self).party_world_position == old(self).party_world_position,
            final(self).party_facing == old(self).party_facing,
            final(self).active_tactical_map == old(self).active_tactical_map,
            final(self).party_tactical_positions == old(self).party_tactical_positions,
            final(self).party == old(self).party,
            final(self).characters == old(self).characters,
            final(self).game_time == old(self).game_time,
            forall|j: int|
                0 <= j < old(self).tactical_maps@.len() && (#[trigger] old(
                    self,
                ).tactical_maps@[j]).id == map.id ==> final(self).tactical_maps@ == old(
                    self,
                ).tactical_maps@.update(j, map),
            (forall|j: int|
                0 <= j < old(self).tactical_maps@.len() ==> (#[trigger] old(
                    self,
                ).tactical_maps@[j]).id != map.id) ==> final(self).tactical_maps@ == old(
                self,
            ).tactical_maps@.push(map),
            final(self).has_tactical_map(map.id),
    {
        let id = map.id;
        let mut i: usize = 0;
        while i < self.tactical_maps.len()
            invariant
                old(self).wf(),
                map.wf(),
                *self == *old(self),
                id == map.id,
                i <= self.tactical_maps@.len(),
                forall|j: int| 0 <= j < i ==> (#[trigger] self.tactical_maps@[j]).id != id,
            decreases self.tactical_maps@.len() - i,
        {
            if self.tactical_maps[i].id == id {
                proof {
                    assert(old(self).tactical_maps@[i as int].id == id);
                }
                self.tactical_maps[i] = map;
                proof {
                    assert forall|j: int|
                        0 <= j < old(self).tactical_maps@.len() && (#[trigger] old(
                            self,
                        ).tactical_maps@[j]).id == id implies j == i by {
                        if j != i {
                            assert(old(self).tactical_maps@[j].id != old(
                                self,
                            ).tactical_maps@[i as int].id);
                        }
                    }
                    assert forall|a: int, b: int|
                        0 <= a < self.tactical_maps@.len() && 0 <= b < self.tactical_maps@.len()
                            && a != b implies (#[trigger] self.tactical_maps@[a]).id
                        != (#[trigger] self.tactical_maps@[b]).id by {
                        assert(old(self).tactical_maps@[a].id != old(self).tactical_maps@[b].id);
                        assert(self.tactical_maps@[a].id == old(self).tactical_maps@[a].id);
                        assert(self.tactical_maps@[b].id == old(self).tactical_maps@[b].id);
                    }
                    assert(self.tactical_maps@[i as int].id == id);
                }
                return ;
            }
            i = i + 1;
        }
        self.tactical_maps.push(map);
        proof {
            assert forall|a: int, b: int|
                0 <= a < self.tactical_maps@.len() && 0 <= b < self.tactical_maps@.len() && a
                    != b implies (#[trigger] self.tactical_maps@[a]).id
                != (#[trigger] self.tactical_maps@[b]).id by {
                let n = old(self).tactical_maps@.len() as int;
                if a < n && b < n {
                    assert(old(self).tactical_maps@[a].id != old(self).tactical_maps@[b].id);
                } else if a == n {
                    assert(old(self).tactical_maps@[b].id != id);
                } else {
                    assert(old(self).tactical_maps@[a].id != id);
                }
            }
            assert(self.tactical_maps@[self.tactical_maps@.len() - 1].id == id);
        }
    }

    /// The facing that a move request leaves the party with: the sign of the
    /// horizontal intent wins, then the vertical; a standstill keeps the old
    /// facing.
    pub open spec fn facing_after(dx: i32, dy: i32, prev: Direction) -> Direction {
        if dx > 0 {
            Direction::East
        } else if dx < 0 {
            Direction::West
        } else if dy > 0 {
            Direction::South
        } else if dy < 0 {
            Direction::North
        } else {
            prev
        }
    }

    /// One coordinate after a step, clamped at zero on the lower side; no
    /// upper clamp is applied here (an off-grid destination simply fails the
    /// passability check).
    pub open spec fn clamped_step(c: u32, d: i32) -> int {
        if c + d < 0 {
            0
        } else {
            c + d
        }
    }

    /// Machine limits on a world move: the stepped coordinates stay within
    /// `i32`, and the clock cannot overflow.
    pub open spec fn world_move_allowed(&self, dx: i32, dy: i32) -> bool {
        self.current_view == ViewMode::WorldMap ==> match self.party_world_position {
            None => true,
            Some(p) => {
                &&& p.0 <= i32::MAX
                &&& p.1 <= i32::MAX
                &&& p.0 + dx <= i32::MAX
                &&& p.1 + dy <= i32::MAX
                &&& self.game_time.total_minutes + 150 <= u64::MAX
            },
        }
    }

    /// The movement result owed at `(x, y)`: arrival at the first location
    /// standing there, else a plain move.
    pub open spec fn arrival_result(m: WorldMap, x: u32, y: u32, r: Result<
        MoveResult,
        GameError,
    >) -> bool {
        if exists|i: int|
            0 <= i < m.locations@.len() && (#[trigger] m.locations@[i]).world_position == (x, y) {
            exists|i: int|
                0 <= i < m.locations@.len() && (#[trigger] m.locations@[i]).world_position == (x, y)
                    && (forall|j: int|
                    0 <= j < i ==> (#[trigger] m.locations@[j]).world_position != (x, y)) && r
                    == Ok::<MoveResult, GameError>(MoveResult::ArrivedAtLocation(m.locations@[i].id))
        } else {
            r == Ok::<MoveResult, GameError>(MoveResult::Moved)
        }
    }

    /// How a world-scale move call leaves the state, for every input: the
    /// errors owed outside the world view or without a position, the facing
    /// update, the block on impassable terrain, and on success the committed
    /// position, the fog-of-war reveal, the time cost, and the arrival check.
    pub open spec fn world_move_post(
        pre: GameState,
        post: GameState,
        dx: i32,
        dy: i32,
        r: Result<MoveResult, GameError>,
    ) -> bool {
        if pre.current_view != ViewMode::WorldMap {
            r == Err::<MoveResult, GameError>(GameError::WrongView) && post == pre
        } else {
            match pre.party_world_position {
                None => r == Err::<MoveResult, GameError>(GameError::NoPosition) && post == pre,
                Some(p) => {
                    let nx = Self::clamped_step(p.0, dx) as u32;
                    let ny = Self::clamped_step(p.1, dy) as u32;
                    &&& post.current_view == pre.current_view
                    &&& post.party_facing == Self::facing_after(dx, dy, pre.party_facing)
                    &&& post.active_tactical_map == pre.active_tactical_map
                    &&& post.tactical_maps == pre.tactical_maps
                    &&& post.party_tactical_positions == pre.party_tactical_positions
                    &&& post.party == pre.party
                    &&& post.characters == pre.characters
                    &&& if !pre.world_map.spec_is_passable(nx, ny) {
                        &&& r == Ok::<MoveResult, GameError>(MoveResult::Blocked)
                        &&& post.party_world_position == pre.party_world_position
                        &&& post.world_map == pre.world_map
                        &&& post.game_time == pre.game_time
                    } else {
                        &&& post.party_world_position == Some((nx, ny))
                        &&& WorldMap::discover_post(pre.world_map, post.world_map, nx, ny, 2)
                        &&& post.game_time.total_minutes == pre.game_time.total_minutes
                            + pre.world_map.terrain_at(nx, ny).spec_movement_minutes()
                        &&& Self::arrival_result(pre.world_map, nx, ny, r)
                    }
                },
            }
        }
    }

    /// Try to move the party on the world map. Facing follows the request
    /// even when the step is blocked; position, fog of war and the clock
    /// change only when the destination is passable.
    pub fn move_party_world(&mut self, dx: i32, dy: i32) -> (r: Result<MoveResult, GameError>)
        requires
            old(self).wf(),
            old(self).world_move_allowed(dx, dy),
        ensures
            final(self).wf(),
            GameState::world_move_post(*old(self), *final(self), dx, dy, r),
    {
        if self.current_view != ViewMode::WorldMap {
            return Err(GameError::WrongView);
        }
        let p = match self.party_world_position {
            Some(p) => p,
            None => { return Err(GameError::NoPosition); },
        };
        let nxi: i32 = p.0 as i32 + dx;
        let nyi: i32 = p.1 as i32 + dy;
        let nx: u32 = if nxi < 0 {
            0
        } else {
            nxi as u32
        };
        let ny: u32 = if nyi < 0 {
            0
        } else {
            nyi as u32
        };
        proof {
            assert(nx == Self::clamped_step(p.0, dx) as u32);
            assert(ny == Self::clamped_step(p.1, dy) as u32);
        }
        if dx > 0 {
            self.party_facing = Direction::East;
        } else if dx < 0 {
            self.party_facing = Direction::West;
        } else if dy > 0 {
            self.party_facing = Direction::South;
        } else if dy < 0 {
            self.party_facing = Direction::North;
        }
        let passable = self.world_map.is_passable(nx, ny);
        if !passable {
            return Ok(MoveResult::Blocked);
        }
        self.world_commit(nx, ny)
    }

    /// Commit an already-validated world move: record the position, reveal
    /// the surroundings, pay the travel time, and report any location reached
    /// (a helper for `move_party_world`).
    fn world_commit(&mut self, nx: u32, ny: u32) -> (r: Result<MoveResult, GameError>)
        requires
            old(self).wf(),
            old(self).world_map.spec_is_passable(nx, ny),
            old(self).game_time.total_minutes + 150 <= u64::MAX,
        ensures
            final(self).wf(),
            final(self).current_view == old(self).current_view,
            final(self).party_facing == old(self).party_facing,
            final(self).active_tactical_map == old(self).active_tactical_map,
            final(self).tactical_maps == old(self).tactical_maps,
            final(self).party_tactical_positions == old(self).party_tactical_positions,
            final(self).party == old(self).party,
            final(self).characters == old(self).characters,
            final(self).party_world_position == Some((nx, ny)),
            WorldMap::discover_post(old(self).world_map, final(self).world_map, nx, ny, 2),
            final(self).game_time.total_minutes == old(self).game_time.total_minutes + old(
                self,
            ).world_map.terrain_at(nx, ny).spec_movement_minutes(),
            GameState::arrival_result(old(self).world_map, nx, ny, r),
    {
        let terrain = match self.world_map.get_terrain(nx, ny) {
            Some(t) => t,
            // a passable destination is always on the grid
            None => vstd::pervasive::unreached(),
        };
        self.party_world_position = Some((nx, ny));
        self.world_map.discover_around(nx, ny, 2);
        self.game_time.advance_minutes(terrain.movement_minutes());
        match self.world_map.location_at(nx, ny) {
            Some(loc) => Ok(MoveResult::ArrivedAtLocation(loc.id)),
            None => Ok(MoveResult::Moved),
        }
    }

    /// How an insert-or-overwrite of one character's tactical position leaves
    /// the position list.
    pub open spec fn positions_upsert(
        pre: Seq<(CharacterId, u16, u16)>,
        post: Seq<(CharacterId, u16, u16)>,
        id: CharacterId,
        x: u16,
        y: u16,
    ) -> bool {
        &&& (forall|j: int|
            0 <= j < pre.len() && (#[trigger] pre[j]).0 == id ==> post == pre.update(
                j,
                (id, x, y),
            ))
        &&& ((forall|j: int| 0 <= j < pre.len() ==> (#[trigger] pre[j]).0 != id) ==> post
            == pre.push((id, x, y)))
    }

    /// The movement result owed at `(x, y)` on a tactical map: the first exit
    /// standing there, else a plain move.
    pub open spec fn exit_result(m: TacticalMap, x: u16, y: u16, r: Result<
        MoveResult,
        GameError,
    >) -> bool {
        if exists|i: int|
            0 <= i < m.exits@.len() && (#[trigger] m.exits@[i]).position == (x, y) {
            exists|i: int|
                0 <= i < m.exits@.len() && (#[trigger] m.exits@[i]).position == (x, y) && (forall|
                    j: int,
                |
                    0 <= j < i ==> (#[trigger] m.exits@[j]).position != (x, y)) && r == Ok::<
                    MoveResult,
                    GameError,
                >(MoveResult::ReachedExit(m.exits@[i]))
        } else {
            r == Ok::<MoveResult, GameError>(MoveResult::Moved)
        }
    }

    /// How a tactical-scale move call leaves the state, for every input: the
    /// errors owed outside the tactical views or without an active registered
    /// map, the block on impassable tiles, and on success the recorded
    /// position and the exit check.
    pub open spec fn tactical_move_post(
        pre: GameState,
        post: GameState,
        char_id: CharacterId,
        x: u16,
        y: u16,
        r: Result<MoveResult, GameError>,
    ) -> bool {
        if !(pre.current_view is TacticalExploration || pre.current_view is TacticalCombat) {
            r == Err::<MoveResult, GameError>(GameError::WrongView) && post == pre
        } else {
            match pre.active_tactical_map {
                None => r == Err::<MoveResult, GameError>(GameError::NoMap) && post == pre,
                Some(map_id) => {
                    if !pre.has_tactical_map(map_id) {
                        r == Err::<MoveResult, GameError>(GameError::NoMap) && post == pre
                    } else {
                        let m = pre.tactical_map_of(map_id);
                        if !m.spec_is_passable(x, y) {
                            r == Ok::<MoveResult, GameError>(MoveResult::Blocked) && post == pre
                        } else {
                            &&& post.current_view == pre.current_view
                            &&& post.world_map == pre.world_map
                            &&& post.party_world_position == pre.party_world_position
                            &&& post.party_facing == pre.party_facing
                            &&& post.active_tactical_map == pre.active_tactical_map
                            &&& post.tactical_maps == pre.tactical_maps
                            &&& post.party == pre.party
                            &&& post.characters == pre.characters
                            &&& post.game_time == pre.game_time
                            &&& GameState::positions_upsert(
                                pre.party_tactical_positions@,
                                post.party_tactical_positions@,
                                char_id,
                                x,
                                y,
                            )
                            &&& GameState::exit_result(m, x, y, r)
                        }
                    }
                },
            }
        }
    }

    /// Move a single character on the active tactical map. The position is
    /// recorded for the character independently of other members; reaching an
    /// exit is reported but not taken.
    pub fn move_character_tactical(&mut self, char_id: CharacterId, x: u16, y: u16) -> (r: Result<
        MoveResult,
        GameError,
    >)
        requires
            old(self).wf(),
        ensures
            final(self).wf(),
            GameState::tactical_move_post(*old(self), *final(self), char_id, x, y, r),
    {
        let in_tactical = matches!(
            self.current_view,
            ViewMode::TacticalExploration | ViewMode::TacticalCombat
        );
        if !in_tactical {
            return Err(GameError::WrongView);
        }
        let map_id = match self.active_tactical_map {
            Some(id) => id,
            None => { return Err(GameError::NoMap); },
        };
        let idx = match find_map_index(&self.tactical_maps, map_id) {
            Some(i) => i,
            None => { return Err(GameError::NoMap); },
        };
        proof {
            assert(self.has_tactical_map(map_id));
            let c = choose|k: int|
                0 <= k < self.tactical_maps@.len() && (#[trigger] self.tactical_maps@[k]).id
                    == map_id;
            if c != idx {
                assert(self.tactical_maps@[c].id != self.tactical_maps@[idx as int].id);
            }
            assert(self.tactical_map_of(map_id) == self.tactical_maps@[idx as int]);
        }
        if !self.tactical_maps[idx].is_passable(x, y) {
            return Ok(MoveResult::Blocked);
        }
        upsert_position(&mut self.party_tactical_positions, char_id, x, y);
        match self.tactical_maps[idx].exit_at(x, y) {
            Some(e) => Ok(MoveResult::ReachedExit(*e)),
            None => Ok(MoveResult::Moved),
        }
    }

    /// What a world-shape snapshot owes the renderer: the party position (or
    /// the origin when none is recorded), the facing, a copy of the terrain
    /// grid, the discovered set, the discovered locations only, and the
    /// clock.
    pub open spec fn world_view_ok(s: GameState, vs: ViewState) -> bool {
        vs matches ViewState::WorldMap {
            party_position,
            party_facing,
            terrain,
            discovered,
            locations,
            game_time,
        } && {
            &&& party_position == (match s.party_world_position {
                Some(p) => p,
                None => (0u32, 0u32),
            })
            &&& party_facing == s.party_facing
            &&& terrain.deep_view() == s.world_map.terrain.deep_view()
            &&& discovered@ == s.world_map.discovered_tiles@
            &&& locations.deep_view() == s.world_map.locations.deep_view().filter(
                |l: crate::world::LocationV| l.discovered,
            )
            &&& game_time == s.game_time
        }
    }

    /// What a tactical-shape snapshot owes the renderer: the active map's
    /// name, dimensions, tile grid and exits (empty when no registered map is
    /// active), every recorded character position, and the combat flag.
    pub open spec fn tactical_view_ok(s: GameState, vs: ViewState) -> bool {
        vs matches ViewState::Tactical {
            map_name,
            map_width,
            map_height,
            tiles,
            party_positions,
            exits,
            in_combat,
        } && {
            &&& party_positions@.len() == s.party_tactical_positions@.len()
            &&& (forall|i: int|
                0 <= i < party_positions@.len() ==> {
                    let cp = #[trigger] party_positions@[i];
                    (cp.id, cp.x, cp.y) == s.party_tactical_positions@[i]
                })
            &&& in_combat == (s.current_view is TacticalCombat)
            &&& match s.active_tactical_map {
                Some(id) => if s.has_tactical_map(id) {
                    let m = s.tactical_map_of(id);
                    &&& map_name@ == m.name@
                    &&& map_width == m.width
                    &&& map_height == m.height
                    &&& tiles.deep_view() == m.tiles.deep_view()
                    &&& exits@ == m.exits@
                } else {
                    &&& map_name@.len() == 0
                    &&& map_width == 0
                    &&& map_height == 0
                    &&& tiles@.len() == 0
                    &&& exits@.len() == 0
                },
                None => {
                    &&& map_name@.len() == 0
                    &&& map_width == 0
                    &&& map_height == 0
                    &&& tiles@.len() == 0
                    &&& exits@.len() == 0
                },
            }
        }
    }

    /// A read-only snapshot of what the current view shows; the state itself
    /// is untouched.
    pub fn get_view_state(&self) -> (vs: ViewState)
        requires
            self.wf(),
        ensures
            self.current_view == ViewMode::Menu ==> vs is Menu,
            self.current_view == ViewMode::WorldMap ==> GameState::world_view_ok(*self, vs),
            (self.current_view is TacticalExploration || self.current_view is TacticalCombat)
                ==> GameState::tactical_view_ok(*self, vs),
    {
        match self.current_view {
            ViewMode::WorldMap => self.world_snapshot(),
            ViewMode::TacticalExploration => self.tactical_snapshot(),
            ViewMode::TacticalCombat => self.tactical_snapshot(),
            ViewMode::Menu => ViewState::Menu,
        }
    }

    /// Build the world-shape snapshot (a helper for `get_view_state`).
    fn world_snapshot(&self) -> (vs: ViewState)
        requires
            self.wf(),
            self.current_view == ViewMode::WorldMap,
        ensures
            GameState::world_view_ok(*self, vs),
    {
        let party_position = match self.party_world_position {
            Some(p) => p,
            None => (0, 0),
        };
        ViewState::WorldMap {
            party_position,
            party_facing: self.party_facing,
            terrain: clone_terrain_grid(&self.world_map.terrain),
            discovered: clone_coords(&self.world_map.discovered_tiles),
            locations: discovered_locations(&self.world_map.locations),
            game_time: self.game_time,
        }
    }

    /// Build the tactical-shape snapshot (a helper for `get_view_state`).
    fn tactical_snapshot(&self) -> (vs: ViewState)
        requires
            self.wf(),
            self.current_view is TacticalExploration || self.current_view is TacticalCombat,
        ensures
            GameState::tactical_view_ok(*self, vs),
    {
        let in_combat = matches!(self.current_view, ViewMode::TacticalCombat);
        let party_positions = positions_snapshot(&self.party_tactical_positions);
        let map_idx = match self.active_tactical_map {
            Some(id) => find_map_index(&self.tactical_maps, id),
            None => None,
        };
        match map_idx {
            Some(idx) => {
                proof {
                    let id = self.active_tactical_map->0;
                    assert(self.has_tactical_map(id));
                    let c = choose|k: int|
                        0 <= k < self.tactical_maps@.len() && (#[trigger] self.tactical_maps@[k]).id
                            == id;
                    if c != idx {
                        assert(self.tactical_maps@[c].id != self.tactical_maps@[idx as int].id);
                    }
                    assert(self.tactical_map_of(id) == self.tactical_maps@[idx as int]);
                }
                let m = &self.tactical_maps[idx];
                ViewState::Tactical {
                    map_name: m.name.clone(),
                    map_width: m.width,
                    map_height: m.height,
                    tiles: clone_tile_grid(&m.tiles),
                    party_positions,
                    exits: clone_exits(&m.exits),
                    in_combat,
                }
            },
            None => ViewState::Tactical {
                map_name: String::new(),
                map_width: 0,
                map_height: 0,
                tiles: Vec::new(),
                party_positions,
                exits: Vec::new(),
                in_combat,
            },
        }
    }

    /// Overwrite the character slot at `i` (a helper for `add_character`).
    fn place_character(&mut self, character: Character, i: usize)
        requires
            old(self).wf(),
            i < old(self).characters@.len(),
            old(self).characters@[i as int].id == character.id,
            old(self).party.members@.contains(character.id) || old(self).party.members@.len()
                < 128,
        ensures
            final(self).wf(),
            final(self).current_view == old(self).current_view,
            final(self).world_map == old(self).world_map,
            final(self).party_world_position == old(self).party_world_position,
            final(self).party_facing == old(self).party_facing,
            final(self).active_tactical_map == old(self).active_tactical_map,
            final(self).tactical_maps == old(self).tactical_maps,
            final(self).party_tactical_positions == old(self).party_tactical_positions,
            final(self).game_time == old(self).game_time,
            forall|j: int|
                0 <= j < old(self).characters@.len() && (#[trigger] old(self).characters@[j]).id
                    == character.id ==> final(self).characters@ == old(self).characters@.update(
                    j,
                    character,
                ),
            old(self).party.members@.contains(character.id) ==> final(self).party == old(
                self,
            ).party,
            !old(self).party.members@.contains(character.id) ==> {
                &&& final(self).party.members@ == old(self).party.members@.push(character.id)
                &&& final(self).party.formation@ == old(self).party.formation@.push(
                    (character.id, old(self).party.members@.len() as i8, 0i8),
                )
                &&& final(self).party.rations == old(self).party.rations
                &&& final(self).party.gold == old(self).party.gold
            },
    {
        let id = character.id;
        self.characters[i] = character;
        proof {
            assert forall|j: int|
                0 <= j < old(self).characters@.len() && (#[trigger] old(self).characters@[j]).id
                    == id implies j == i by {
                if j != i {
                    assert(old(self).characters@[j].id != old(self).characters@[i as int].id);
                }
            }
            assert forall|a: int, b: int|
                0 <= a < self.characters@.len() && 0 <= b < self.characters@.len() && a
                    != b implies (#[trigger] self.characters@[a]).id
                != (#[trigger] self.characters@[b]).id by {
                assert(old(self).characters@[a].id != old(self).characters@[b].id);
                assert(self.characters@[a].id == old(self).characters@[a].id);
                assert(self.characters@[b].id == old(self).characters@[b].id);
            }
        }
        self.party.add_member(id);
    }
}

/// The index of the registered map with this id, by linear scan.
pub(crate) fn find_map_index(maps: &Vec<TacticalMap>, id: MapId) -> (r: Option<usize>)
    ensures
        match r {
            Some(i) => i < maps@.len() && maps@[i as int].id == id,
            None => forall|i: int| 0 <= i < maps@.len() ==> (#[trigger] maps@[i]).id != id,
        },
{
    let mut i: usize = 0;
    while i < maps.len()
        invariant
            i <= maps@.len(),
            forall|j: int| 0 <= j < i ==> (#[trigger] maps@[j]).id != id,
        decreases maps@.len() - i,
    {
        if maps[i].id == id {
            return Some(i);
        }
        i = i + 1;
    }
    None
}

/// Insert or overwrite one character's recorded tactical position.
fn upsert_position(v: &mut Vec<(CharacterId, u16, u16)>, id: CharacterId, x: u16, y: u16)
    requires
        forall|i: int, j: int|
            0 <= i < old(v)@.len() && 0 <= j < old(v)@.len() && i != j ==> (#[trigger] old(
                v,
            )@[i]).0 != (#[trigger] old(v)@[j]).0,
    ensures
        forall|i: int, j: int|
            0 <= i < final(v)@.len() && 0 <= j < final(v)@.len() && i != j
                ==> (#[trigger] final(v)@[i]).0 != (#[trigger] final(v)@[j]).0,
        GameState::positions_upsert(old(v)@, final(v)@, id, x, y),
{
    let ghost uniq = old(v)@;
    let mut i: usize = 0;
    while i < v.len()
        invariant
            *v == *old(v),
            forall|a: int, b: int|
                0 <= a < old(v)@.len() && 0 <= b < old(v)@.len() && a != b ==> (#[trigger] old(
                    v,
                )@[a]).0 != (#[trigger] old(v)@[b]).0,
            i <= v@.len(),
            forall|j: int| 0 <= j < i ==> (#[trigger] v@[j]).0 != id,
        decreases v@.len() - i,
    {
        if v[i].0 == id {
            proof {
                assert(old(v)@[i as int].0 == id);
            }
            v[i] = (id, x, y);
            proof {
                assert forall|j: int|
                    0 <= j < old(v)@.len() && (#[trigger] old(v)@[j]).0 == id implies j
                    == i by {
                    if j != i {
                        assert(old(v)@[j].0 != old(v)@[i as int].0);
                    }
                }
                assert forall|a: int, b: int|
                    0 <= a < v@.len() && 0 <= b < v@.len() && a != b implies (#[trigger] v@[a]).0
                    != (#[trigger] v@[b]).0 by {
                    assert(old(v)@[a].0 != old(v)@[b].0);
                    assert(v@[a].0 == old(v)@[a].0);
                    assert(v@[b].0 == old(v)@[b].0);
                }
            }
            return ;
        }
        i = i + 1;
    }
    v.push((id, x, y));
    proof {
        assert forall|a: int, b: int|
            0 <= a < v@.len() && 0 <= b < v@.len() && a != b implies (#[trigger] v@[a]).0
            != (#[trigger] v@[b]).0 by {
            let n = old(v)@.len() as int;
            if a < n && b < n {
                assert(old(v)@[a].0 != old(v)@[b].0);
            } else if a == n {
                assert(old(v)@[b].0 != id);
            } else {
                assert(old(v)@[a].0 != id);
            }
        }
    }
}

/// Copies the discovered-tile list element by element.
fn clone_coords(v: &Vec<(u32, u32)>) -> (r: Vec<(u32, u32)>)
    ensures
        r@ == v@,
{
    let mut r: Vec<(u32, u32)> = Vec::new();
    let mut i: usize = 0;
    while i < v.len()
        invariant
            i <= v@.len(),
            r@ == v@.take(i as int),
        decreases v@.len() - i,
    {
        r.push(v[i]);
        proof {
            assert(v@.take(i + 1) =~= v@.take(i as int).push(v@[i as int]));
        }
        i = i + 1;
    }
    proof {
        assert(v@.take(v@.len() as int) =~= v@);
    }
    r
}

/// Copies the exit list element by element.
fn clone_exits(v: &Vec<Exit>) -> (r: Vec<Exit>)
    ensures
        r@ == v@,
{
    let mut r: Vec<Exit> = Vec::new();
    let mut i: usize = 0;
    while i < v.len()
        invariant
            i <= v@.len(),
            r@ == v@.take(i as int),
        decreases v@.len() - i,
    {
        r.push(v[i]);
        proof {
            assert(v@.take(i + 1) =~= v@.take(i as int).push(v@[i as int]));
        }
        i = i + 1;
    }
    proof {
        assert(v@.take(v@.len() as int) =~= v@);
    }
    r
}

/// Copies one row of the world terrain grid.
fn clone_terrain_row(v: &Vec<WorldTerrain>) -> (r: Vec<WorldTerrain>)
    ensures
        r@ == v@,
{
    let mut r: Vec<WorldTerrain> = Vec::new();
    let mut i: usize = 0;
    while i < v.len()
        invariant
            i <= v@.len(),
            r@ == v@.take(i as int),
        decreases v@.len() - i,
    {
        r.push(v[i]);
        proof {
            assert(v@.take(i + 1) =~= v@.take(i as int).push(v@[i as int]));
        }
        i = i + 1;
    }
    proof {
        assert(v@.take(v@.len() as int) =~= v@);
    }
    r
}

/// Copies the world terrain grid row by row.
fn clone_terrain_grid(v: &Vec<Vec<WorldTerrain>>) -> (r: Vec<Vec<WorldTerrain>>)
    ensures
        r.deep_view() == v.deep_view(),
{
    let mut r: Vec<Vec<WorldTerrain>> = Vec::new();
    let mut i: usize = 0;
    while i < v.len()
        invariant
            i <= v@.len(),
            r@.len() == i,
            forall|k: int| 0 <= k < i ==> #[trigger] r@[k]@ == v@[k]@,
        decreases v@.len() - i,
    {
        r.push(clone_terrain_row(&v[i]));
        i = i + 1;
    }
    proof {
        assert forall|k: int| 0 <= k < r@.len() implies #[trigger] r.deep_view()[k]
            == v.deep_view()[k] by {
            assert(r@[k].deep_view() =~= v@[k].deep_view());
        }
        assert(r.deep_view() =~= v.deep_view());
    }
    r
}

/// Copies one row of a tactical tile grid, tile by tile.
fn clone_tile_row(v: &Vec<TacticalTile>) -> (r: Vec<TacticalTile>)
    ensures
        r@.len() == v@.len(),
        forall|k: int| 0 <= k < v@.len() ==> #[trigger] r@[k]@ == v@[k]@,
{
    let mut r: Vec<TacticalTile> = Vec::new();
    let mut i: usize = 0;
    while i < v.len()
        invariant
            i <= v@.len(),
            r@.len() == i,
            forall|k: int| 0 <= k < i ==> #[trigger] r@[k]@ == v@[k]@,
        decreases v@.len() - i,
    {
        r.push(v[i].clone());
        i = i + 1;
    }
    r
}

/// Copies a tactical tile grid row by row.
fn clone_tile_grid(v: &Vec<Vec<TacticalTile>>) -> (r: Vec<Vec<TacticalTile>>)
    ensures
        r.deep_view() == v.deep_view(),
{
    let mut r: Vec<Vec<TacticalTile>> = Vec::new();
    let mut i: usize = 0;
    while i < v.len()
        invariant
            i <= v@.len(),
            r@.len() == i,
            forall|k: int| 0 <= k < i ==> #[trigger] r@[k].deep_view() == v@[k].deep_view(),
        decreases v@.len() - i,
    {
        let row = clone_tile_row(&v[i]);
        proof {
            assert forall|l: int| 0 <= l < row@.len() implies #[trigger] row.deep_view()[l]
                == v@[i as int].deep_view()[l] by {
                assert(row@[l]@ == v@[i as int]@[l]@);
            }
            assert(row.deep_view() =~= v@[i as int].deep_view());
        }
        r.push(row);
        i = i + 1;
    }
    proof {
        assert(r.deep_view() =~= v.deep_view());
    }
    r
}

/// The discovered locations only, in their registered order.
fn discovered_locations(v: &Vec<Location>) -> (r: Vec<Location>)
    ensures
        r.deep_view() == v.deep_view().filter(|l: crate::world::LocationV| l.discovered),
{
    let ghost pred = |l: crate::world::LocationV| l.discovered;
    let ghost dv = v.deep_view();
    let mut r: Vec<Location> = Vec::new();
    let mut i: usize = 0;
    proof {
        reveal(Seq::filter);
        assert(dv.take(0).filter(pred) =~= Seq::<crate::world::LocationV>::empty());
        assert(r.deep_view() =~= Seq::<crate::world::LocationV>::empty());
    }
    while i < v.len()
        invariant
            i <= v@.len(),
            dv == v.deep_view(),
            forall|l: crate::world::LocationV| #[trigger] pred(l) == l.discovered,
            r.deep_view() == dv.take(i as int).filter(pred),
        decreases v@.len() - i,
    {
        let ghost r_pre = r.deep_view();
        if v[i].discovered {
            r.push(v[i].clone());
            proof {
                assert(r.deep_view() =~= r_pre.push(dv[i as int]));
            }
        }
        proof {
            reveal_with_fuel(Seq::filter, 2);
            assert(dv.take(i + 1).len() == i + 1);
            assert(dv.take(i + 1).drop_last() =~= dv.take(i as int));
            assert(dv.take(i + 1).last() == dv[i as int]);
            assert(pred(dv[i as int]) == v@[i as int].discovered);
            assert(r.deep_view() =~= dv.take(i + 1).filter(pred));
        }
        i = i + 1;
    }
    proof {
        assert(dv.take(v@.len() as int) =~= dv);
    }
    r
}

/// The recorded tactical positions as renderer records, in order.
fn positions_snapshot(v: &Vec<(CharacterId, u16, u16)>) -> (r: Vec<CharacterPosition>)
    ensures
        r@.len() == v@.len(),
        forall|i: int|
            0 <= i < v@.len() ==> {
                let cp = #[trigger] r@[i];
                (cp.id, cp.x, cp.y) == v@[i]
            },
{
    let mut r: Vec<CharacterPosition> = Vec::new();
    let mut i: usize = 0;
    while i < v.len()
        invariant
            i <= v@.len(),
            r@.len() == i,
            forall|j: int|
                0 <= j < i ==> {
                    let cp = #[trigger] r@[j];
                    (cp.id, cp.x, cp.y) == v@[j]
                },
        decreases v@.len() - i,
    {
        let p = v[i];
        r.push(CharacterPosition { id: p.0, x: p.1, y: p.2 });
        i = i + 1;
    }
    r
}

} // verus!
