//! The view-transition engine: entering a location's tactical map, exiting
//! back to the world, moving between tactical maps, and exit-tile dispatch.

use vstd::prelude::*;

use crate::game::{find_map_index, GameError, GameState};
use crate::tactical::{Exit, ExitDestination, TacticalMap};
use crate::types::{CharacterId, LocationId, MapId, ViewMode};
use crate::world::find_location_index;

verus! {

impl GameState {
    /// The spawn point owed to the member at roster index `i` on entering a
    /// map: the `i`-th spawn point while they last, then the first spawn
    /// point pushed `i` tiles east.
    pub open spec fn assigned_spawn(m: TacticalMap, i: int) -> (u16, u16) {
        if i < m.spawn_points@.len() {
            m.spawn_points@[i]
        } else {
            ((m.spawn_points@[0].0 + i) as u16, m.spawn_points@[0].1)
        }
    }

    /// The machine limit on entry spawn assignment: when members outnumber
    /// spawn points, the eastward offsets must stay within `u16`.
    pub open spec fn spawn_offsets_fit(m: TacticalMap, members: Seq<CharacterId>) -> bool {
        m.spawn_points@.len() > 0 && members.len() > m.spawn_points@.len()
            ==> m.spawn_points@[0].0 + members.len() - 1 <= u16::MAX
    }

    /// How entering a map assigns tactical positions: nothing without spawn
    /// points, else one entry per member in roster order.
    pub open spec fn spawn_assignment(
        m: TacticalMap,
        members: Seq<CharacterId>,
        positions: Seq<(CharacterId, u16, u16)>,
    ) -> bool {
        if m.spawn_points@.len() == 0 {
            positions.len() == 0
        } else {
            &&& positions.len() == members.len()
            &&& (forall|i: int|
                0 <= i < members.len() ==> #[trigger] positions[i] == (
                    members[i],
                    Self::assigned_spawn(m, i).0,
                    Self::assigned_spawn(m, i).1,
                ))
        }
    }

    /// The machine limits on `enter_location`: where the call would assign
    /// offset spawn points, those offsets stay within `u16`.
    pub open spec fn enter_args_ok(&self, location_id: LocationId) -> bool {
        (self.current_view == ViewMode::WorldMap && self.world_map.has_location(location_id))
            ==> match self.world_map.location_of(location_id).tactical_map_id {
            None => true,
            Some(map_id) => self.has_tactical_map(map_id) ==> Self::spawn_offsets_fit(
                self.tactical_map_of(map_id),
                self.party.members@,
            ),
        }
    }

    /// How `enter_location` leaves the state, for every input: the errors
    /// owed outside the world view, for an unknown location, and for a
    /// location without a registered tactical map; on success the spawn
    /// assignment, the activated map, and the cleared world position.
    pub open spec fn enter_location_post(
        pre: GameState,
        post: GameState,
        location_id: LocationId,
        r: Result<(), GameError>,
    ) -> bool {
        if pre.current_view != ViewMode::WorldMap {
            r == Err::<(), GameError>(GameError::WrongView) && post == pre
        } else if !pre.world_map.has_location(location_id) {
            r == Err::<(), GameError>(GameError::InvalidLocation) && post == pre
        } else {
            match pre.world_map.location_of(location_id).tactical_map_id {
                None => r == Err::<(), GameError>(GameError::NoMap) && post == pre,
                Some(map_id) => {
                    if !pre.has_tactical_map(map_id) {
                        r == Err::<(), GameError>(GameError::NoMap) && post == pre
                    } else {
                        &&& r == Ok::<(), GameError>(())
                        &&& post.current_view == ViewMode::TacticalExploration
                        &&& post.active_tactical_map == Some(map_id)
                        &&& post.party_world_position is None
                        &&& Self::spawn_assignment(
                            pre.tactical_map_of(map_id),
                            pre.party.members@,
                            post.party_tactical_positions@,
                        )
                        &&& post.world_map == pre.world_map
                        &&& post.party_facing == pre.party_facing
                        &&& post.tactical_maps == pre.tactical_maps
                        &&& post.party == pre.party
                        &&& post.characters == pre.characters
                        &&& post.game_time == pre.game_time
                    }
                },
            }
        }
    }

    /// Transition from the world map into a location's tactical map, placing
    /// the party on its spawn points in roster order.
    pub fn enter_location(&mut self, location_id: LocationId) -> (r: Result<(), GameError>)
        requires
            old(self).wf(),
            old(self).enter_args_ok(location_id),
        ensures
            final(self).wf(),
            GameState::enter_location_post(*old(self), *final(self), location_id, r),
    {
        if self.current_view != ViewMode::WorldMap {
            return Err(GameError::WrongView);
        }
        let loc_idx = match find_location_index(&self.world_map.locations, location_id) {
            Some(i) => i,
            None => { return Err(GameError::InvalidLocation); },
        };
        proof {
            assert(self.world_map.has_location(location_id));
            let c = choose|k: int|
                0 <= k < self.world_map.locations@.len() && (#[trigger] self.world_map.locations@[k]).id
                    == location_id;
            if c != loc_idx {
                assert(self.world_map.locations@[c].id != self.world_map.locations@[loc_idx as int].id);
            }
            assert(self.world_map.location_of(location_id) == self.world_map.locations@[loc_idx as int]);
        }
        let map_id = match self.world_map.locations[loc_idx].tactical_map_id {
            Some(id) => id,
            None => { return Err(GameError::NoMap); },
        };
        let map_idx = match find_map_index(&self.tactical_maps, map_id) {
            Some(i) => i,
            None => { return Err(GameError::NoMap); },
        };
        proof {
            assert(self.has_tactical_map(map_id));
            let c = choose|k: int|
                0 <= k < self.tactical_maps@.len() && (#[trigger] self.tactical_maps@[k]).id
                    == map_id;
            if c != map_idx {
                assert(self.tactical_maps@[c].id != self.tactical_maps@[map_idx as int].id);
            }
            assert(self.tactical_map_of(map_id) == self.tactical_maps@[map_idx as int]);
        }
        let ghost m = self.tactical_maps@[map_idx as int];
        self.party_tactical_positions = Vec::new();
        if self.tactical_maps[map_idx].spawn_points.len() > 0 {
            let mut i: usize = 0;
            while i < self.party.members.len()
                invariant
                    old(self).wf(),
                    i <= self.party.members@.len(),
                    self.current_view == old(self).current_view,
                    self.world_map == old(self).world_map,
                    self.party_world_position == old(self).party_world_position,
                    self.party_facing == old(self).party_facing,
                    self.active_tactical_map == old(self).active_tactical_map,
                    self.tactical_maps == old(self).tactical_maps,
                    self.party == old(self).party,
                    self.characters == old(self).characters,
                    self.game_time == old(self).game_time,
                    map_idx < self.tactical_maps@.len(),
                    m == self.tactical_maps@[map_idx as int],
                    m.spawn_points@.len() > 0,
                    GameState::spawn_offsets_fit(m, self.party.members@),
                    self.party_tactical_positions@.len() == i,
                    forall|j: int|
                        0 <= j < i ==> #[trigger] self.party_tactical_positions@[j] == (
                            old(self).party.members@[j],
                            GameState::assigned_spawn(m, j).0,
                            GameState::assigned_spawn(m, j).1,
                        ),
                decreases self.party.members@.len() - i,
            {
                let char_id = self.party.members[i];
                let spawn_count = self.tactical_maps[map_idx].spawn_points.len();
                let pos: (u16, u16) = if i < spawn_count {
                    self.tactical_maps[map_idx].spawn_points[i]
                } else {
                    let first = self.tactical_maps[map_idx].spawn_points[0];
                    proof {
                        assert(first.0 + i <= u16::MAX);
                    }
                    (first.0 + i as u16, first.1)
                };
                self.party_tactical_positions.push((char_id, pos.0, pos.1));
                i = i + 1;
            }
        }
        self.active_tactical_map = Some(map_id);
        self.party_world_position = None;
        self.current_view = ViewMode::TacticalExploration;
        proof {
            assert forall|a: int, b: int|
                0 <= a < self.party_tactical_positions@.len() && 0 <= b
                    < self.party_tactical_positions@.len() && a != b implies (
            #[trigger] self.party_tactical_positions@[a]).0
                != (#[trigger] self.party_tactical_positions@[b]).0 by {
                if self.party_tactical_positions@.len() > 0 {
                    assert(self.party_tactical_positions@[a].0 == old(self).party.members@[a]);
                    assert(self.party_tactical_positions@[b].0 == old(self).party.members@[b]);
                    assert(old(self).party.members@[a] != old(self).party.members@[b]);
                }
            }
        }
        Ok(())
    }

    /// How `exit_to_world` leaves the state, for every input: the error owed
    /// outside the tactical views; on success the world view with the given
    /// position taken verbatim, and all tactical state cleared.
    pub open spec fn exit_to_world_post(
        pre: GameState,
        post: GameState,
        world_x: u32,
        world_y: u32,
        r: Result<(), GameError>,
    ) -> bool {
        if !(pre.current_view is TacticalExploration || pre.current_view is TacticalCombat) {
            r == Err::<(), GameError>(GameError::WrongView) && post == pre
        } else {
            &&& r == Ok::<(), GameError>(())
            &&& post.current_view == ViewMode::WorldMap
            &&& post.party_world_position == Some((world_x, world_y))
            &&& post.party_tactical_positions@.len() == 0
            &&& post.active_tactical_map is None
            &&& post.world_map == pre.world_map
            &&& post.party_facing == pre.party_facing
            &&& post.tactical_maps == pre.tactical_maps
            &&& post.party == pre.party
            &&& post.characters == pre.characters
            &&& post.game_time == pre.game_time
        }
    }

    /// Transition from a tactical map back to the world map. The given world
    /// position is taken verbatim: no bounds or passability check applies at
    /// this layer.
    pub fn exit_to_world(&mut self, world_x: u32, world_y: u32) -> (r: Result<(), GameError>)
        requires
            old(self).wf(),
        ensures
            final(self).wf(),
            GameState::exit_to_world_post(*old(self), *final(self), world_x, world_y, r),
    {
        let in_tactical = matches!(
            self.current_view,
            ViewMode::TacticalExploration | ViewMode::TacticalCombat
        );
        if !in_tactical {
            return Err(GameError::WrongView);
        }
        self.party_tactical_positions = Vec::new();
        self.active_tactical_map = None;
        self.party_world_position = Some((world_x, world_y));
        self.current_view = ViewMode::WorldMap;
        Ok(())
    }

    /// The position owed to the member at roster index `i` when moving
    /// between tactical maps: `i` tiles east of the requested spawn where
    /// that tile is passable, else the requested spawn itself.
    pub open spec fn transition_spawn(m: TacticalMap, spawn_x: u16, spawn_y: u16, i: int) -> (
        u16,
        u16,
    ) {
        let cx = (spawn_x + i) as u16;
        if m.spec_is_passable(cx, spawn_y) {
            (cx, spawn_y)
        } else {
            (spawn_x, spawn_y)
        }
    }

    /// The machine limit on `transition_tactical`: the eastward candidate
    /// offsets stay within `u16`.
    pub open spec fn transition_args_ok(&self, next_map_id: MapId, spawn_x: u16) -> bool {
        ((self.current_view is TacticalExploration || self.current_view is TacticalCombat)
            && self.has_tactical_map(next_map_id)) ==> (self.party.members@.len() == 0 || spawn_x
            + self.party.members@.len() - 1 <= u16::MAX)
    }

    /// How `transition_tactical` leaves the state, for every input: the
    /// errors owed outside the tactical views or for an unknown map; on
    /// success one position per member in roster order, each falling back to
    /// the requested spawn when its offset tile is impassable.
    pub open spec fn transition_tactical_post(
        pre: GameState,
        post: GameState,
        next_map_id: MapId,
        spawn_x: u16,
        spawn_y: u16,
        r: Result<(), GameError>,
    ) -> bool {
        if !(pre.current_view is TacticalExploration || pre.current_view is TacticalCombat) {
            r == Err::<(), GameError>(GameError::WrongView) && post == pre
        } else if !pre.has_tactical_map(next_map_id) {
            r == Err::<(), GameError>(GameError::NoMap) && post == pre
        } else {
            let m = pre.tactical_map_of(next_map_id);
            &&& r == Ok::<(), GameError>(())
            &&& post.current_view == ViewMode::TacticalExploration
            &&& post.active_tactical_map == Some(next_map_id)
            &&& post.party_tactical_positions@.len() == pre.party.members@.len()
            &&& (forall|i: int|
                0 <= i < pre.party.members@.len() ==> #[trigger] post.party_tactical_positions@[i]
                    == (
                    pre.party.members@[i],
                    Self::transition_spawn(m, spawn_x, spawn_y, i).0,
                    Self::transition_spawn(m, spawn_x, spawn_y, i).1,
                ))
            &&& post.world_map == pre.world_map
            &&& post.party_world_position == pre.party_world_position
            &&& post.party_facing == pre.party_facing
            &&& post.tactical_maps == pre.tactical_maps
            &&& post.party == pre.party
            &&& post.characters == pre.characters
            &&& post.game_time == pre.game_time
        }
    }

    /// Transition between tactical maps, repositioning the party around the
    /// requested spawn tile.
    pub fn transition_tactical(&mut self, next_map_id: MapId, spawn_x: u16, spawn_y: u16) -> (r:
        Result<(), GameError>)
        requires
            old(self).wf(),
            old(self).transition_args_ok(next_map_id, spawn_x),
        ensures
            final(self).wf(),
            GameState::transition_tactical_post(
                *old(self),
                *final(self),
                next_map_id,
                spawn_x,
                spawn_y,
                r,
            ),
    {
        let in_tactical = matches!(
            self.current_view,
            ViewMode::TacticalExploration | ViewMode::TacticalCombat
        );
        if !in_tactical {
            return Err(GameError::WrongView);
        }
        let map_idx = match find_map_index(&self.tactical_maps, next_map_id) {
            Some(i) => i,
            None => { return Err(GameError::NoMap); },
        };
        proof {
            assert(self.has_tactical_map(next_map_id));
            let c = choose|k: int|
                0 <= k < self.tactical_maps@.len() && (#[trigger] self.tactical_maps@[k]).id
                    == next_map_id;
            if c != map_idx {
                assert(self.tactical_maps@[c].id != self.tactical_maps@[map_idx as int].id);
            }
            assert(self.tactical_map_of(next_map_id) == self.tactical_maps@[map_idx as int]);
        }
        let ghost m = self.tactical_maps@[map_idx as int];
        self.party_tactical_positions = Vec::new();
        let mut i: usize = 0;
        while i < self.party.members.len()
            invariant
                old(self).wf(),
                i <= self.party.members@.len(),
                self.current_view == old(self).current_view,
                self.world_map == old(self).world_map,
                self.party_world_position == old(self).party_world_position,
                self.party_facing == old(self).party_facing,
                self.active_tactical_map == old(self).active_tactical_map,
                self.tactical_maps == old(self).tactical_maps,
                self.party == old(self).party,
                self.characters == old(self).characters,
                self.game_time == old(self).game_time,
                map_idx < self.tactical_maps@.len(),
                m == self.tactical_maps@[map_idx as int],
                self.party.members@.len() == 0 || spawn_x + self.party.members@.len() - 1
                    <= u16::MAX,
                self.party_tactical_positions@.len() == i,
                forall|j: int|
                    0 <= j < i ==> #[trigger] self.party_tactical_positions@[j] == (
                        old(self).party.members@[j],
                        GameState::transition_spawn(m, spawn_x, spawn_y, j).0,
                        GameState::transition_spawn(m, spawn_x, spawn_y, j).1,
                    ),
            decreases self.party.members@.len() - i,
        {
            let char_id = self.party.members[i];
            proof {
                assert(spawn_x + i <= u16::MAX);
            }
            let cx = spawn_x + i as u16;
            let pos: (u16, u16) = if self.tactical_maps[map_idx].is_passable(cx, spawn_y) {
                (cx, spawn_y)
            } else {
                (spawn_x, spawn_y)
            };
            self.party_tactical_positions.push((char_id, pos.0, pos.1));
            i = i + 1;
        }
        self.active_tactical_map = Some(next_map_id);
        self.current_view = ViewMode::TacticalExploration;
        proof {
            assert forall|a: int, b: int|
                0 <= a < self.party_tactical_positions@.len() && 0 <= b
                    < self.party_tactical_positions@.len() && a != b implies (
            #[trigger] self.party_tactical_positions@[a]).0
                != (#[trigger] self.party_tactical_positions@[b]).0 by {
                assert(self.party_tactical_positions@[a].0 == old(self).party.members@[a]);
                assert(self.party_tactical_positions@[b].0 == old(self).party.members@[b]);
                assert(old(self).party.members@[a] != old(self).party.members@[b]);
            }
        }
        Ok(())
    }

    /// Dispatch an exit by its destination: a world destination leaves to the
    /// world map, a tactical destination moves to the other tactical map.
    pub fn handle_exit(&mut self, exit: &Exit) -> (r: Result<(), GameError>)
        requires
            old(self).wf(),
            match exit.destination {
                ExitDestination::WorldMap(_, _) => true,
                ExitDestination::TacticalMap(map_id, sx, _) => old(self).transition_args_ok(
                    map_id,
                    sx,
                ),
            },
        ensures
            final(self).wf(),
            match exit.destination {
                ExitDestination::WorldMap(wx, wy) => GameState::exit_to_world_post(
                    *old(self),
                    *final(self),
                    wx,
                    wy,
                    r,
                ),
                ExitDestination::TacticalMap(map_id, sx, sy) => GameState::transition_tactical_post(
                    *old(self),
                    *final(self),
                    map_id,
                    sx,
                    sy,
                    r,
                ),
            },
    {
        match exit.destination {
            ExitDestination::WorldMap(wx, wy) => self.exit_to_world(wx, wy),
            ExitDestination::TacticalMap(map_id, sx, sy) => self.transition_tactical(
                map_id,
                sx,
                sy,
            ),
        }
    }
}

} // verus!
