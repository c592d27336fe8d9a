//! The strategic world map: terrain grid, enterable locations, and the
//! fog-of-war set of discovered tiles.

use vstd::prelude::*;

use crate::types::{LocationId, MapId, QuestId};

verus! {

/// Terrain types for the world map (strategic scale: one tile is several miles).
#[derive(Debug, Clone, Copy, PartialEq, Eq, Structural)]
pub enum WorldTerrain {
    Plains,
    Forest,
    Mountains,
    Water,
    Desert,
    Road,
    City,
}

impl DeepView for WorldTerrain {
    type V = WorldTerrain;

    open spec fn deep_view(&self) -> WorldTerrain {
        *self
    }
}

impl WorldTerrain {
    /// Whether this terrain is passable on foot.
    pub open spec fn spec_is_passable(&self) -> bool {
        !(*self is Water)
    }

    /// Whether this terrain is passable on foot; only `Water` is not.
    #[verifier::when_used_as_spec(spec_is_passable)]
    pub fn is_passable(&self) -> (b: bool)
        ensures
            b == self.spec_is_passable(),
    {
        !matches!(self, WorldTerrain::Water)
    }

    /// Minutes of travel that entering one tile of this terrain costs.
    pub open spec fn spec_movement_minutes(&self) -> u64 {
        match *self {
            WorldTerrain::Road => 30,
            WorldTerrain::Plains => 60,
            WorldTerrain::City => 60,
            WorldTerrain::Forest => 90,
            WorldTerrain::Desert => 90,
            WorldTerrain::Mountains => 150,
            WorldTerrain::Water => u64::MAX,
        }
    }

    /// Minutes of travel that entering one tile of this terrain costs: an hour
    /// on plains, scaled by the terrain's difficulty; `Water` cannot be
    /// entered, and its nominal cost saturates the counter.
    #[verifier::when_used_as_spec(spec_movement_minutes)]
    pub fn movement_minutes(&self) -> (m: u64)
        ensures
            m == self.spec_movement_minutes(),
            self.spec_is_passable() ==> m <= 150,
    {
        match self {
            WorldTerrain::Road => 30,
            WorldTerrain::Plains => 60,
            WorldTerrain::City => 60,
            WorldTerrain::Forest => 90,
            WorldTerrain::Desert => 90,
            WorldTerrain::Mountains => 150,
            WorldTerrain::Water => u64::MAX,
        }
    }
}

/// What kind of place a location is.
#[derive(Debug, Clone, Copy, PartialEq, Eq, Structural)]
pub enum LocationType {
    Town,
    Dungeon,
    Landmark,
    EncounterSite,
    QuestLocation,
}

/// A location that can be entered from the world map.
#[derive(Debug)]
pub struct Location {
    pub id: LocationId,
    pub name: String,
    pub location_type: LocationType,
    pub world_position: (u32, u32),
    pub tactical_map_id: Option<MapId>,
    pub discovered: bool,
    pub quest_markers: Vec<QuestId>,
}

/// The mathematical value of a [`Location`].
pub struct LocationV {
    pub id: LocationId,
    pub name: Seq<char>,
    pub location_type: LocationType,
    pub world_position: (u32, u32),
    pub tactical_map_id: Option<MapId>,
    pub discovered: bool,
    pub quest_markers: Seq<QuestId>,
}

impl View for Location {
    type V = LocationV;

    open spec fn view(&self) -> LocationV {
        LocationV {
            id: self.id,
            name: self.name@,
            location_type: self.location_type,
            world_position: self.world_position,
            tactical_map_id: self.tactical_map_id,
            discovered: self.discovered,
            quest_markers: self.quest_markers@,
        }
    }
}

impl DeepView for Location {
    type V = LocationV;

    open spec fn deep_view(&self) -> LocationV {
        self.view()
    }
}

impl Clone for Location {
    fn clone(&self) -> (r: Self)
        ensures
            r@ == self@,
    {
        Location {
            id: self.id,
            name: self.name.clone(),
            location_type: self.location_type,
            world_position: self.world_position,
            tactical_map_id: self.tactical_map_id,
            discovered: self.discovered,
            quest_markers: clone_id_vec(&self.quest_markers),
        }
    }
}

/// Copies a vector of identifiers element by element.
fn clone_id_vec(v: &Vec<u32>) -> (r: Vec<u32>)
    ensures
        r@ == v@,
{
    let mut r: Vec<u32> = Vec::new();
    let mut i: usize = 0;
    while i < v.len()
        invariant
            i <= v.len(),
            r@ == v@.take(i as int),
        decreases v.len() - i,
    {
        r.push(v[i]);
        proof {
            assert(v@.take(i + 1) =~= v@.take(i as int).push(v@[i as int]));
        }
        i = i + 1;
    }
    proof {
        assert(v@.take(v@.len() as int) =~= v@);
    }
    r
}

/// The full world map (strategic scale).
#[derive(Debug)]
pub struct WorldMap {
    pub width: u32,
    pub height: u32,
    pub terrain: Vec<Vec<WorldTerrain>>,
    pub locations: Vec<Location>,
    pub discovered_tiles: Vec<(u32, u32)>,
}

impl WorldMap {
    /// Structural invariant: the grid has exactly `height` rows of `width`
    /// cells, location ids are unique, and no discovered tile is listed twice.
    pub open spec fn wf(&self) -> bool {
        &&& self.terrain@.len() == self.height
        &&& (forall|y: int|
            0 <= y < self.terrain@.len() ==> (#[trigger] self.terrain@[y])@.len() == self.width)
        &&& (forall|i: int, j: int|
            0 <= i < self.locations@.len() && 0 <= j < self.locations@.len() && i != j
                ==> (#[trigger] self.locations@[i]).id != (#[trigger] self.locations@[j]).id)
        &&& self.discovered_tiles@.no_duplicates()
    }

    /// Whether `(x, y)` lies on the grid.
    pub open spec fn in_bounds(&self, x: u32, y: u32) -> bool {
        x < self.width && y < self.height
    }

    /// The terrain of the in-bounds cell `(x, y)`.
    pub open spec fn terrain_at(&self, x: u32, y: u32) -> WorldTerrain {
        self.terrain@[y as int]@[x as int]
    }

    /// Whether the party may stand on `(x, y)`: on the grid and not `Water`.
    pub open spec fn spec_is_passable(&self, x: u32, y: u32) -> bool {
        self.in_bounds(x, y) && self.terrain_at(x, y).spec_is_passable()
    }

    /// Whether the tile `p` has been revealed to the player.
    pub open spec fn is_discovered(&self, p: (u32, u32)) -> bool {
        self.discovered_tiles@.contains(p)
    }

    /// The tiles that revealing a square of the given Chebyshev radius around
    /// `(x, y)` adds: every in-bounds tile within `radius` of the centre on
    /// both axes.
    pub open spec fn discovers(&self, x: u32, y: u32, radius: u32, p: (u32, u32)) -> bool {
        &&& x - radius <= p.0 <= x + radius
        &&& y - radius <= p.1 <= y + radius
        &&& p.0 < self.width
        &&& p.1 < self.height
    }

    /// Whether a location with this id is registered.
    pub open spec fn has_location(&self, id: LocationId) -> bool {
        exists|i: int| 0 <= i < self.locations@.len() && (#[trigger] self.locations@[i]).id == id
    }

    /// The registered location with this id (meaningful when
    /// `has_location(id)` holds; under `wf` there is at most one).
    pub open spec fn location_of(&self, id: LocationId) -> Location {
        self.locations@[choose|i: int|
            0 <= i < self.locations@.len() && (#[trigger] self.locations@[i]).id == id]
    }

    /// How a map after revealing the square of the given Chebyshev radius
    /// around `(x, y)` relates to the map before: everything but the
    /// discovered set is untouched, the old discovered list is a prefix of the
    /// new one, and a tile is discovered afterwards exactly when it was
    /// already discovered or lies in the revealed square.
    pub open spec fn discover_post(pre: WorldMap, post: WorldMap, x: u32, y: u32, radius: u32) -> bool {
        &&& post.width == pre.width
        &&& post.height == pre.height
        &&& post.terrain == pre.terrain
        &&& post.locations == pre.locations
        &&& pre.discovered_tiles@.is_prefix_of(post.discovered_tiles@)
        &&& (forall|p: (u32, u32)|
            #[trigger] post.is_discovered(p) <==> (pre.is_discovered(p) || pre.discovers(
                x,
                y,
                radius,
                p,
            )))
    }

    /// A fresh map of the given dimensions, all plains, with no locations and
    /// nothing discovered.
    pub fn new(width: u32, height: u32) -> (m: WorldMap)
        ensures
            m.wf(),
            m.width == width,
            m.height == height,
            forall|x: u32, y: u32| m.in_bounds(x, y) ==> m.terrain_at(x, y) == WorldTerrain::Plains,
            m.locations@.len() == 0,
            m.discovered_tiles@.len() == 0,
    {
        let mut terrain: Vec<Vec<WorldTerrain>> = Vec::new();
        let mut y: u32 = 0;
        while y < height
            invariant
                y <= height,
                terrain@.len() == y,
                forall|r: int| 0 <= r < y ==> (#[trigger] terrain@[r])@.len() == width,
                forall|r: int, c: int|
                    0 <= r < y && 0 <= c < width ==> #[trigger] terrain@[r]@[c]
                        == WorldTerrain::Plains,
            decreases height - y,
        {
            let mut row: Vec<WorldTerrain> = Vec::new();
            let mut x: u32 = 0;
            while x < width
                invariant
                    x <= width,
                    row@.len() == x,
                    forall|c: int| 0 <= c < x ==> row@[c] == WorldTerrain::Plains,
                decreases width - x,
            {
                row.push(WorldTerrain::Plains);
                x = x + 1;
            }
            terrain.push(row);
            y = y + 1;
        }
        WorldMap {
            width,
            height,
            terrain,
            locations: Vec::new(),
            discovered_tiles: Vec::new(),
        }
    }

    /// Bounds-checked terrain lookup: the cell's terrain, or `None` off-grid.
    pub fn get_terrain(&self, x: u32, y: u32) -> (r: Option<WorldTerrain>)
        requires
            self.wf(),
        ensures
            r == if self.in_bounds(x, y) {
                Some(self.terrain_at(x, y))
            } else {
                None::<WorldTerrain>
            },
    {
        if x < self.width && y < self.height {
            Some(self.terrain[y as usize][x as usize])
        } else {
            None
        }
    }

    /// How a map after writing the cell `(x, y)` relates to the map before:
    /// an in-bounds write updates exactly that cell, an out-of-bounds write
    /// changes nothing at all.
    pub open spec fn set_terrain_post(
        pre: WorldMap,
        post: WorldMap,
        x: u32,
        y: u32,
        terrain: WorldTerrain,
    ) -> bool {
        &&& post.width == pre.width
        &&& post.height == pre.height
        &&& post.locations == pre.locations
        &&& post.discovered_tiles == pre.discovered_tiles
        &&& (pre.in_bounds(x, y) ==> forall|xx: u32, yy: u32|
            post.in_bounds(xx, yy) ==> #[trigger] post.terrain_at(xx, yy) == if xx == x && yy
                == y {
                terrain
            } else {
                pre.terrain_at(xx, yy)
            })
        &&& (!pre.in_bounds(x, y) ==> post == pre)
    }

    /// Write the cell `(x, y)`; a write outside the grid is silently ignored
    /// and changes nothing.
    pub fn set_terrain(&mut self, x: u32, y: u32, terrain: WorldTerrain)
        requires
            old(self).wf(),
        ensures
            final(self).wf(),
            WorldMap::set_terrain_post(*old(self), *final(self), x, y, terrain),
    {
        if x < self.width && y < self.height {
            self.terrain[y as usize][x as usize] = terrain;
        }
    }

    /// Whether the party may stand on `(x, y)`: false off-grid or on
    /// impassable terrain.
    #[verifier::when_used_as_spec(spec_is_passable)]
    pub fn is_passable(&self, x: u32, y: u32) -> (b: bool)
        requires
            self.wf(),
        ensures
            b == self.spec_is_passable(x, y),
    {
        match self.get_terrain(x, y) {
            Some(t) => t.is_passable(),
            None => false,
        }
    }

    /// The first location standing on `(x, y)`, if any.
    pub fn location_at(&self, x: u32, y: u32) -> (r: Option<&Location>)
        ensures
            match r {
                Some(loc) => {
                    &&& loc.world_position == (x, y)
                    &&& exists|i: int|
                        0 <= i < self.locations@.len() && self.locations@[i] == *loc
                            && (forall|j: int|
                            0 <= j < i ==> (#[trigger] self.locations@[j]).world_position != (x, y))
                },
                None => forall|i: int|
                    0 <= i < self.locations@.len()
                        ==> (#[trigger] self.locations@[i]).world_position != (x, y),
            },
    {
        let mut i: usize = 0;
        while i < self.locations.len()
            invariant
                i <= self.locations@.len(),
                forall|j: int|
                    0 <= j < i ==> (#[trigger] self.locations@[j]).world_position != (x, y),
            decreases self.locations@.len() - i,
        {
            let loc = &self.locations[i];
            if loc.world_position.0 == x && loc.world_position.1 == y {
                return Some(loc);
            }
            i = i + 1;
        }
        None
    }

    /// Insert a location, overwriting any previous location with the same id.
    pub fn add_location(&mut self, location: Location)
        requires
            old(self).wf(),
        ensures
            final(self).wf(),
            final(self).width == old(self).width,
            final(self).height == old(self).height,
            final(self).terrain == old(self).terrain,
            final(self).discovered_tiles == old(self).discovered_tiles,
            forall|j: int|
                0 <= j < old(self).locations@.len() && (#[trigger] old(self).locations@[j]).id
                    == location.id ==> final(self).locations@ == old(self).locations@.update(
                    j,
                    location,
                ),
            (forall|j: int|
                0 <= j < old(self).locations@.len() ==> (#[trigger] old(self).locations@[j]).id
                    != location.id) ==> final(self).locations@ == old(self).locations@.push(
                location,
            ),
    {
        let mut i: usize = 0;
        while i < self.locations.len()
            invariant
                old(self).wf(),
                *self == *old(self),
                i <= self.locations@.len(),
                forall|j: int| 0 <= j < i ==> (#[trigger] self.locations@[j]).id != location.id,
            decreases self.locations@.len() - i,
        {
            if self.locations[i].id == location.id {
                self.locations[i] = location;
                proof {
                    assert forall|j: int|
                        0 <= j < old(self).locations@.len() && (#[trigger] old(
                            self,
                        ).locations@[j]).id == location.id implies j == i by {
                        if j != i {
                            assert(old(self).locations@[j].id != old(self).locations@[i as int].id);
                        }
                    }
                    assert forall|a: int, b: int|
                        0 <= a < self.locations@.len() && 0 <= b < self.locations@.len() && a
                            != b implies (#[trigger] self.locations@[a]).id
                        != (#[trigger] self.locations@[b]).id by {
                        assert(old(self).locations@[a].id != old(self).locations@[b].id);
                        assert(self.locations@[a].id == old(self).locations@[a].id);
                        assert(self.locations@[b].id == old(self).locations@[b].id);
                    }
                }
                return ;
            }
            i = i + 1;
        }
        self.locations.push(location);
        proof {
            assert forall|a: int, b: int|
                0 <= a < self.locations@.len() && 0 <= b < self.locations@.len() && a != b implies (
            #[trigger] self.locations@[a]).id != (#[trigger] self.locations@[b]).id by {
                let n = old(self).locations@.len() as int;
                if a < n && b < n {
                    assert(old(self).locations@[a].id != old(self).locations@[b].id);
                } else if a == n {
                    assert(old(self).locations@[b].id != location.id);
                } else {
                    assert(old(self).locations@[a].id != location.id);
                }
            }
        }
    }

    /// Reveal every in-bounds tile within the given Chebyshev radius of
    /// `(x, y)`. The discovered set only ever grows, and a second identical
    /// call adds nothing.
    pub fn discover_around(&mut self, x: u32, y: u32, radius: u32)
        requires
            old(self).wf(),
        ensures
            final(self).wf(),
            WorldMap::discover_post(*old(self), *final(self), x, y, radius),
    {
        let r: i64 = radius as i64;
        let mut dy: i64 = -r;
        while dy <= r
            invariant
                old(self).wf(),
                r == radius as i64,
                -(radius as int) <= dy <= radius + 1,
                self.width == old(self).width,
                self.height == old(self).height,
                self.terrain == old(self).terrain,
                self.locations == old(self).locations,
                self.discovered_tiles@.no_duplicates(),
                old(self).discovered_tiles@.is_prefix_of(self.discovered_tiles@),
                forall|p: (u32, u32)|
                    #[trigger] self.is_discovered(p) <==> (old(self).is_discovered(p) || (old(
                        self,
                    ).discovers(x, y, radius, p) && p.1 < y + dy)),
            decreases r + 1 - dy,
        {
            let ty: i64 = y as i64 + dy;
            let mut dx: i64 = -r;
            while dx <= r
                invariant
                    old(self).wf(),
                    r == radius as i64,
                    ty == y + dy,
                    -(radius as int) <= dy <= radius as int,
                    -(radius as int) <= dx <= radius + 1,
                    self.width == old(self).width,
                    self.height == old(self).height,
                    self.terrain == old(self).terrain,
                    self.locations == old(self).locations,
                    self.discovered_tiles@.no_duplicates(),
                    old(self).discovered_tiles@.is_prefix_of(self.discovered_tiles@),
                    forall|p: (u32, u32)|
                        #[trigger] self.is_discovered(p) <==> (old(self).is_discovered(p) || (old(
                            self,
                        ).discovers(x, y, radius, p) && (p.1 < y + dy || (p.1 == y + dy && p.0 < x
                            + dx)))),
                decreases r + 1 - dx,
            {
                let tx: i64 = x as i64 + dx;
                if tx >= 0 && ty >= 0 && tx < self.width as i64 && ty < self.height as i64 {
                    let c: (u32, u32) = (tx as u32, ty as u32);
                    let ghost prev = *self;
                    if !contains_coord(&self.discovered_tiles, c) {
                        self.discovered_tiles.push(c);
                        proof {
                            let pre = prev.discovered_tiles@;
                            let cur = self.discovered_tiles@;
                            assert forall|p: (u32, u32)| #[trigger]
                                self.is_discovered(p) implies (prev.is_discovered(p) || p
                                == c) by {
                                let i = choose|i: int| 0 <= i < cur.len() && cur[i] == p;
                                if i < pre.len() {
                                    assert(pre[i] == p);
                                }
                            }
                            assert forall|p: (u32, u32)| prev.is_discovered(p) implies #[trigger]
                            self.is_discovered(p) by {
                                let i = choose|i: int| 0 <= i < pre.len() && pre[i] == p;
                                assert(cur[i] == p);
                            }
                            assert(self.is_discovered(c)) by {
                                assert(cur[cur.len() - 1] == c);
                            }
                            assert forall|a: int|
                                0 <= a < pre.len() implies pre[a] != c by {
                                if pre[a] == c {
                                    assert(pre.contains(c));
                                }
                            }
                            assert(cur.no_duplicates()) by {
                                assert forall|a: int, b: int|
                                    0 <= a < cur.len() && 0 <= b < cur.len() && a != b implies cur[a]
                                    != cur[b] by {
                                    if a < pre.len() && b < pre.len() {
                                        assert(pre[a] != pre[b]);
                                    }
                                }
                            }
                            assert(old(self).discovered_tiles@.is_prefix_of(cur)) by {
                                assert(cur.take(old(self).discovered_tiles@.len() as int)
                                    =~= old(self).discovered_tiles@);
                            }
                        }
                    } else {
                        proof {
                            assert(self.is_discovered(c));
                        }
                    }
                }
                dx = dx + 1;
            }
            dy = dy + 1;
        }
    }
}

/// The index of the registered location with this id, by linear scan.
pub(crate) fn find_location_index(locs: &Vec<Location>, id: LocationId) -> (r: Option<usize>)
    ensures
        match r {
            Some(i) => i < locs@.len() && locs@[i as int].id == id,
            None => forall|i: int| 0 <= i < locs@.len() ==> (#[trigger] locs@[i]).id != id,
        },
{
    let mut i: usize = 0;
    while i < locs.len()
        invariant
            i <= locs@.len(),
            forall|j: int| 0 <= j < i ==> (#[trigger] locs@[j]).id != id,
        decreases locs@.len() - i,
    {
        if locs[i].id == id {
            return Some(i);
        }
        i = i + 1;
    }
    None
}

/// Whether the coordinate list holds `p`, by linear scan.
fn contains_coord(v: &Vec<(u32, u32)>, p: (u32, u32)) -> (b: bool)
    ensures
        b == v@.contains(p),
{
    let mut i: usize = 0;
    while i < v.len()
        invariant
            i <= v@.len(),
            forall|j: int| 0 <= j < i ==> v@[j] != p,
        decreases v@.len() - i,
    {
        if v[i].0 == p.0 && v[i].1 == p.1 {
            return true;
        }
        i = i + 1;
    }
    false
}

} // verus!
