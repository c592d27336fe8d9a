//! Local tactical maps: tile grids with passability and cover, special tile
//! features, spawn points, and exits back to the wider world.

use vstd::prelude::*;

use crate::types::{CoverType, MapId};

verus! {

/// Terrain types for tactical maps (local scale: one tile is a few feet).
#[derive(Debug, Clone, Copy, PartialEq, Eq, Structural)]
pub enum TacticalTerrain {
    Floor,
    Wall,
    Dirt,
    Stone,
    Water,
    Lava,
    Grass,
    Door,
    StairsUp,
    StairsDown,
}

impl TacticalTerrain {
    /// Whether a character may stand on this terrain.
    pub open spec fn spec_is_passable(&self) -> bool {
        !(*self is Wall || *self is Lava)
    }

    /// Whether a character may stand on this terrain; walls and lava may not
    /// be entered.
    #[verifier::when_used_as_spec(spec_is_passable)]
    pub fn is_passable(&self) -> (b: bool)
        ensures
            b == self.spec_is_passable(),
    {
        !matches!(self, TacticalTerrain::Wall | TacticalTerrain::Lava)
    }

    /// Whether this terrain blocks line of sight.
    pub open spec fn spec_blocks_sight(&self) -> bool {
        *self is Wall || *self is Door
    }

    /// Whether this terrain blocks line of sight; walls and closed doors do.
    #[verifier::when_used_as_spec(spec_blocks_sight)]
    pub fn blocks_sight(&self) -> (b: bool)
        ensures
            b == self.spec_blocks_sight(),
    {
        matches!(self, TacticalTerrain::Wall | TacticalTerrain::Door)
    }
}

/// A special feature standing on a tile.
#[derive(Debug)]
pub enum TileSpecial {
    Trap { perception_dc: u8, damage: String },
    Chest { looted: bool },
    Lever { activated: bool },
    Sign { text: String },
}

/// The mathematical value of a [`TileSpecial`].
pub enum TileSpecialV {
    Trap { perception_dc: u8, damage: Seq<char> },
    Chest { looted: bool },
    Lever { activated: bool },
    Sign { text: Seq<char> },
}

impl View for TileSpecial {
    type V = TileSpecialV;

    open spec fn view(&self) -> TileSpecialV {
        match *self {
            TileSpecial::Trap { perception_dc, damage } => TileSpecialV::Trap {
                perception_dc,
                damage: damage@,
            },
            TileSpecial::Chest { looted } => TileSpecialV::Chest { looted },
            TileSpecial::Lever { activated } => TileSpecialV::Lever { activated },
            TileSpecial::Sign { text } => TileSpecialV::Sign { text: text@ },
        }
    }
}

impl DeepView for TileSpecial {
    type V = TileSpecialV;

    open spec fn deep_view(&self) -> TileSpecialV {
        self.view()
    }
}

impl Clone for TileSpecial {
    fn clone(&self) -> (r: Self)
        ensures
            r@ == self@,
    {
        match self {
            TileSpecial::Trap { perception_dc, damage } => TileSpecial::Trap {
                perception_dc: *perception_dc,
                damage: damage.clone(),
            },
            TileSpecial::Chest { looted } => TileSpecial::Chest { looted: *looted },
            TileSpecial::Lever { activated } => TileSpecial::Lever { activated: *activated },
            TileSpecial::Sign { text } => TileSpecial::Sign { text: text.clone() },
        }
    }
}

/// A single tile on a tactical map.
#[derive(Debug)]
pub struct TacticalTile {
    pub terrain: TacticalTerrain,
    pub passable: bool,
    pub cover: CoverType,
    pub special: Option<TileSpecial>,
    pub visible: bool,
    pub explored: bool,
}

/// The mathematical value of a [`TacticalTile`].
pub struct TacticalTileV {
    pub terrain: TacticalTerrain,
    pub passable: bool,
    pub cover: CoverType,
    pub special: Option<TileSpecialV>,
    pub visible: bool,
    pub explored: bool,
}

impl View for TacticalTile {
    type V = TacticalTileV;

    open spec fn view(&self) -> TacticalTileV {
        TacticalTileV {
            terrain: self.terrain,
            passable: self.passable,
            cover: self.cover,
            special: self.special.deep_view(),
            visible: self.visible,
            explored: self.explored,
        }
    }
}

impl DeepView for TacticalTile {
    type V = TacticalTileV;

    open spec fn deep_view(&self) -> TacticalTileV {
        self.view()
    }
}

impl Clone for TacticalTile {
    fn clone(&self) -> (r: Self)
        ensures
            r@ == self@,
    {
        TacticalTile {
            terrain: self.terrain,
            passable: self.passable,
            cover: self.cover,
            special: match &self.special {
                Some(s) => Some(s.clone()),
                None => None,
            },
            visible: self.visible,
            explored: self.explored,
        }
    }
}

impl TacticalTile {
    /// The tile that `new` builds: the given terrain, its intrinsic
    /// passability, no cover, no special feature, unseen and unexplored.
    pub open spec fn spec_new(terrain: TacticalTerrain) -> TacticalTile {
        TacticalTile {
            terrain,
            passable: terrain.spec_is_passable(),
            cover: CoverType::NoCover,
            special: None,
            visible: false,
            explored: false,
        }
    }

    /// A plain tile of the given terrain, passable exactly when the terrain is.
    pub fn new(terrain: TacticalTerrain) -> (r: TacticalTile)
        ensures
            r == Self::spec_new(terrain),
    {
        let passable = terrain.is_passable();
        TacticalTile { terrain, passable, cover: CoverType::NoCover, special: None, visible: false, explored: false }
    }

    /// A wall tile.
    pub fn wall() -> (r: TacticalTile)
        ensures
            r == Self::spec_new(TacticalTerrain::Wall),
            !r.passable,
    {
        Self::new(TacticalTerrain::Wall)
    }

    /// A floor tile.
    pub fn floor() -> (r: TacticalTile)
        ensures
            r == Self::spec_new(TacticalTerrain::Floor),
            r.passable,
    {
        Self::new(TacticalTerrain::Floor)
    }
}

/// Where an exit on a tactical map leads.
#[derive(Debug, Clone, Copy, PartialEq, Eq, Structural)]
pub enum ExitDestination {
    WorldMap(u32, u32),
    TacticalMap(MapId, u16, u16),
}

/// An exit point on a tactical map.
#[derive(Debug, Clone, Copy, PartialEq, Eq)]
pub struct Exit {
    pub position: (u16, u16),
    pub destination: ExitDestination,
}

/// A complete tactical map.
#[derive(Debug)]
pub struct TacticalMap {
    pub id: MapId,
    pub name: String,
    pub width: u16,
    pub height: u16,
    pub tiles: Vec<Vec<TacticalTile>>,
    pub elevation: Vec<Vec<i8>>,
    pub spawn_points: Vec<(u16, u16)>,
    pub exits: Vec<Exit>,
}

impl TacticalMap {
    /// Structural invariant: the tile and elevation grids both have exactly
    /// `height` rows of `width` cells.
    pub open spec fn wf(&self) -> bool {
        &&& self.tiles@.len() == self.height
        &&& (forall|y: int|
            0 <= y < self.tiles@.len() ==> (#[trigger] self.tiles@[y])@.len() == self.width)
        &&& self.elevation@.len() == self.height
        &&& (forall|y: int|
            0 <= y < self.elevation@.len() ==> (#[trigger] self.elevation@[y])@.len()
                == self.width)
    }

    /// Whether `(x, y)` lies on the grid.
    pub open spec fn in_bounds(&self, x: u16, y: u16) -> bool {
        x < self.width && y < self.height
    }

    /// The tile of the in-bounds cell `(x, y)`.
    pub open spec fn tile_at(&self, x: u16, y: u16) -> TacticalTile {
        self.tiles@[y as int]@[x as int]
    }

    /// Whether a character may stand on `(x, y)`: on the grid and on a tile
    /// whose passable flag is set.
    pub open spec fn spec_is_passable(&self, x: u16, y: u16) -> bool {
        self.in_bounds(x, y) && self.tile_at(x, y).passable
    }

    /// A fresh map of the given dimensions, filled with floor tiles at
    /// elevation zero, with no spawn points and no exits.
    pub fn new(id: MapId, name: &str, width: u16, height: u16) -> (m: TacticalMap)
        ensures
            m.wf(),
            m.id == id,
            m.name@ == name@,
            m.width == width,
            m.height == height,
            forall|x: u16, y: u16|
                m.in_bounds(x, y) ==> #[trigger] m.tile_at(x, y) == TacticalTile::spec_new(
                    TacticalTerrain::Floor,
                ),
            forall|r: int, c: int|
                0 <= r < height && 0 <= c < width ==> #[trigger] m.elevation@[r]@[c] == 0,
            m.spawn_points@.len() == 0,
            m.exits@.len() == 0,
    {
        let mut tiles: Vec<Vec<TacticalTile>> = Vec::new();
        let mut elevation: Vec<Vec<i8>> = Vec::new();
        let mut y: u16 = 0;
        while y < height
            invariant
                y <= height,
                tiles@.len() == y,
                elevation@.len() == y,
                forall|r: int| 0 <= r < y ==> (#[trigger] tiles@[r])@.len() == width,
                forall|r: int| 0 <= r < y ==> (#[trigger] elevation@[r])@.len() == width,
                forall|r: int, c: int|
                    0 <= r < y && 0 <= c < width ==> #[trigger] tiles@[r]@[c]
                        == TacticalTile::spec_new(TacticalTerrain::Floor),
                forall|r: int, c: int|
                    0 <= r < y && 0 <= c < width ==> #[trigger] elevation@[r]@[c] == 0,
            decreases height - y,
        {
            let mut tile_row: Vec<TacticalTile> = Vec::new();
            let mut elev_row: Vec<i8> = Vec::new();
            let mut x: u16 = 0;
            while x < width
                invariant
                    x <= width,
                    tile_row@.len() == x,
                    elev_row@.len() == x,
                    forall|c: int|
                        0 <= c < x ==> #[trigger] tile_row@[c] == TacticalTile::spec_new(
                            TacticalTerrain::Floor,
                        ),
                    forall|c: int| 0 <= c < x ==> #[trigger] elev_row@[c] == 0,
                decreases width - x,
            {
                tile_row.push(TacticalTile::floor());
                elev_row.push(0i8);
                x = x + 1;
            }
            tiles.push(tile_row);
            elevation.push(elev_row);
            y = y + 1;
        }
        TacticalMap {
            id,
            name: name.to_owned(),
            width,
            height,
            tiles,
            elevation,
            spawn_points: Vec::new(),
            exits: Vec::new(),
        }
    }

    /// Bounds-checked tile lookup: the cell's tile, or `None` off-grid.
    pub fn get_tile(&self, x: u16, y: u16) -> (r: Option<&TacticalTile>)
        requires
            self.wf(),
        ensures
            match r {
                Some(t) => self.in_bounds(x, y) && *t == self.tile_at(x, y),
                None => !self.in_bounds(x, y),
            },
    {
        if x < self.width && y < self.height {
            Some(&self.tiles[y as usize][x as usize])
        } else {
            None
        }
    }

    /// How a map after writing the cell `(x, y)` relates to the map before:
    /// an in-bounds write updates exactly that tile, an out-of-bounds write
    /// changes nothing at all.
    pub open spec fn set_tile_post(
        pre: TacticalMap,
        post: TacticalMap,
        x: u16,
        y: u16,
        tile: TacticalTile,
    ) -> bool {
        &&& post.id == pre.id
        &&& post.name == pre.name
        &&& post.width == pre.width
        &&& post.height == pre.height
        &&& post.elevation == pre.elevation
        &&& post.spawn_points == pre.spawn_points
        &&& post.exits == pre.exits
        &&& (pre.in_bounds(x, y) ==> forall|xx: u16, yy: u16|
            post.in_bounds(xx, yy) ==> #[trigger] post.tile_at(xx, yy) == if xx == x && yy == y {
                tile
            } else {
                pre.tile_at(xx, yy)
            })
        &&& (!pre.in_bounds(x, y) ==> post == pre)
    }

    /// Write the cell `(x, y)`; a write outside the grid is silently ignored
    /// and changes nothing.
    pub fn set_tile(&mut self, x: u16, y: u16, tile: TacticalTile)
        requires
            old(self).wf(),
        ensures
            final(self).wf(),
            TacticalMap::set_tile_post(*old(self), *final(self), x, y, tile),
    {
        if x < self.width && y < self.height {
            self.tiles[y as usize][x as usize] = tile;
        }
    }

    /// Whether a character may stand on `(x, y)`: false off-grid or on a tile
    /// whose passable flag is clear.
    #[verifier::when_used_as_spec(spec_is_passable)]
    pub fn is_passable(&self, x: u16, y: u16) -> (b: bool)
        requires
            self.wf(),
        ensures
            b == self.spec_is_passable(x, y),
    {
        match self.get_tile(x, y) {
            Some(t) => t.passable,
            None => false,
        }
    }

    /// The first exit standing on `(x, y)`, if any.
    pub fn exit_at(&self, x: u16, y: u16) -> (r: Option<&Exit>)
        ensures
            match r {
                Some(e) => {
                    &&& e.position == (x, y)
                    &&& exists|i: int|
                        0 <= i < self.exits@.len() && self.exits@[i] == *e && (forall|j: int|
                            0 <= j < i ==> (#[trigger] self.exits@[j]).position != (x, y))
                },
                None => forall|i: int|
                    0 <= i < self.exits@.len() ==> (#[trigger] self.exits@[i]).position != (x, y),
            },
    {
        let mut i: usize = 0;
        while i < self.exits.len()
            invariant
                i <= self.exits@.len(),
                forall|j: int| 0 <= j < i ==> (#[trigger] self.exits@[j]).position != (x, y),
            decreases self.exits@.len() - i,
        {
            let e = &self.exits[i];
            if e.position.0 == x && e.position.1 == y {
                return Some(e);
            }
            i = i + 1;
        }
        None
    }
}

} // verus!
