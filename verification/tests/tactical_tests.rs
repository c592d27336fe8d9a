use pathfinder_core::tactical::{
    Exit, ExitDestination, TacticalMap, TacticalTerrain, TacticalTile,
};
use pathfinder_core::types::CoverType;

#[test]
fn tactical_terrain_passability_and_sight() {
    assert!(!TacticalTerrain::Wall.is_passable());
    assert!(!TacticalTerrain::Lava.is_passable());
    assert!(TacticalTerrain::Floor.is_passable());
    assert!(TacticalTerrain::Water.is_passable());
    assert!(TacticalTerrain::Door.is_passable());
    assert!(TacticalTerrain::Wall.blocks_sight());
    assert!(TacticalTerrain::Door.blocks_sight());
    assert!(!TacticalTerrain::Floor.blocks_sight());
    assert!(!TacticalTerrain::Grass.blocks_sight());
}

#[test]
fn tile_constructors_derive_passability_from_terrain() {
    let t = TacticalTile::new(TacticalTerrain::Stone);
    assert_eq!(t.terrain, TacticalTerrain::Stone);
    assert!(t.passable);
    assert_eq!(t.cover, CoverType::NoCover);
    assert!(t.special.is_none());
    assert!(!t.visible);
    assert!(!t.explored);
    assert!(!TacticalTile::wall().passable);
    assert!(TacticalTile::floor().passable);
}

#[test]
fn new_map_is_filled_with_floor_at_elevation_zero() {
    let m = TacticalMap::new(7, "Cellar", 6, 4);
    assert_eq!(m.id, 7);
    assert_eq!(m.name, "Cellar");
    assert_eq!(m.width, 6);
    assert_eq!(m.height, 4);
    for y in 0..4 {
        for x in 0..6 {
            let t = m.get_tile(x, y).unwrap();
            assert_eq!(t.terrain, TacticalTerrain::Floor);
            assert!(t.passable);
            assert_eq!(m.elevation[y as usize][x as usize], 0);
        }
    }
    assert!(m.spawn_points.is_empty());
    assert!(m.exits.is_empty());
}

#[test]
fn tile_get_after_set_returns_written_value() {
    let mut m = TacticalMap::new(1, "Room", 5, 5);
    m.set_tile(2, 3, TacticalTile::wall());
    assert_eq!(m.get_tile(2, 3).unwrap().terrain, TacticalTerrain::Wall);
    assert_eq!(m.get_tile(2, 2).unwrap().terrain, TacticalTerrain::Floor);
}

#[test]
fn tile_out_of_bounds_write_is_a_no_op() {
    let mut m = TacticalMap::new(1, "Room", 5, 5);
    m.set_tile(5, 0, TacticalTile::wall());
    m.set_tile(0, 5, TacticalTile::wall());
    for y in 0..5 {
        for x in 0..5 {
            assert_eq!(m.get_tile(x, y).unwrap().terrain, TacticalTerrain::Floor);
        }
    }
    assert!(m.get_tile(5, 0).is_none());
}

#[test]
fn tactical_passability_follows_tile_flag_and_bounds() {
    let mut m = TacticalMap::new(1, "Room", 5, 5);
    m.set_tile(1, 1, TacticalTile::wall());
    assert!(!m.is_passable(1, 1));
    assert!(m.is_passable(0, 0));
    assert!(!m.is_passable(5, 0));
    let mut overridden = TacticalTile::new(TacticalTerrain::Floor);
    overridden.passable = false;
    m.set_tile(2, 2, overridden);
    assert!(!m.is_passable(2, 2));
}

#[test]
fn exit_at_finds_exit_by_position() {
    let mut m = TacticalMap::new(1, "Room", 5, 5);
    m.exits.push(Exit { position: (2, 4), destination: ExitDestination::WorldMap(10, 11) });
    let e = m.exit_at(2, 4).expect("exit should be there");
    assert_eq!(e.position, (2, 4));
    assert!(matches!(e.destination, ExitDestination::WorldMap(10, 11)));
    assert!(m.exit_at(3, 4).is_none());
}
