use pathfinder_core::character::{Ancestry, Character, Class};
use pathfinder_core::game::{GameError, GameState, MoveResult, ViewState};
use pathfinder_core::tactical::{Exit, ExitDestination, TacticalMap, TacticalTile};
use pathfinder_core::types::{Direction, GameTime, ViewMode};
use pathfinder_core::world::{Location, LocationType, WorldTerrain};

fn town(id: u32, x: u32, y: u32, map: Option<u32>) -> Location {
    Location {
        id,
        name: format!("Town {}", id),
        location_type: LocationType::Town,
        world_position: (x, y),
        tactical_map_id: map,
        discovered: true,
        quest_markers: Vec::new(),
    }
}

#[test]
fn game_time_reports_hour_day_and_night() {
    let t = GameTime { total_minutes: 0 };
    assert_eq!(t.hour(), 0);
    assert_eq!(t.day(), 0);
    assert!(t.is_night());
    let morning = GameTime { total_minutes: 8 * 60 };
    assert_eq!(morning.hour(), 8);
    assert!(!morning.is_night());
    let late = GameTime { total_minutes: 22 * 60 + 15 };
    assert_eq!(late.hour(), 22);
    assert!(late.is_night());
    let next_day = GameTime { total_minutes: 24 * 60 + 3 * 60 };
    assert_eq!(next_day.day(), 1);
    assert_eq!(next_day.hour(), 3);
    assert!(next_day.is_night());
    let mut t2 = GameTime::new();
    t2.advance_minutes(90);
    assert_eq!(t2.total_minutes, 90);
}

#[test]
fn new_game_starts_on_the_world_map() {
    let s = GameState::new(30, 20);
    assert_eq!(s.current_view, ViewMode::WorldMap);
    assert_eq!(s.party_world_position, Some((0, 0)));
    assert_eq!(s.party_facing, Direction::South);
    assert!(s.active_tactical_map.is_none());
    assert!(s.tactical_maps.is_empty());
    assert!(s.party_tactical_positions.is_empty());
    assert!(s.characters.is_empty());
    assert_eq!(s.game_time.total_minutes, 8 * 60);
    assert_eq!(s.world_map.width, 30);
    assert_eq!(s.world_map.height, 20);
}

#[test]
fn road_move_costs_thirty_minutes_and_faces_east() {
    let mut s = GameState::new(30, 20);
    s.world_map.set_terrain(1, 5, WorldTerrain::Road);
    s.party_world_position = Some((0, 5));
    let r = s.move_party_world(1, 0).unwrap();
    assert!(matches!(r, MoveResult::Moved));
    assert_eq!(s.party_world_position, Some((1, 5)));
    assert_eq!(s.party_facing, Direction::East);
    assert_eq!(s.game_time.total_minutes, 8 * 60 + 30);
}

#[test]
fn moving_onto_water_is_blocked_without_any_cost() {
    let mut s = GameState::new(30, 20);
    s.world_map.set_terrain(1, 5, WorldTerrain::Water);
    s.party_world_position = Some((0, 5));
    let r = s.move_party_world(1, 0).unwrap();
    assert!(matches!(r, MoveResult::Blocked));
    assert_eq!(s.party_world_position, Some((0, 5)));
    assert_eq!(s.game_time.total_minutes, 8 * 60);
    // facing still follows the attempt
    assert_eq!(s.party_facing, Direction::East);
}

#[test]
fn world_move_is_clamped_at_the_lower_edge() {
    let mut s = GameState::new(30, 20);
    s.party_world_position = Some((0, 5));
    let r = s.move_party_world(-1, 0).unwrap();
    assert!(matches!(r, MoveResult::Moved));
    assert_eq!(s.party_world_position, Some((0, 5)));
    assert_eq!(s.party_facing, Direction::West);
}

#[test]
fn world_move_off_the_far_edge_is_blocked() {
    let mut s = GameState::new(4, 4);
    s.party_world_position = Some((3, 3));
    let r = s.move_party_world(1, 0).unwrap();
    assert!(matches!(r, MoveResult::Blocked));
    assert_eq!(s.party_world_position, Some((3, 3)));
}

#[test]
fn facing_follows_move_intent_with_horizontal_priority() {
    let mut s = GameState::new(10, 10);
    s.party_world_position = Some((5, 5));
    s.move_party_world(1, 0).unwrap();
    assert_eq!(s.party_facing, Direction::East);
    s.move_party_world(-1, 0).unwrap();
    assert_eq!(s.party_facing, Direction::West);
    s.move_party_world(0, 1).unwrap();
    assert_eq!(s.party_facing, Direction::South);
    s.move_party_world(0, -1).unwrap();
    assert_eq!(s.party_facing, Direction::North);
    s.move_party_world(1, 1).unwrap();
    assert_eq!(s.party_facing, Direction::East);
    let before = s.party_facing;
    s.move_party_world(0, 0).unwrap();
    assert_eq!(s.party_facing, before);
}

#[test]
fn world_move_reveals_surrounding_tiles() {
    let mut s = GameState::new(30, 20);
    s.party_world_position = Some((5, 5));
    assert!(s.world_map.discovered_tiles.is_empty());
    s.move_party_world(1, 0).unwrap();
    for dy in -2i64..=2 {
        for dx in -2i64..=2 {
            let p = ((6 + dx) as u32, (5 + dy) as u32);
            assert!(s.world_map.discovered_tiles.contains(&p));
        }
    }
}

#[test]
fn arriving_on_a_location_reports_its_id() {
    let mut s = GameState::new(30, 20);
    s.world_map.add_location(town(4, 6, 5, Some(100)));
    s.party_world_position = Some((5, 5));
    let r = s.move_party_world(1, 0).unwrap();
    assert!(matches!(r, MoveResult::ArrivedAtLocation(4)));
}

#[test]
fn world_move_errors_outside_the_world_view() {
    let mut s = GameState::new(10, 10);
    s.current_view = ViewMode::Menu;
    assert_eq!(s.move_party_world(1, 0), Err(GameError::WrongView));
    s.current_view = ViewMode::TacticalExploration;
    assert_eq!(s.move_party_world(1, 0), Err(GameError::WrongView));
}

#[test]
fn world_move_errors_without_a_position() {
    let mut s = GameState::new(10, 10);
    s.party_world_position = None;
    assert_eq!(s.move_party_world(1, 0), Err(GameError::NoPosition));
}

fn tactical_game() -> GameState {
    let mut s = GameState::new(10, 10);
    let mut map = TacticalMap::new(100, "Arena", 8, 8);
    map.set_tile(3, 3, TacticalTile::wall());
    map.exits.push(Exit { position: (7, 7), destination: ExitDestination::WorldMap(2, 5) });
    s.add_tactical_map(map);
    s.add_character(Character::new(1, "Valeria", Ancestry::Human, Class::Fighter));
    s.current_view = ViewMode::TacticalExploration;
    s.active_tactical_map = Some(100);
    s.party_world_position = None;
    s
}

#[test]
fn tactical_move_records_the_position() {
    let mut s = tactical_game();
    let r = s.move_character_tactical(1, 2, 2).unwrap();
    assert!(matches!(r, MoveResult::Moved));
    assert_eq!(s.party_tactical_positions, vec![(1, 2, 2)]);
    let r2 = s.move_character_tactical(1, 4, 4).unwrap();
    assert!(matches!(r2, MoveResult::Moved));
    assert_eq!(s.party_tactical_positions, vec![(1, 4, 4)]);
}

#[test]
fn tactical_move_into_a_wall_is_blocked() {
    let mut s = tactical_game();
    let r = s.move_character_tactical(1, 3, 3).unwrap();
    assert!(matches!(r, MoveResult::Blocked));
    assert!(s.party_tactical_positions.is_empty());
}

#[test]
fn tactical_move_onto_an_exit_reports_it_without_taking_it() {
    let mut s = tactical_game();
    let r = s.move_character_tactical(1, 7, 7).unwrap();
    match r {
        MoveResult::ReachedExit(e) => {
            assert_eq!(e.position, (7, 7));
            assert!(matches!(e.destination, ExitDestination::WorldMap(2, 5)));
        },
        other => panic!("expected an exit, got {:?}", other),
    }
    // still in the tactical view: the caller decides whether to follow
    assert_eq!(s.current_view, ViewMode::TacticalExploration);
    assert_eq!(s.party_tactical_positions, vec![(1, 7, 7)]);
}

#[test]
fn tactical_move_errors_match_the_missing_pieces() {
    let mut s = GameState::new(10, 10);
    assert_eq!(s.move_character_tactical(1, 0, 0), Err(GameError::WrongView));
    s.current_view = ViewMode::TacticalCombat;
    s.active_tactical_map = None;
    assert_eq!(s.move_character_tactical(1, 0, 0), Err(GameError::NoMap));
    s.active_tactical_map = Some(999);
    assert_eq!(s.move_character_tactical(1, 0, 0), Err(GameError::NoMap));
}

#[test]
fn view_state_reflects_the_world_shape() {
    let mut s = GameState::new(6, 5);
    s.world_map.set_terrain(1, 1, WorldTerrain::Forest);
    s.world_map.add_location(town(1, 2, 2, None));
    let mut hidden = town(2, 3, 3, None);
    hidden.discovered = false;
    s.world_map.add_location(hidden);
    s.world_map.discover_around(1, 1, 1);
    match s.get_view_state() {
        ViewState::WorldMap { party_position, party_facing, terrain, discovered, locations, game_time } => {
            assert_eq!(party_position, (0, 0));
            assert_eq!(party_facing, Direction::South);
            assert_eq!(terrain.len(), 5);
            assert_eq!(terrain[0].len(), 6);
            assert_eq!(terrain[1][1], WorldTerrain::Forest);
            assert_eq!(discovered, s.world_map.discovered_tiles);
            assert_eq!(locations.len(), 1);
            assert_eq!(locations[0].id, 1);
            assert_eq!(game_time.total_minutes, 8 * 60);
        },
        other => panic!("expected the world shape, got {:?}", other),
    }
}

#[test]
fn view_state_reflects_the_tactical_shape() {
    let mut s = tactical_game();
    s.current_view = ViewMode::TacticalCombat;
    s.move_character_tactical(1, 2, 2).unwrap();
    match s.get_view_state() {
        ViewState::Tactical { map_name, map_width, map_height, tiles, party_positions, exits, in_combat } => {
            assert_eq!(map_name, "Arena");
            assert_eq!(map_width, 8);
            assert_eq!(map_height, 8);
            assert_eq!(tiles.len(), 8);
            assert!(!tiles[3][3].passable);
            assert_eq!(party_positions.len(), 1);
            assert_eq!(party_positions[0].id, 1);
            assert_eq!((party_positions[0].x, party_positions[0].y), (2, 2));
            assert_eq!(exits.len(), 1);
            assert!(in_combat);
        },
        other => panic!("expected the tactical shape, got {:?}", other),
    }
}

#[test]
fn view_state_without_an_active_map_is_empty() {
    let mut s = tactical_game();
    s.active_tactical_map = None;
    match s.get_view_state() {
        ViewState::Tactical { map_name, map_width, map_height, tiles, exits, in_combat, .. } => {
            assert_eq!(map_name, "");
            assert_eq!(map_width, 0);
            assert_eq!(map_height, 0);
            assert!(tiles.is_empty());
            assert!(exits.is_empty());
            assert!(!in_combat);
        },
        other => panic!("expected the tactical shape, got {:?}", other),
    }
}

#[test]
fn view_state_in_menu_mode_is_the_menu_shape() {
    let mut s = GameState::new(4, 4);
    s.current_view = ViewMode::Menu;
    assert!(matches!(s.get_view_state(), ViewState::Menu));
}

#[test]
fn add_character_registers_and_enrolls() {
    let mut s = GameState::new(4, 4);
    s.add_character(Character::new(1, "Valeria", Ancestry::Human, Class::Fighter));
    s.add_character(Character::new(2, "Thornwick", Ancestry::Elf, Class::Wizard));
    assert_eq!(s.characters.len(), 2);
    assert_eq!(s.party.members, vec![1, 2]);
    // overwriting a character keeps the roster unchanged
    s.add_character(Character::new(2, "Thornwick the Wise", Ancestry::Elf, Class::Wizard));
    assert_eq!(s.characters.len(), 2);
    assert_eq!(s.party.members, vec![1, 2]);
    assert_eq!(s.characters[1].name, "Thornwick the Wise");
}

#[test]
fn error_messages_name_the_failure() {
    assert_eq!(GameError::WrongView.message(), "Action not available in current view");
    assert_eq!(GameError::NoPosition.message(), "Party has no position");
    assert_eq!(GameError::NoMap.message(), "No tactical map loaded");
    assert_eq!(GameError::InvalidLocation.message(), "Invalid location");
    assert_eq!(GameError::SerializationError.message(), "Serialization error");
}

#[test]
fn night_boundaries_follow_the_hour() {
    assert!(GameTime { total_minutes: 20 * 60 }.is_night());
    assert!(!GameTime { total_minutes: 19 * 60 + 59 }.is_night());
    assert!(!GameTime { total_minutes: 6 * 60 }.is_night());
    assert!(GameTime { total_minutes: 5 * 60 + 59 }.is_night());
}

#[test]
fn city_and_forest_moves_cost_their_terrain_minutes() {
    let mut s = GameState::new(10, 10);
    s.world_map.set_terrain(6, 5, WorldTerrain::City);
    s.world_map.set_terrain(7, 5, WorldTerrain::Forest);
    s.party_world_position = Some((5, 5));
    s.move_party_world(1, 0).unwrap();
    assert_eq!(s.game_time.total_minutes, 8 * 60 + 60);
    s.move_party_world(1, 0).unwrap();
    assert_eq!(s.game_time.total_minutes, 8 * 60 + 60 + 90);
}

#[test]
fn add_tactical_map_overwrites_by_id() {
    let mut s = GameState::new(4, 4);
    s.add_tactical_map(TacticalMap::new(7, "First", 3, 3));
    s.add_tactical_map(TacticalMap::new(7, "Second", 5, 5));
    assert_eq!(s.tactical_maps.len(), 1);
    assert_eq!(s.tactical_maps[0].name, "Second");
    assert_eq!(s.tactical_maps[0].width, 5);
}
