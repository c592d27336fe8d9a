use pathfinder_core::character::{Ancestry, Character, Class};
use pathfinder_core::game::{GameError, GameState};
use pathfinder_core::tactical::{Exit, ExitDestination, TacticalMap, TacticalTile};
use pathfinder_core::types::ViewMode;
use pathfinder_core::world::{Location, LocationType};

fn location(id: u32, x: u32, y: u32, map: Option<u32>) -> Location {
    Location {
        id,
        name: format!("Site {}", id),
        location_type: LocationType::Dungeon,
        world_position: (x, y),
        tactical_map_id: map,
        discovered: true,
        quest_markers: Vec::new(),
    }
}

fn game_with_town() -> GameState {
    let mut s = GameState::new(30, 20);
    let mut map = TacticalMap::new(100, "Willowdale", 20, 15);
    map.spawn_points = vec![(10, 13), (11, 13)];
    s.add_tactical_map(map);
    s.world_map.add_location(location(1, 2, 5, Some(100)));
    for (id, name) in [(1, "Valeria"), (2, "Thornwick"), (3, "Brak"), (4, "Pip")] {
        s.add_character(Character::new(id, name, Ancestry::Human, Class::Fighter));
    }
    s
}

#[test]
fn entering_a_location_switches_to_exploration() {
    let mut s = game_with_town();
    s.enter_location(1).unwrap();
    assert_eq!(s.current_view, ViewMode::TacticalExploration);
    assert_eq!(s.active_tactical_map, Some(100));
    assert!(s.party_world_position.is_none());
}

#[test]
fn spawn_assignment_overflows_east_of_the_first_spawn() {
    // two spawn points, four members: the first two members get the spawn
    // points, the last two line up east of the first spawn point
    let mut s = game_with_town();
    s.enter_location(1).unwrap();
    assert_eq!(
        s.party_tactical_positions,
        vec![(1, 10, 13), (2, 11, 13), (3, 12, 13), (4, 13, 13)]
    );
}

#[test]
fn entering_without_spawn_points_places_nobody() {
    let mut s = game_with_town();
    let map = TacticalMap::new(200, "Bare", 5, 5);
    s.add_tactical_map(map);
    s.world_map.add_location(location(2, 3, 3, Some(200)));
    s.enter_location(2).unwrap();
    assert_eq!(s.current_view, ViewMode::TacticalExploration);
    assert!(s.party_tactical_positions.is_empty());
}

#[test]
fn enter_location_errors_cover_every_missing_piece() {
    let mut s = game_with_town();
    assert_eq!(s.enter_location(99), Err(GameError::InvalidLocation));
    s.world_map.add_location(location(2, 3, 3, None));
    assert_eq!(s.enter_location(2), Err(GameError::NoMap));
    s.world_map.add_location(location(3, 4, 4, Some(999)));
    assert_eq!(s.enter_location(3), Err(GameError::NoMap));
    s.current_view = ViewMode::TacticalExploration;
    assert_eq!(s.enter_location(1), Err(GameError::WrongView));
}

#[test]
fn enter_then_exit_restores_the_world_view() {
    let mut s = game_with_town();
    s.enter_location(1).unwrap();
    s.exit_to_world(2, 5).unwrap();
    assert_eq!(s.current_view, ViewMode::WorldMap);
    assert_eq!(s.party_world_position, Some((2, 5)));
    assert!(s.party_tactical_positions.is_empty());
    assert!(s.active_tactical_map.is_none());
}

#[test]
fn exit_to_world_takes_the_position_verbatim() {
    let mut s = game_with_town();
    s.enter_location(1).unwrap();
    // no bounds check at this layer: far outside the 30x20 grid is accepted
    s.exit_to_world(1000, 2000).unwrap();
    assert_eq!(s.party_world_position, Some((1000, 2000)));
}

#[test]
fn exit_to_world_errors_outside_the_tactical_views() {
    let mut s = game_with_town();
    assert_eq!(s.exit_to_world(2, 5), Err(GameError::WrongView));
    s.current_view = ViewMode::Menu;
    assert_eq!(s.exit_to_world(2, 5), Err(GameError::WrongView));
}

#[test]
fn transition_tactical_lines_the_party_up_east_of_the_spawn() {
    let mut s = game_with_town();
    s.enter_location(1).unwrap();
    let level_two = TacticalMap::new(200, "Depths", 10, 10);
    s.add_tactical_map(level_two);
    s.transition_tactical(200, 4, 4).unwrap();
    assert_eq!(s.current_view, ViewMode::TacticalExploration);
    assert_eq!(s.active_tactical_map, Some(200));
    assert_eq!(
        s.party_tactical_positions,
        vec![(1, 4, 4), (2, 5, 4), (3, 6, 4), (4, 7, 4)]
    );
}

#[test]
fn transition_tactical_falls_back_to_the_spawn_on_impassable_tiles() {
    let mut s = game_with_town();
    s.enter_location(1).unwrap();
    let mut level_two = TacticalMap::new(200, "Depths", 10, 10);
    level_two.set_tile(5, 4, TacticalTile::wall());
    level_two.set_tile(7, 4, TacticalTile::wall());
    s.add_tactical_map(level_two);
    s.transition_tactical(200, 4, 4).unwrap();
    assert_eq!(
        s.party_tactical_positions,
        vec![(1, 4, 4), (2, 4, 4), (3, 6, 4), (4, 4, 4)]
    );
}

#[test]
fn transition_tactical_errors_cover_every_missing_piece() {
    let mut s = game_with_town();
    assert_eq!(s.transition_tactical(100, 0, 0), Err(GameError::WrongView));
    s.enter_location(1).unwrap();
    assert_eq!(s.transition_tactical(999, 0, 0), Err(GameError::NoMap));
}

#[test]
fn handle_exit_dispatches_by_destination() {
    let mut s = game_with_town();
    s.enter_location(1).unwrap();
    let world_exit = Exit { position: (0, 0), destination: ExitDestination::WorldMap(2, 5) };
    s.handle_exit(&world_exit).unwrap();
    assert_eq!(s.current_view, ViewMode::WorldMap);
    assert_eq!(s.party_world_position, Some((2, 5)));

    s.enter_location(1).unwrap();
    let level_two = TacticalMap::new(200, "Depths", 10, 10);
    s.add_tactical_map(level_two);
    let stairs = Exit { position: (1, 1), destination: ExitDestination::TacticalMap(200, 3, 3) };
    s.handle_exit(&stairs).unwrap();
    assert_eq!(s.active_tactical_map, Some(200));
    assert_eq!(s.party_tactical_positions[0], (1, 3, 3));
}

#[test]
fn failed_transitions_leave_the_state_untouched() {
    let mut s = game_with_town();
    s.enter_location(1).unwrap();
    let positions = s.party_tactical_positions.clone();
    assert_eq!(s.transition_tactical(999, 0, 0), Err(GameError::NoMap));
    assert_eq!(s.current_view, ViewMode::TacticalExploration);
    assert_eq!(s.active_tactical_map, Some(100));
    assert_eq!(s.party_tactical_positions, positions);
}

#[test]
fn spawn_points_cover_the_whole_party_when_plentiful() {
    let mut s = GameState::new(30, 20);
    let mut map = TacticalMap::new(100, "Camp", 9, 9);
    map.spawn_points = vec![(1, 1), (2, 1), (3, 1), (4, 1)];
    s.add_tactical_map(map);
    s.world_map.add_location(location(1, 2, 5, Some(100)));
    s.add_character(Character::new(1, "Valeria", Ancestry::Human, Class::Fighter));
    s.add_character(Character::new(2, "Pip", Ancestry::Halfling, Class::Rogue));
    s.enter_location(1).unwrap();
    assert_eq!(s.party_tactical_positions, vec![(1, 1, 1), (2, 2, 1)]);
}
