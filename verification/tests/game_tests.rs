use team_heist_tactics::game::{Game, GameHandle, GameOptions, MoveValidity};
use team_heist_tactics::load_map::{tile_1a, tile_2, tile_5, tile_8};
use team_heist_tactics::types::{
    Body, Heister, HeisterColor, MainMessage, MapPosition, Move, MoveDirection, PlaceTile,
    PlayerName, Tile,
};

fn fake_player_name() -> PlayerName {
    PlayerName("fake name".to_string())
}

fn setup_game(handle: String) -> Game {
    let game_handle = GameHandle(handle);
    let game_options = GameOptions::default();
    let mut game = Game::new(game_handle, game_options);
    game.add_player(fake_player_name().0.clone()).unwrap();
    game.start_game();
    game
}

/// Adjacent square movement for heisters, to make testing easier.
/// Asserts that the move has the expected validity and that the position
/// is correct for a valid move.
fn move_heister_in_dir(
    game: &mut Game,
    heister_color: HeisterColor,
    dir: MoveDirection,
    expected_validity: MoveValidity,
) -> MoveValidity {
    let heister_pos = game
        .game_state
        .get_heister_from_vec(heister_color)
        .unwrap()
        .map_position;
    let position = match dir {
        MoveDirection::North => MapPosition {
            x: heister_pos.x,
            y: heister_pos.y - 1,
        },
        MoveDirection::East => MapPosition {
            x: heister_pos.x + 1,
            y: heister_pos.y,
        },
        MoveDirection::South => MapPosition {
            x: heister_pos.x,
            y: heister_pos.y + 1,
        },
        MoveDirection::West => MapPosition {
            x: heister_pos.x - 1,
            y: heister_pos.y,
        },
    };
    let test_move = Move {
        heister_color,
        position,
    };
    let message = MainMessage {
        body: Some(Body::Move(test_move)),
    };
    let validity = game.handle_message(message, &fake_player_name());
    assert_eq!(validity, expected_validity);
    match validity.clone() {
        MoveValidity::Valid => {
            let curr_heister_pos = game
                .game_state
                .get_heister_from_vec(heister_color)
                .unwrap()
                .map_position;
            assert_eq!(curr_heister_pos, position);
        }
        _invalid => {}
    }
    validity
}

/// Currently only exercises the initial second-tile placement through
/// Orange's north door.
fn place_first_tile_for_color(
    game: &mut Game,
    _heister_color: HeisterColor,
    tile_entrance: MapPosition,
    expected_validity: MoveValidity,
) -> MoveValidity {
    let tile_placement = PlaceTile { tile_entrance };
    let message = MainMessage {
        body: Some(Body::PlaceTile(tile_placement)),
    };
    let validity = game.handle_message(message, &fake_player_name());
    assert_eq!(validity, expected_validity);

    for tile in &game.game_state.tiles {
        if tile.name == "1a".to_string() {
            let mp_00 = MapPosition { x: 0, y: 0 };
            assert_eq!(tile.position, mp_00);
        } else {
            // No matter the tile name, if we use this path to draw it, its
            // position should be here.
            let mp_1neg3 = MapPosition { x: 1, y: -4 };
            assert_eq!(tile.position, mp_1neg3);
        }
    }
    validity
}

/// Assuming that Purple starts at 1, 1, this test moves it up into a free
/// square and then back down to its starting square, and checks that both
/// moves are accepted as valid.
#[test]
pub fn test_can_move_to_free_square() {
    let handle = "test can move to free square".to_string();
    let mut game = setup_game(handle);

    // Confirm the purple heister is where we expect it to begin with.
    let heister_color = HeisterColor::Purple;
    let heister_pos = game
        .game_state
        .get_heister_from_vec(heister_color)
        .unwrap()
        .map_position;
    assert_eq!(heister_pos.x, 1);
    assert_eq!(heister_pos.y, 1);

    let validity = move_heister_in_dir(
        &mut game,
        heister_color,
        MoveDirection::North,
        MoveValidity::Valid,
    );
    assert_eq!(validity, MoveValidity::Valid);

    let validity = move_heister_in_dir(
        &mut game,
        heister_color,
        MoveDirection::South,
        MoveValidity::Valid,
    );
    assert_eq!(validity, MoveValidity::Valid);
}

#[test]
pub fn heister_collision_is_invalid() {
    let handle = "heister collision is invalid".to_string();
    let mut game = setup_game(handle);
    // Green starts at 2, 2 and Orange at 2, 1: moving Green up must be
    // invalid because Orange is there.

    let src_position = MapPosition { x: 2, y: 2 };
    let heister_color = HeisterColor::Green;
    let heister_pos = game
        .game_state
        .get_heister_from_vec(heister_color)
        .unwrap()
        .map_position;
    assert_eq!(heister_pos.x, src_position.x);
    assert_eq!(heister_pos.y, src_position.y);

    let dest_position = MapPosition { x: 2, y: 1 };
    let expected_msg = format!(
        "Heister {:?} is on {:?}",
        HeisterColor::Orange,
        dest_position
    );
    let expected_validity = MoveValidity::Invalid(expected_msg);
    move_heister_in_dir(
        &mut game,
        HeisterColor::Green,
        MoveDirection::North,
        expected_validity,
    );
    let curr_green_pos = game
        .game_state
        .get_heister_from_vec(HeisterColor::Green)
        .unwrap();
    assert_eq!(curr_green_pos.map_position, src_position);
}

#[test]
pub fn grid_walls_align() {
    let handle = "grid walls align".to_string();
    let game = setup_game(handle);
    let grid = game.game_state.get_absolute_grid();

    for (mp, square) in grid.entries.iter() {
        // Check left wall lines up.
        if mp.x > 0 {
            let index = MapPosition {
                x: mp.x - 1,
                y: mp.y,
            };
            let msg = format!("Map tile {},{} not found", &mp.x, &mp.y);
            let left = grid.get(&index).expect(&msg);
            assert_eq!(square.west_wall, left.east_wall);
        }
        // Check right wall lines up.
        if mp.x < 3 {
            let index = MapPosition {
                x: mp.x + 1,
                y: mp.y,
            };
            let msg = format!("Map tile {},{} not found", &mp.x, &mp.y);
            let right = grid.get(&index).expect(&msg);
            assert_eq!(square.east_wall, right.west_wall);
        }
        // Check top wall lines up.
        if mp.y > 0 {
            let index = MapPosition {
                x: mp.x,
                y: mp.y - 1,
            };
            let msg = format!("Map tile {},{} not found", &mp.x, &mp.y);
            let above = grid.get(&index).expect(&msg);
            assert_eq!(square.north_wall, above.south_wall);
        }
        // Check bottom wall lines up.
        if mp.y < 3 {
            let index = MapPosition {
                x: mp.x,
                y: mp.y + 1,
            };
            let msg = format!("Map tile {},{} not found", &mp.x, &mp.y);
            let below = grid.get(&index).expect(&msg);
            assert_eq!(square.south_wall, below.north_wall);
        }
    }
}

/// We test with the initial game state, move Orange one square north,
/// and then send a draw-tile message.
#[test]
pub fn test_tile_draw() {
    let handle = "grid walls align".to_string();
    let mut game = setup_game(handle);
    let first_tile_entrance = MapPosition { x: 2, y: -1 };

    move_heister_in_dir(
        &mut game,
        HeisterColor::Orange,
        MoveDirection::North,
        MoveValidity::Valid,
    );
    place_first_tile_for_color(
        &mut game,
        HeisterColor::Orange,
        first_tile_entrance,
        MoveValidity::Valid,
    );
}

/// Ensure that we generate possible placements that are correct for the
/// color of heister and door.
#[test]
pub fn possible_placements_no_mismatched_results() {
    let handle = "possible placements no mismatched results".to_string();
    let mut game = setup_game(handle);
    // Set up the game such that all heisters are at matching doors.

    let orange_door_pos = MapPosition { x: 2, y: 0 };
    let purple_door_pos = MapPosition { x: 0, y: 1 };
    let yellow_door_pos = MapPosition { x: 1, y: 3 };
    let green_door_pos = MapPosition { x: 3, y: 2 };
    let heister_colors = [
        HeisterColor::Purple,
        HeisterColor::Orange,
        HeisterColor::Green,
        HeisterColor::Yellow,
    ];

    let mut heisters: Vec<Heister> = Vec::new();
    for hc in heister_colors.iter() {
        let mut h = Heister::default();
        h.heister_color = *hc;
        h.map_position = match hc {
            HeisterColor::Orange => orange_door_pos,
            HeisterColor::Purple => purple_door_pos,
            HeisterColor::Yellow => yellow_door_pos,
            HeisterColor::Green => green_door_pos,
        };
        heisters.push(h);
    }

    // Move heisters in place.
    game.game_state.heisters = heisters;
    let dest_position = MapPosition { x: 2, y: 0 };
    let test_move = Move {
        heister_color: HeisterColor::Orange,
        position: dest_position,
    };
    let message = MainMessage {
        body: Some(Body::Move(test_move)),
    };
    game.handle_message(message, &fake_player_name()); // don't care if this move is valid

    let pp = game.game_state.possible_placements;
    assert_eq!(pp.len(), 4);
}

#[test]
pub fn can_use_escalators() {
    let handle = "any heister can walk into an escalator square".to_string();
    let mut game = setup_game(handle);

    // We only need Green, since Green on the starting tile can immediately
    // move to an escalator.
    move_heister_in_dir(
        &mut game,
        HeisterColor::Green,
        MoveDirection::South,
        MoveValidity::Valid,
    );

    let green_door_pos = MapPosition { x: 3, y: 2 };
    let esc_move = Move {
        heister_color: HeisterColor::Green,
        position: green_door_pos,
    };
    let message = MainMessage {
        body: Some(Body::Move(esc_move)),
    };
    let validity = game.handle_message(message, &fake_player_name());
    assert_eq!(validity, MoveValidity::Valid);
}

#[test]
pub fn can_enter_mismatched_teleport() {
    let handle = "any heister can walk into a mismatched teleport square".to_string();
    let mut game = setup_game(handle);

    // We only need Orange, since Orange on the starting tile can
    // immediately walk onto the yellow teleporter.
    move_heister_in_dir(
        &mut game,
        HeisterColor::Orange,
        MoveDirection::East,
        MoveValidity::Valid,
    );
}

/// Helper for rotating tiles.
fn rotate_tile(tile: Tile) -> Tile {
    let mut m = tile.to_matrix();
    for _ in 0..tile.num_rotations {
        m = Tile::rotate_matrix_clockwise(&m);
    }
    Tile::from_matrix(m, tile.name.clone(), tile.position, tile.num_rotations)
}

/// Adjacent teleports must not be processed as walking moves that would
/// be blocked by the wall between the two pads.
#[test]
pub fn can_teleport_between_adjacent_teleporters() {
    let handle = "can teleport between adjacent teleporters".to_string();
    let mut game = setup_game(handle);
    let tile_1 = tile_1a();
    let mut tile_8 = tile_8();
    tile_8.position = MapPosition { x: 5, y: 1 };
    tile_8.num_rotations = 1;
    tile_8 = rotate_tile(tile_8);

    let mut tile_2 = tile_2();
    tile_2.position = MapPosition { x: 6, y: -3 };
    tile_2.num_rotations = 0;
    let mut tile_5 = tile_5();
    tile_5.position = MapPosition { x: 1, y: -4 };
    tile_5.num_rotations = 3;
    tile_5 = rotate_tile(tile_5);
    let tiles: Vec<Tile> = vec![tile_1, tile_8, tile_2, tile_5];
    game.game_state.tiles = tiles;

    // Purple walks to the first teleporter at 3, 0, then teleports to its
    // next teleporter at 3, -1.
    move_heister_in_dir(
        &mut game,
        HeisterColor::Purple,
        MoveDirection::North,
        MoveValidity::Valid,
    );
    move_heister_in_dir(
        &mut game,
        HeisterColor::Purple,
        MoveDirection::East,
        MoveValidity::Valid,
    );
    move_heister_in_dir(
        &mut game,
        HeisterColor::Purple,
        MoveDirection::East,
        MoveValidity::Valid,
    );
    // THIS move is the attempted teleport. It must succeed, in spite of
    // the wall between these two adjacent squares.
    move_heister_in_dir(
        &mut game,
        HeisterColor::Purple,
        MoveDirection::North,
        MoveValidity::Valid,
    );
}

/// We test with the initial game state, move Orange one square north,
/// place a tile, and cross into the new tile and back.
#[test]
pub fn test_new_tile_crossing() {
    let handle = "new tile crossing".to_string();
    let mut game = setup_game(handle);
    let first_tile_entrance = MapPosition { x: 2, y: -1 };

    move_heister_in_dir(
        &mut game,
        HeisterColor::Orange,
        MoveDirection::North,
        MoveValidity::Valid,
    );
    place_first_tile_for_color(
        &mut game,
        HeisterColor::Orange,
        first_tile_entrance,
        MoveValidity::Valid,
    );

    // Next, we want to move orange UP, then down.
    move_heister_in_dir(
        &mut game,
        HeisterColor::Orange,
        MoveDirection::North,
        MoveValidity::Valid,
    );
    move_heister_in_dir(
        &mut game,
        HeisterColor::Orange,
        MoveDirection::South,
        MoveValidity::Valid,
    );
}

// Ensure that a player with no abilities can't do anything.
#[test]
pub fn test_ability_check() {
    let handle = "new tile crossing".to_string();
    let mut game = setup_game(handle);
    game.game_state.players[0].abilities = vec![];
    let first_tile_entrance = MapPosition { x: 2, y: -1 };

    move_heister_in_dir(
        &mut game,
        HeisterColor::Orange,
        MoveDirection::North,
        MoveValidity::Invalid("You cannot move heisters North".to_string()),
    );
    place_first_tile_for_color(
        &mut game,
        HeisterColor::Orange,
        first_tile_entrance,
        MoveValidity::Invalid("You cannot reveal tiles".to_string()),
    );
    move_heister_in_dir(
        &mut game,
        HeisterColor::Orange,
        MoveDirection::North,
        MoveValidity::Invalid("You cannot move heisters North".to_string()),
    );
    move_heister_in_dir(
        &mut game,
        HeisterColor::Orange,
        MoveDirection::South,
        MoveValidity::Invalid("You cannot move heisters South".to_string()),
    );
}
