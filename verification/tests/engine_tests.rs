use team_heist_tactics::game::{Game, GameHandle, GameOptions, MoveValidity};
use team_heist_tactics::game_state::GameState;
use team_heist_tactics::text::{occupied_message, position_not_on_map_message};
use team_heist_tactics::types::{
    Ability, Body, GameStatus, HeisterColor, MainMessage, MapPosition, Move, PlaceTile,
    PlayerName, SquareType, WallType,
};

fn player() -> PlayerName {
    PlayerName("crew".to_string())
}

fn fresh_game(handle: &str) -> Game {
    let mut game = Game::new(GameHandle(handle.to_string()), GameOptions::default());
    game.add_player(player().0.clone()).unwrap();
    game.start_game();
    game
}

fn send_move(game: &mut Game, color: HeisterColor, x: i32, y: i32) -> MoveValidity {
    let message = MainMessage {
        body: Some(Body::Move(Move {
            heister_color: color,
            position: MapPosition { x, y },
        })),
    };
    game.handle_message(message, &player())
}

fn pos_of(game: &Game, color: HeisterColor) -> MapPosition {
    game.game_state
        .get_heister_from_vec(color)
        .unwrap()
        .map_position
}

/// Moving a heister onto its current position is valid and leaves every
/// other heister where it was.
#[test]
fn noop_move_is_valid() {
    let mut game = fresh_game("noop move");
    let purple = pos_of(&game, HeisterColor::Purple);
    let yellow_before = pos_of(&game, HeisterColor::Yellow);
    let green_before = pos_of(&game, HeisterColor::Green);
    let orange_before = pos_of(&game, HeisterColor::Orange);

    let v = send_move(&mut game, HeisterColor::Purple, purple.x, purple.y);
    assert_eq!(v, MoveValidity::Valid);
    assert_eq!(pos_of(&game, HeisterColor::Purple), purple);
    assert_eq!(pos_of(&game, HeisterColor::Yellow), yellow_before);
    assert_eq!(pos_of(&game, HeisterColor::Green), green_before);
    assert_eq!(pos_of(&game, HeisterColor::Orange), orange_before);
}

/// Walking into an impassable wall is rejected with the fixed reason,
/// whether or not the destination is occupied.
#[test]
fn impassable_wall_blocks_walk() {
    let mut game = fresh_game("impassable wall");
    // Purple walks to (1, 0); the wall north of (1, 0) is impassable.
    assert_eq!(send_move(&mut game, HeisterColor::Purple, 1, 0), MoveValidity::Valid);
    let v = send_move(&mut game, HeisterColor::Purple, 1, -1);
    assert_eq!(
        v,
        MoveValidity::Invalid("Can't pass through impassable wall".to_string())
    );
    assert_eq!(pos_of(&game, HeisterColor::Purple), MapPosition { x: 1, y: 0 });
}

/// A door wall that was never opened blocks walking, citing the wall.
#[test]
fn closed_door_blocks_walk() {
    let mut game = fresh_game("closed door");
    // Purple steps onto (0, 1), whose west wall is its own purple door;
    // walking through the unopened door is still rejected.
    assert_eq!(send_move(&mut game, HeisterColor::Purple, 0, 1), MoveValidity::Valid);
    let v = send_move(&mut game, HeisterColor::Purple, -1, 1);
    assert_eq!(
        v,
        MoveValidity::Invalid("Wall PurpleDoor cannot be passed through".to_string())
    );
}

/// A teleport to a pad of another color is rejected with the fixed reason.
#[test]
fn teleport_wrong_color_is_invalid() {
    let mut game = fresh_game("teleport color");
    // (0, 2) is the orange teleport pad; Purple may not use it.
    let v = send_move(&mut game, HeisterColor::Purple, 0, 2);
    assert_eq!(
        v,
        MoveValidity::Invalid("Heister and teleporter color do not match".to_string())
    );
}

/// A teleport of the right color onto an occupied pad is rejected, citing
/// the occupant.
#[test]
fn teleport_onto_occupied_pad_is_invalid() {
    let mut game = fresh_game("teleport occupied");
    // Yellow walks onto the purple teleport pad at (3, 0).
    assert_eq!(send_move(&mut game, HeisterColor::Yellow, 1, 1).is_valid(), false);
    let mut yellow = *game
        .game_state
        .get_heister_from_vec(HeisterColor::Yellow)
        .unwrap();
    yellow.map_position = MapPosition { x: 3, y: 0 };
    let purple = *game
        .game_state
        .get_heister_from_vec(HeisterColor::Purple)
        .unwrap();
    let green = *game
        .game_state
        .get_heister_from_vec(HeisterColor::Green)
        .unwrap();
    let orange = *game
        .game_state
        .get_heister_from_vec(HeisterColor::Orange)
        .unwrap();
    game.game_state.heisters = vec![yellow, purple, green, orange];
    let expected = occupied_message(HeisterColor::Yellow, &MapPosition { x: 3, y: 0 });
    let v = send_move(&mut game, HeisterColor::Purple, 3, 0);
    assert_eq!(v, MoveValidity::Invalid(expected));
}

/// An escalator move to an escalator square of a different tile is
/// rejected even though both endpoints are escalator squares.
#[test]
fn escalator_on_other_tile_is_invalid() {
    let mut game = fresh_game("escalator other tile");
    let mut second = team_heist_tactics::load_map::tile_2();
    second.position = MapPosition { x: 6, y: -3 };
    game.game_state.tiles.push(second);

    // Green walks onto the escalator at (2, 3).
    assert_eq!(send_move(&mut game, HeisterColor::Green, 2, 3), MoveValidity::Valid);
    // Tile 2's escalator at index 2 sits at (8, -3).
    let v = send_move(&mut game, HeisterColor::Green, 8, -3);
    assert_eq!(
        v,
        MoveValidity::Invalid("Heister and dest escalator are on different tiles".to_string())
    );
}

/// Landing on the timer-flip square spends it and keeps the deadline at
/// or past the start of the clock.
#[test]
fn timer_flip_square_is_spent() {
    let mut game = fresh_game("timer flip");
    assert_eq!(send_move(&mut game, HeisterColor::Purple, 1, 0), MoveValidity::Valid);
    assert_eq!(send_move(&mut game, HeisterColor::Purple, 0, 0), MoveValidity::Valid);
    let grid = game.game_state.get_absolute_grid();
    let sq = grid.get(&MapPosition { x: 0, y: 0 }).unwrap();
    assert_eq!(sq.square_type, SquareType::TimerFlipUsed);
    assert!(game.game_state.timer_runs_out >= game.game_state.game_started);
}

/// Once the game is over, move and place-tile messages are rejected with
/// the not-accepting reason; victory and defeat are terminal.
#[test]
fn terminal_states_reject_moves() {
    let mut game = fresh_game("h");
    game.game_state.game_status = GameStatus::Victory;
    let v = send_move(&mut game, HeisterColor::Purple, 1, 0);
    let expected = format!(
        "Game {:?} is in state {:?} and is not accepting moves",
        "h",
        GameStatus::Victory
    );
    assert_eq!(v, MoveValidity::Invalid(expected));
    assert_eq!(game.game_state.game_status, GameStatus::Victory);

    let mut game = fresh_game("d");
    assert_eq!(send_move(&mut game, HeisterColor::Purple, 1, 0), MoveValidity::Valid);
    // Force the deadline into the past; the next message discovers defeat.
    game.game_state.timer_runs_out = 1;
    game.game_state.game_started = 1;
    let v = send_move(&mut game, HeisterColor::Purple, 1, 1);
    assert!(v.is_invalid());
    assert_eq!(game.game_state.game_status, GameStatus::Defeat);
}

/// Server-only message bodies are rejected as structurally invalid input
/// from a player.
#[test]
fn server_only_bodies_are_rejected() {
    let mut game = fresh_game("server only");
    let snapshot = game.get_game_state();
    let v = game.handle_message(
        MainMessage {
            body: Some(Body::GameState(snapshot)),
        },
        &player(),
    );
    assert_eq!(
        v,
        MoveValidity::Invalid("GameState Message is invalid from players".to_string())
    );
    let v = game.handle_message(
        MainMessage {
            body: Some(Body::InvalidRequest(
                team_heist_tactics::types::InvalidRequest {
                    reason: "nope".to_string(),
                },
            )),
        },
        &player(),
    );
    assert_eq!(
        v,
        MoveValidity::Invalid("InvalidRequest Message is invalid from players".to_string())
    );
    let v = game.handle_message(
        MainMessage {
            body: Some(Body::Chat("hello".to_string())),
        },
        &player(),
    );
    assert_eq!(v, MoveValidity::Valid);
}

/// Placing a tile with an empty deck is rejected without touching state.
#[test]
fn empty_deck_rejects_placement() {
    let mut game = fresh_game("empty deck");
    game.tile_deck = vec![];
    assert_eq!(send_move(&mut game, HeisterColor::Orange, 2, 0), MoveValidity::Valid);
    let v = game.handle_message(
        MainMessage {
            body: Some(Body::PlaceTile(PlaceTile {
                tile_entrance: MapPosition { x: 2, y: -1 },
            })),
        },
        &player(),
    );
    assert_eq!(
        v,
        MoveValidity::Invalid("No tiles left in deck to draw".to_string())
    );
    assert_eq!(game.game_state.tiles.len(), 1);
}

/// Placing a tile from a square that offers no entrance is rejected.
#[test]
fn placement_needs_a_door() {
    let mut game = fresh_game("needs a door");
    let v = game.handle_message(
        MainMessage {
            body: Some(Body::PlaceTile(PlaceTile {
                tile_entrance: MapPosition { x: 7, y: 7 },
            })),
        },
        &player(),
    );
    assert_eq!(
        v,
        MoveValidity::Invalid(
            "When placing a tile, the heister must be at a tile-reveal door".to_string()
        )
    );
}

/// After a valid placement both walls of the entry edge are clear: the
/// previously exposed door square and the new tile's facing door square.
#[test]
fn placement_opens_entry_door() {
    let mut game = fresh_game("opens entry door");
    assert_eq!(send_move(&mut game, HeisterColor::Orange, 2, 0), MoveValidity::Valid);
    let v = game.handle_message(
        MainMessage {
            body: Some(Body::PlaceTile(PlaceTile {
                tile_entrance: MapPosition { x: 2, y: -1 },
            })),
        },
        &player(),
    );
    assert_eq!(v, MoveValidity::Valid);
    let grid = game.game_state.get_absolute_grid();
    let door_square = grid.get(&MapPosition { x: 2, y: 0 }).unwrap();
    assert_eq!(door_square.north_wall, WallType::Clear);
    let facing = grid.get(&MapPosition { x: 2, y: -1 }).unwrap();
    assert_eq!(facing.south_wall, WallType::Clear);
}

/// The all-items flag is sticky: once set, every heister reports its item
/// taken after the next handled message.
#[test]
fn items_taken_flag_is_sticky() {
    let mut game = fresh_game("items sticky");
    game.game_state.all_items_taken = true;
    let v = game.handle_message(
        MainMessage {
            body: Some(Body::Chat("tick".to_string())),
        },
        &player(),
    );
    assert_eq!(v, MoveValidity::Valid);
    assert!(game.game_state.all_items_taken);
    for h in &game.game_state.heisters {
        assert!(h.has_taken_item);
    }
}

/// Shuffling the deck keeps exactly the eight authored tiles.
#[test]
fn shuffled_deck_holds_the_authored_tiles() {
    let game = Game::new(
        GameHandle("deck".to_string()),
        GameOptions {
            shuffle_tiles: true,
            teleport_only_from_portal: false,
        },
    );
    assert_eq!(game.tile_deck.len(), 8);
    let mut names: Vec<String> = game.tile_deck.iter().map(|t| t.name.clone()).collect();
    names.sort();
    let expected: Vec<String> = ["2", "3", "4", "5", "6", "7", "8", "9"]
        .iter()
        .map(|s| s.to_string())
        .collect();
    assert_eq!(names, expected);
}

/// The rejection texts render coordinates exactly as the debug format of
/// a position does, including negative numbers and the extremes.
#[test]
fn message_rendering_matches_debug_format() {
    let p = MapPosition { x: -3, y: -10 };
    assert_eq!(
        position_not_on_map_message(&p),
        format!("Position {:?} not on map", p)
    );
    let q = MapPosition {
        x: i32::MIN,
        y: i32::MAX,
    };
    assert_eq!(
        occupied_message(HeisterColor::Green, &q),
        format!("Heister {:?} is on {:?}", HeisterColor::Green, q)
    );
}

/// A fresh state starts staging with the four heisters at their canonical
/// offsets and eight tiles to draw.
#[test]
fn fresh_state_is_canonical() {
    let state = GameState::new(GameHandle("fresh".to_string()));
    assert_eq!(state.game_status, GameStatus::Staging);
    assert_eq!(state.remaining_tiles, 8);
    assert_eq!(state.tiles.len(), 1);
    assert_eq!(state.tiles[0].name, "1a");
    let purple = state.get_heister_from_vec(HeisterColor::Purple).unwrap();
    assert_eq!(purple.map_position, MapPosition { x: 1, y: 1 });
    let orange = state.get_heister_from_vec(HeisterColor::Orange).unwrap();
    assert_eq!(orange.map_position, MapPosition { x: 2, y: 1 });
    let yellow = state.get_heister_from_vec(HeisterColor::Yellow).unwrap();
    assert_eq!(yellow.map_position, MapPosition { x: 1, y: 2 });
    let green = state.get_heister_from_vec(HeisterColor::Green).unwrap();
    assert_eq!(green.map_position, MapPosition { x: 2, y: 2 });
}

/// A straight multi-square drag succeeds over free, connected squares and
/// is rejected when a wall on the path blocks it.
#[test]
fn multispace_drag_follows_walls() {
    let mut game = fresh_game("drag");
    // Clear the path along the top row first.
    assert_eq!(send_move(&mut game, HeisterColor::Purple, 1, 0), MoveValidity::Valid);
    let grid = game.game_state.get_absolute_grid();
    let v = game.game_state.validate_multispace_move(
        &grid,
        &MapPosition { x: 1, y: 0 },
        &MapPosition { x: 3, y: 0 },
    );
    assert_eq!(v, MoveValidity::Valid);
    // Dragging south out of the top-left corner crosses an impassable wall.
    let v = game.game_state.validate_multispace_move(
        &grid,
        &MapPosition { x: 0, y: 0 },
        &MapPosition { x: 0, y: 3 },
    );
    assert_eq!(
        v,
        MoveValidity::Invalid("Can't pass through impassable wall".to_string())
    );
}

/// The tile sketch renders the starting tile's top edge as authored: two
/// blocked squares, the orange door, and another blocked square.
#[test]
fn tile_sketch_top_row() {
    let t = team_heist_tactics::load_map::tile_1a();
    let sketch = t.pp();
    let first_line = sketch.lines().next().unwrap();
    assert_eq!(first_line, "._.._..O.._.");
    assert_eq!(sketch.lines().count(), 12);
}

/// Starting a two-player game partitions the fixed ability pool: between
/// them the players hold every one of the seven abilities exactly once.
#[test]
fn ability_partition_covers_every_ability() {
    let mut game = Game::new(GameHandle("partition".to_string()), GameOptions::default());
    game.add_player("one".to_string()).unwrap();
    game.add_player("two".to_string()).unwrap();
    game.start_game();
    let mut all: Vec<Ability> = Vec::new();
    for p in &game.game_state.players {
        all.extend(p.abilities.iter().cloned());
    }
    assert_eq!(all.len(), 7);
    for ability in [
        Ability::MoveNorth,
        Ability::MoveEast,
        Ability::MoveSouth,
        Ability::MoveWest,
        Ability::Teleport,
        Ability::RevealTiles,
        Ability::UseEscalator,
    ] {
        assert!(all.contains(&ability));
    }
}

/// A message without a body is rejected as structurally invalid.
#[test]
fn bodyless_message_is_rejected() {
    let mut game = fresh_game("no body");
    let v = game.handle_message(MainMessage { body: None }, &player());
    assert_eq!(v, MoveValidity::Invalid("Message has no body".to_string()));
}

/// A start request is granted only while staging or before the first
/// move; once the game is ongoing it is rejected and changes nothing.
#[test]
fn start_game_is_gated_by_status() {
    // Through the message seam, starting from staging succeeds.
    let mut game = Game::new(GameHandle("gate".to_string()), GameOptions::default());
    game.add_player(player().0.clone()).unwrap();
    let v = game.handle_message(
        MainMessage {
            body: Some(Body::StartGame(team_heist_tactics::types::StartGame {})),
        },
        &player(),
    );
    assert_eq!(v, MoveValidity::Valid);
    assert_eq!(game.game_state.game_status, GameStatus::PreFirstMove);

    // Once ongoing, a second start request is rejected and nothing changes.
    assert_eq!(send_move(&mut game, HeisterColor::Purple, 1, 0), MoveValidity::Valid);
    let abilities_before: Vec<Vec<Ability>> = game
        .game_state
        .players
        .iter()
        .map(|p| p.abilities.clone())
        .collect();
    let v = game.handle_message(
        MainMessage {
            body: Some(Body::StartGame(team_heist_tactics::types::StartGame {})),
        },
        &player(),
    );
    let expected = format!(
        "Game {:?} is in state {:?} and is not accepting moves",
        "gate",
        GameStatus::Ongoing
    );
    assert_eq!(v, MoveValidity::Invalid(expected));
    assert_eq!(game.game_state.game_status, GameStatus::Ongoing);
    let abilities_after: Vec<Vec<Ability>> = game
        .game_state
        .players
        .iter()
        .map(|p| p.abilities.clone())
        .collect();
    assert_eq!(abilities_before, abilities_after);
}

/// A move sent while the game is still staging is rejected and leaves the
/// whole state untouched.
#[test]
fn staging_rejects_moves_unchanged() {
    let mut game = Game::new(GameHandle("staging".to_string()), GameOptions::default());
    game.add_player(player().0.clone()).unwrap();
    let before = pos_of(&game, HeisterColor::Purple);
    let v = send_move(&mut game, HeisterColor::Purple, 1, 0);
    let expected = format!(
        "Game {:?} is in state {:?} and is not accepting moves",
        "staging",
        GameStatus::Staging
    );
    assert_eq!(v, MoveValidity::Invalid(expected));
    assert_eq!(game.game_state.game_status, GameStatus::Staging);
    assert_eq!(pos_of(&game, HeisterColor::Purple), before);
}
