//! The aggregate game state and its spatial rules: grid assembly, move
//! validation, door reconciliation and the derived caches.

use vstd::prelude::*;

use crate::game::{invalid_msg, GameHandle, MoveValidity};
use crate::grid::{entries_of, grid_of, Grid};
use crate::load_map::{tile_1a, tile_1a_squares};
use crate::text;
use crate::types::{
    pos_interior, pos_moderate, pos_workable, spec_door_direction, spec_door_wall,
    spec_initial_position, spec_move_direction, spec_move_in_direction, spec_square_color,
    spec_wall_color, square_has_door, tile_contains, tile_eqv, tile_wf, wall_in_dir, GameStatus,
    Heister, HeisterColor, MapPosition, MoveDirection, Player, Square, SquareType, StartingTile,
    Tile, WallType, TIMER_DURATION_SECS,
};
use crate::utils::get_current_time_secs;

verus! {

/// The most players one game accepts.
pub const MAX_PLAYERS: usize = 8;

/// The aggregate root: everything one game knows between two messages.
#[derive(Debug)]
pub struct GameState {
    pub game_name: GameHandle,
    pub game_started: u64,
    pub timer_runs_out: u64,
    pub tiles: Vec<Tile>,
    pub heisters: Vec<Heister>,
    pub all_items_taken: bool,
    pub remaining_tiles: u32,
    pub game_status: GameStatus,
    pub players: Vec<Player>,
    pub possible_placements: Vec<MapPosition>,
    pub possible_escalators: Vec<(HeisterColor, MapPosition)>,
    pub possible_teleports: Vec<(HeisterColor, Vec<MapPosition>)>,
    pub players_may_speak: bool,
}

/// Some heister of color `c` exists in the roster.
pub open spec fn has_color(hs: Seq<Heister>, c: HeisterColor) -> bool {
    exists|i: int| 0 <= i < hs.len() && (#[trigger] hs[i]).heister_color == c
}

/// Exactly one heister of each of the four colors, every position within
/// the moderate coordinate range.
pub open spec fn heisters_wf(hs: Seq<Heister>) -> bool {
    &&& hs.len() == 4
    &&& forall|i: int, j: int|
        0 <= i < j < hs.len() ==> (#[trigger] hs[i]).heister_color != (
        #[trigger] hs[j]).heister_color
    &&& has_color(hs, HeisterColor::Yellow)
    &&& has_color(hs, HeisterColor::Purple)
    &&& has_color(hs, HeisterColor::Green)
    &&& has_color(hs, HeisterColor::Orange)
    &&& forall|i: int| 0 <= i < hs.len() ==> pos_moderate((#[trigger] hs[i]).map_position)
}

pub open spec fn tiles_wf(ts: Seq<Tile>) -> bool {
    forall|i: int| 0 <= i < ts.len() ==> tile_wf(#[trigger] ts[i])
}

/// The structural invariant of a game state: what every constructor
/// establishes and every handler preserves.
pub open spec fn state_wf(g: GameState) -> bool {
    &&& heisters_wf(g.heisters@)
    &&& tiles_wf(g.tiles@)
}

/// The index of the first heister of color `c` at or after `n`, or the
/// roster length if there is none.
pub open spec fn find_color(hs: Seq<Heister>, c: HeisterColor, n: int) -> int
    decreases hs.len() - n,
{
    if n < 0 || n >= hs.len() {
        hs.len() as int
    } else if hs[n].heister_color == c {
        n
    } else {
        find_color(hs, c, n + 1)
    }
}

/// The index of the heister of color `c`.
pub open spec fn heister_index(hs: Seq<Heister>, c: HeisterColor) -> int {
    find_color(hs, c, 0)
}

pub proof fn lemma_find_color(hs: Seq<Heister>, c: HeisterColor, n: int)
    requires
        0 <= n <= hs.len(),
    ensures
        n <= find_color(hs, c, n) <= hs.len(),
        find_color(hs, c, n) < hs.len() ==> hs[find_color(hs, c, n)].heister_color == c,
        forall|i: int| n <= i < find_color(hs, c, n) ==> (#[trigger] hs[i]).heister_color != c,
        find_color(hs, c, n) == hs.len() ==> forall|i: int|
            n <= i < hs.len() ==> (#[trigger] hs[i]).heister_color != c,
    decreases hs.len() - n,
{
    if n < hs.len() && hs[n].heister_color != c {
        lemma_find_color(hs, c, n + 1);
    }
}

/// With a well-formed roster, every color is found.
pub proof fn lemma_heister_index_wf(hs: Seq<Heister>, c: HeisterColor)
    requires
        heisters_wf(hs),
    ensures
        0 <= heister_index(hs, c) < hs.len(),
        hs[heister_index(hs, c)].heister_color == c,
        forall|i: int|
            0 <= i < hs.len() && (#[trigger] hs[i]).heister_color == c ==> i == heister_index(
                hs,
                c,
            ),
{
    lemma_find_color(hs, c, 0);
    assert(has_color(hs, c));
    let w = choose|i: int| 0 <= i < hs.len() && (#[trigger] hs[i]).heister_color == c;
    assert(hs[w].heister_color == c);
}

/// The index of the first heister standing exactly at `p`, escaped ones
/// included (their sentinel position), or the roster length.
pub open spec fn find_heister_at(hs: Seq<Heister>, p: MapPosition, n: int) -> int
    decreases hs.len() - n,
{
    if n < 0 || n >= hs.len() {
        hs.len() as int
    } else if hs[n].map_position == p {
        n
    } else {
        find_heister_at(hs, p, n + 1)
    }
}

pub proof fn lemma_find_heister_at(hs: Seq<Heister>, p: MapPosition, n: int)
    requires
        0 <= n <= hs.len(),
    ensures
        n <= find_heister_at(hs, p, n) <= hs.len(),
        find_heister_at(hs, p, n) < hs.len() ==> hs[find_heister_at(hs, p, n)].map_position == p,
        forall|i: int| n <= i < find_heister_at(hs, p, n) ==> (#[trigger] hs[i]).map_position != p,
        find_heister_at(hs, p, n) == hs.len() ==> forall|i: int|
            n <= i < hs.len() ==> (#[trigger] hs[i]).map_position != p,
    decreases hs.len() - n,
{
    if n < hs.len() && hs[n].map_position != p {
        lemma_find_heister_at(hs, p, n + 1);
    }
}

/// Whether any heister (escaped ones included) stands at `p`.
pub open spec fn spec_occupied(hs: Seq<Heister>, p: MapPosition) -> bool {
    find_heister_at(hs, p, 0) < hs.len()
}

/// The index of the first tile whose 4 x 4 block contains `p`, or the tile
/// count if none does.
pub open spec fn find_tile(ts: Seq<Tile>, p: MapPosition, n: int) -> int
    decreases ts.len() - n,
{
    if n < 0 || n >= ts.len() {
        ts.len() as int
    } else if tile_contains(ts[n], p) {
        n
    } else {
        find_tile(ts, p, n + 1)
    }
}

pub proof fn lemma_find_tile(ts: Seq<Tile>, p: MapPosition, n: int)
    requires
        0 <= n <= ts.len(),
    ensures
        n <= find_tile(ts, p, n) <= ts.len(),
        find_tile(ts, p, n) < ts.len() ==> tile_contains(ts[find_tile(ts, p, n)], p),
        forall|i: int| n <= i < find_tile(ts, p, n) ==> !tile_contains(#[trigger] ts[i], p),
        find_tile(ts, p, n) == ts.len() ==> forall|i: int|
            n <= i < ts.len() ==> !tile_contains(#[trigger] ts[i], p),
    decreases ts.len() - n,
{
    if n < ts.len() && !tile_contains(ts[n], p) {
        lemma_find_tile(ts, p, n + 1);
    }
}

/// The verdict of the wall check for a single step from `hp` to `dp`:
/// None for a clear wall, otherwise the rejection text.
pub open spec fn wall_check_verdict(
    grid: Map<MapPosition, Square>,
    hp: MapPosition,
    dp: MapPosition,
) -> Option<Seq<char>> {
    if !grid.contains_key(hp) {
        Some(text::msg_heister_square_missing(hp))
    } else {
        match spec_move_direction(hp, dp) {
            None => Some("Cannot compute blocking walls for non-cardinal move"@),
            Some(dir) => {
                let wall = wall_in_dir(grid[hp], dir);
                if wall == WallType::Clear {
                    None
                } else if wall == WallType::Impassable {
                    Some("Can't pass through impassable wall"@)
                } else {
                    Some(text::msg_wall_blocked(wall))
                }
            }
        }
    }
}

/// The verdict of the occupancy check at `dp`: None when free, otherwise
/// the rejection naming the occupying color.
pub open spec fn occupancy_verdict(hs: Seq<Heister>, dp: MapPosition) -> Option<Seq<char>> {
    if spec_occupied(hs, dp) {
        Some(text::msg_occupied(hs[find_heister_at(hs, dp, 0)].heister_color, dp))
    } else {
        None
    }
}

/// The verdict of the full single-step check: the wall check, then the
/// occupancy check.
pub open spec fn adjacent_move_verdict(
    grid: Map<MapPosition, Square>,
    hs: Seq<Heister>,
    hp: MapPosition,
    dp: MapPosition,
) -> Option<Seq<char>> {
    match wall_check_verdict(grid, hp, dp) {
        Some(m) => Some(m),
        None => occupancy_verdict(hs, dp),
    }
}

impl GameState {
    /// A fresh game: the starting tile placed at the origin, the four
    /// heisters at their canonical offsets, staging, eight tiles to draw.
    pub fn new(game_name: GameHandle) -> (r: Self)
        ensures
            r.game_name.0@ == game_name.0@,
            r.game_started == 0,
            r.timer_runs_out == 0,
            r.tiles@.len() == 1,
            r.tiles@[0].squares@ == tile_1a_squares(),
            r.tiles@[0].position == (MapPosition { x: 0, y: 0 }),
            r.tiles@[0].name@ == "1a"@,
            r.tiles@[0].num_rotations == 0,
            r.heisters@.len() == 4,
            r.heisters@[0].heister_color == HeisterColor::Yellow,
            r.heisters@[1].heister_color == HeisterColor::Purple,
            r.heisters@[2].heister_color == HeisterColor::Green,
            r.heisters@[3].heister_color == HeisterColor::Orange,
            forall|i: int|
                0 <= i < 4 ==> (#[trigger] r.heisters@[i]).map_position == spec_initial_position(
                    r.heisters@[i].heister_color,
                    true,
                ),
            forall|i: int|
                0 <= i < 4 ==> !(#[trigger] r.heisters@[i]).has_taken_item
                    && !r.heisters@[i].has_escaped,
            !r.all_items_taken,
            r.remaining_tiles == 8,
            r.game_status == GameStatus::Staging,
            r.players@.len() == 0,
            r.possible_placements@.len() == 0,
            r.possible_escalators@.len() == 0,
            r.possible_teleports@.len() == 0,
            r.players_may_speak,
            state_wf(r),
    {
        let starting_tile = tile_1a();
        let starting_tile_enum = StartingTile::A(starting_tile.clone());
        let mut tiles: Vec<Tile> = Vec::new();
        tiles.push(starting_tile);
        let mut heisters: Vec<Heister> = Vec::new();
        heisters.push(Heister::get_initial(HeisterColor::Yellow, &starting_tile_enum));
        heisters.push(Heister::get_initial(HeisterColor::Purple, &starting_tile_enum));
        heisters.push(Heister::get_initial(HeisterColor::Green, &starting_tile_enum));
        heisters.push(Heister::get_initial(HeisterColor::Orange, &starting_tile_enum));
        let r = GameState {
            game_name,
            game_started: 0,
            timer_runs_out: 0,
            tiles,
            heisters,
            all_items_taken: false,
            remaining_tiles: 8,
            game_status: GameStatus::Staging,
            players: Vec::new(),
            possible_placements: Vec::new(),
            possible_escalators: Vec::new(),
            possible_teleports: Vec::new(),
            players_may_speak: true,
        };
        proof {
            assert(has_color(r.heisters@, HeisterColor::Yellow)) by {
                assert(r.heisters@[0].heister_color == HeisterColor::Yellow);
            }
            assert(has_color(r.heisters@, HeisterColor::Purple)) by {
                assert(r.heisters@[1].heister_color == HeisterColor::Purple);
            }
            assert(has_color(r.heisters@, HeisterColor::Green)) by {
                assert(r.heisters@[2].heister_color == HeisterColor::Green);
            }
            assert(has_color(r.heisters@, HeisterColor::Orange)) by {
                assert(r.heisters@[3].heister_color == HeisterColor::Orange);
            }
        }
        r
    }

    /// Registers a player while staging; a quiet no-op once the game has
    /// started or the roster is full.
    pub fn add_player(&mut self, name: String) -> (r: Result<(), ()>)
        ensures
            r is Ok,
            *final(self) == (GameState { players: final(self).players, ..*old(self) }),
            final(self).game_status == old(self).game_status,
            final(self).heisters@ == old(self).heisters@,
            final(self).tiles@ == old(self).tiles@,
            state_wf(*old(self)) ==> state_wf(*final(self)),
            if old(self).game_status != GameStatus::Staging || old(self).players@.len()
                >= MAX_PLAYERS {
                final(self).players@ == old(self).players@
            } else {
                final(self).players@.len() == old(self).players@.len() + 1
                    && final(self).players@.last().name@ == name@
                    && final(self).players@.last().abilities@.len() == 0
                    && final(self).players@.take(old(self).players@.len() as int) == old(
                    self,
                ).players@
            },
    {
        if self.game_status != GameStatus::Staging || self.players.len() >= MAX_PLAYERS {
            return Ok(());
        }
        let ghost before = self.players@;
        self.players.push(Player { name, abilities: Vec::new() });
        proof {
            assert(self.players@.take(before.len() as int) =~= before);
        }
        Ok(())
    }

    /// Whether some registered player joined under this name.
    pub fn has_player(&self, name: &str) -> (r: bool)
        ensures
            r == exists|i: int|
                0 <= i < self.players@.len() && (#[trigger] self.players@[i]).name@ == name@,
    {
        let mut i: usize = 0;
        while i < self.players.len()
            invariant
                i <= self.players@.len(),
                forall|j: int| 0 <= j < i ==> (#[trigger] self.players@[j]).name@ != name@,
            decreases self.players@.len() - i,
        {
            if text::str_eq(self.players[i].name.as_str(), name) {
                return true;
            }
            i = i + 1;
        }
        false
    }

    /// Starts the countdown at time `now`: the timer runs out one standard
    /// duration later (saturating at the top of the clock).
    pub fn start_timer_at(&mut self, now: u64)
        ensures
            *final(self) == (GameState {
                game_started: now,
                timer_runs_out: final(self).timer_runs_out,
                ..*old(self)
            }),
            final(self).timer_runs_out == sat_add(now as int, TIMER_DURATION_SECS as int),
    {
        self.game_started = now;
        self.timer_runs_out = if now <= u64::MAX - TIMER_DURATION_SECS {
            now + TIMER_DURATION_SECS
        } else {
            u64::MAX
        };
    }

    /// Starts the countdown at the wall clock's current time.
    pub fn start_timer(&mut self)
        ensures
            *final(self) == (GameState {
                game_started: final(self).game_started,
                timer_runs_out: final(self).timer_runs_out,
                ..*old(self)
            }),
            final(self).timer_runs_out == sat_add(
                final(self).game_started as int,
                TIMER_DURATION_SECS as int,
            ),
    {
        let now = get_current_time_secs();
        self.start_timer_at(now);
    }

    /// The absolute grid: every placed tile's squares projected to absolute
    /// coordinates, later tiles overriding earlier ones.
    pub fn get_absolute_grid(&self) -> (r: Grid)
        requires
            tiles_wf(self.tiles@),
        ensures
            r.entries@ == entries_of(self.tiles@),
            r@ == grid_of(self.tiles@),
    {
        let mut grid = Grid::new();
        let mut i: usize = 0;
        while i < self.tiles.len()
            invariant
                tiles_wf(self.tiles@),
                i <= self.tiles@.len(),
                grid.entries@ == entries_of(self.tiles@.take(i as int)),
            decreases self.tiles@.len() - i,
        {
            grid.add_tile(&self.tiles[i]);
            proof {
                assert(self.tiles@.take(i + 1).drop_last() =~= self.tiles@.take(i as int));
                assert(self.tiles@.take(i + 1).last() == self.tiles@[i as int]);
            }
            i = i + 1;
        }
        proof {
            assert(self.tiles@.take(self.tiles@.len() as int) =~= self.tiles@);
        }
        grid
    }

    /// The index of the heister of the given color, if one exists.
    pub fn get_mut_heister_from_vec(&mut self, hc: HeisterColor) -> (r: Option<usize>)
        ensures
            *final(self) == *old(self),
            r == if heister_index(old(self).heisters@, hc) < old(self).heisters@.len() {
                Some(heister_index(old(self).heisters@, hc) as usize)
            } else {
                None::<usize>
            },
    {
        let mut i: usize = 0;
        proof {
            lemma_find_color(self.heisters@, hc, 0);
        }
        while i < self.heisters.len()
            invariant
                *final(self) == *old(self),
                i <= self.heisters@.len(),
                forall|j: int| 0 <= j < i ==> (#[trigger] self.heisters@[j]).heister_color != hc,
                heister_index(self.heisters@, hc) >= i,
            decreases self.heisters@.len() - i,
        {
            if self.heisters[i].heister_color == hc {
                proof {
                    lemma_find_color(self.heisters@, hc, 0);
                }
                return Some(i);
            }
            proof {
                lemma_find_color(self.heisters@, hc, 0);
            }
            i = i + 1;
        }
        None
    }

    /// The heister of the given color, if one exists.
    pub fn get_heister_from_vec(&self, hc: HeisterColor) -> (r: Option<&Heister>)
        ensures
            r == if heister_index(self.heisters@, hc) < self.heisters@.len() {
                Some(&self.heisters@[heister_index(self.heisters@, hc)])
            } else {
                None::<&Heister>
            },
    {
        let mut i: usize = 0;
        proof {
            lemma_find_color(self.heisters@, hc, 0);
        }
        while i < self.heisters.len()
            invariant
                i <= self.heisters@.len(),
                forall|j: int| 0 <= j < i ==> (#[trigger] self.heisters@[j]).heister_color != hc,
                heister_index(self.heisters@, hc) >= i,
            decreases self.heisters@.len() - i,
        {
            if self.heisters[i].heister_color == hc {
                proof {
                    lemma_find_color(self.heisters@, hc, 0);
                }
                return Some(&self.heisters[i]);
            }
            proof {
                lemma_find_color(self.heisters@, hc, 0);
            }
            i = i + 1;
        }
        None
    }

    /// The first placed tile whose block contains `position`, with its
    /// index, if any.
    pub fn get_index_and_tile(&self, position: &MapPosition) -> (r: Option<(usize, Tile)>)
        ensures
            match r {
                Some((i, t)) => {
                    &&& i as int == find_tile(self.tiles@, *position, 0)
                    &&& i < self.tiles@.len()
                    &&& tile_eqv(t, self.tiles@[i as int])
                },
                None => find_tile(self.tiles@, *position, 0) == self.tiles@.len(),
            },
    {
        let mut i: usize = 0;
        proof {
            lemma_find_tile(self.tiles@, *position, 0);
        }
        while i < self.tiles.len()
            invariant
                i <= self.tiles@.len(),
                forall|j: int| 0 <= j < i ==> !tile_contains(#[trigger] self.tiles@[j], *position),
                find_tile(self.tiles@, *position, 0) >= i,
            decreases self.tiles@.len() - i,
        {
            let t = &self.tiles[i];
            let x_distance: i64 = position.x as i64 - t.position.x as i64;
            if x_distance >= 0 && x_distance < 4 {
                let y_distance: i64 = position.y as i64 - t.position.y as i64;
                if y_distance >= 0 && y_distance < 4 {
                    proof {
                        lemma_find_tile(self.tiles@, *position, 0);
                    }
                    return Some((i, t.clone()));
                }
            }
            proof {
                lemma_find_tile(self.tiles@, *position, 0);
            }
            i = i + 1;
        }
        None
    }

    /// Valid when no heister (escaped ones included) stands at `position`;
    /// otherwise the rejection names the occupying color.
    pub fn position_is_occupied(&self, position: &MapPosition) -> (r: MoveValidity)
        ensures
            r is Valid <==> occupancy_verdict(self.heisters@, *position) is None,
            r is Invalid ==> invalid_msg(r) == occupancy_verdict(
                self.heisters@,
                *position,
            ).unwrap(),
    {
        let mut i: usize = 0;
        proof {
            lemma_find_heister_at(self.heisters@, *position, 0);
        }
        while i < self.heisters.len()
            invariant
                i <= self.heisters@.len(),
                forall|j: int| 0 <= j < i ==> (#[trigger] self.heisters@[j]).map_position
                    != *position,
                find_heister_at(self.heisters@, *position, 0) >= i,
            decreases self.heisters@.len() - i,
        {
            let h = &self.heisters[i];
            if h.map_position.x == position.x && h.map_position.y == position.y {
                proof {
                    lemma_find_heister_at(self.heisters@, *position, 0);
                }
                let msg = text::occupied_message(h.heister_color, position);
                return MoveValidity::Invalid(msg);
            }
            proof {
                lemma_find_heister_at(self.heisters@, *position, 0);
            }
            i = i + 1;
        }
        MoveValidity::Valid
    }

    /// The wall check for one step between adjacent squares: valid exactly
    /// when the wall of the source square towards the destination is clear.
    pub fn adjacent_move_blocked_by_wall(
        &self,
        grid: &Grid,
        heister_pos: &MapPosition,
        dest_pos: &MapPosition,
    ) -> (r: MoveValidity)
        ensures
            r is Valid <==> wall_check_verdict(grid@, *heister_pos, *dest_pos) is None,
            r is Invalid ==> invalid_msg(r) == wall_check_verdict(
                grid@,
                *heister_pos,
                *dest_pos,
            ).unwrap(),
    {
        let heister_square = match grid.get(heister_pos) {
            Some(s) => s,
            None => {
                return MoveValidity::Invalid(text::heister_square_missing_message(heister_pos));
            }
        };
        let blocking_wall = match heister_pos.get_move_direction(dest_pos) {
            Some(MoveDirection::North) => heister_square.north_wall,
            Some(MoveDirection::East) => heister_square.east_wall,
            Some(MoveDirection::South) => heister_square.south_wall,
            Some(MoveDirection::West) => heister_square.west_wall,
            None => {
                return MoveValidity::Invalid(
                    String::from_str("Cannot compute blocking walls for non-cardinal move"),
                );
            }
        };
        match blocking_wall {
            WallType::Clear => MoveValidity::Valid,
            WallType::Impassable => MoveValidity::Invalid(
                String::from_str("Can't pass through impassable wall"),
            ),
            _ => MoveValidity::Invalid(text::wall_blocked_message(blocking_wall)),
        }
    }

    /// One step of walking: the wall check, then the occupancy check; the
    /// first failing check gives the reason.
    pub fn validate_adjacent_move(
        &self,
        grid: &Grid,
        heister_pos: &MapPosition,
        dest_pos: &MapPosition,
    ) -> (r: MoveValidity)
        ensures
            r is Valid <==> adjacent_move_verdict(
                grid@,
                self.heisters@,
                *heister_pos,
                *dest_pos,
            ) is None,
            r is Invalid ==> invalid_msg(r) == adjacent_move_verdict(
                grid@,
                self.heisters@,
                *heister_pos,
                *dest_pos,
            ).unwrap(),
    {
        let validity = self.adjacent_move_blocked_by_wall(grid, heister_pos, dest_pos);
        match validity {
            MoveValidity::Invalid(_) => return validity,
            _ => (),
        }
        self.position_is_occupied(dest_pos)
    }

    /// The straight path from `heister_pos` to `dest_pos`, source excluded,
    /// destination included, in step order.
    fn get_positions_on_path(
        &self,
        heister_pos: &MapPosition,
        dest_pos: &MapPosition,
        direction: &MoveDirection,
    ) -> (r: Vec<MapPosition>)
        requires
            Some(*direction) == spec_move_direction(*heister_pos, *dest_pos),
        ensures
            r@ == path_positions(*heister_pos, *dest_pos, *direction),
    {
        let mut positions: Vec<MapPosition> = Vec::new();
        match direction {
            MoveDirection::North => {
                let mut y = dest_pos.y;
                while y < heister_pos.y
                    invariant
                        *direction is North,
                        Some(*direction) == spec_move_direction(*heister_pos, *dest_pos),
                        dest_pos.y <= y <= heister_pos.y,
                        positions@ == path_positions(*heister_pos, *dest_pos, *direction).take(
                            y - dest_pos.y,
                        ),
                    decreases heister_pos.y - y,
                {
                    positions.push(MapPosition { x: heister_pos.x, y });
                    proof {
                        let whole = path_positions(*heister_pos, *dest_pos, *direction);
                        assert(whole.len() == heister_pos.y - dest_pos.y);
                        assert(positions@.len() == y - dest_pos.y + 1);
                        assert forall|j: int| 0 <= j < positions@.len() implies positions@[j]
                            == whole[j] by {
                            assert(whole[j] == MapPosition {
                                x: heister_pos.x,
                                y: (dest_pos.y + j) as i32,
                            });
                        }
                        assert(positions@ =~= whole.take(y - dest_pos.y + 1));
                    }
                    y = y + 1;
                }
            }
            MoveDirection::South => {
                let mut y = heister_pos.y;
                while y < dest_pos.y
                    invariant
                        *direction is South,
                        Some(*direction) == spec_move_direction(*heister_pos, *dest_pos),
                        heister_pos.y <= y <= dest_pos.y,
                        positions@ == path_positions(*heister_pos, *dest_pos, *direction).take(
                            y - heister_pos.y,
                        ),
                    decreases dest_pos.y - y,
                {
                    y = y + 1;
                    positions.push(MapPosition { x: heister_pos.x, y });
                    proof {
                        assert(positions@ =~= path_positions(
                            *heister_pos,
                            *dest_pos,
                            *direction,
                        ).take(y - heister_pos.y));
                    }
                }
            }
            MoveDirection::East => {
                let mut x = heister_pos.x;
                while x < dest_pos.x
                    invariant
                        *direction is East,
                        Some(*direction) == spec_move_direction(*heister_pos, *dest_pos),
                        heister_pos.x <= x <= dest_pos.x,
                        positions@ == path_positions(*heister_pos, *dest_pos, *direction).take(
                            x - heister_pos.x,
                        ),
                    decreases dest_pos.x - x,
                {
                    x = x + 1;
                    positions.push(MapPosition { x, y: heister_pos.y });
                    proof {
                        assert(positions@ =~= path_positions(
                            *heister_pos,
                            *dest_pos,
                            *direction,
                        ).take(x - heister_pos.x));
                    }
                }
            }
            MoveDirection::West => {
                let mut x = dest_pos.x;
                while x < heister_pos.x
                    invariant
                        *direction is West,
                        Some(*direction) == spec_move_direction(*heister_pos, *dest_pos),
                        dest_pos.x <= x <= heister_pos.x,
                        positions@ == path_positions(*heister_pos, *dest_pos, *direction).take(
                            x - dest_pos.x,
                        ),
                    decreases heister_pos.x - x,
                {
                    positions.push(MapPosition { x, y: heister_pos.y });
                    proof {
                        assert(positions@ =~= path_positions(
                            *heister_pos,
                            *dest_pos,
                            *direction,
                        ).take(x - dest_pos.x + 1));
                    }
                    x = x + 1;
                }
            }
        }
        proof {
            let whole = path_positions(*heister_pos, *dest_pos, *direction);
            assert(whole.take(whole.len() as int) =~= whole);
        }
        positions
    }

    /// A straight multi-square drag: every square on the path must exist
    /// and be free, every consecutive pair must have a clear wall.
    pub fn validate_multispace_move(
        &self,
        grid: &Grid,
        heister_pos: &MapPosition,
        dest_pos: &MapPosition,
    ) -> (r: MoveValidity)
        requires
            spec_move_direction(*heister_pos, *dest_pos) is Some,
        ensures
            r is Valid <==> multispace_verdict(
                grid@,
                self.heisters@,
                *heister_pos,
                *dest_pos,
            ) is None,
            r is Invalid ==> invalid_msg(r) == multispace_verdict(
                grid@,
                self.heisters@,
                *heister_pos,
                *dest_pos,
            ).unwrap(),
    {
        let direction = match heister_pos.get_move_direction(dest_pos) {
            Some(d) => d,
            None => {
                proof {
                    assert(false);
                }
                MoveDirection::North
            }
        };
        let path: Vec<MapPosition> = self.get_positions_on_path(heister_pos, dest_pos, &direction);
        let ghost pathv = path@;
        let mut k: usize = 0;
        while k < path.len()
            invariant
                pathv == path@,
                pathv == path_positions(
                    *heister_pos,
                    *dest_pos,
                    spec_move_direction(*heister_pos, *dest_pos).unwrap(),
                ),
                k <= path@.len(),
                path_exist_occ_verdict(grid@, self.heisters@, pathv, k as int)
                    == path_exist_occ_verdict(grid@, self.heisters@, pathv, 0),
                forall|j: int| 0 <= j < k ==> grid@.contains_key((#[trigger] pathv[j])),
            decreases path@.len() - k,
        {
            let pos = &path[k];
            proof {
                assert(path_exist_occ_verdict(grid@, self.heisters@, pathv, k as int)
                    == if !grid@.contains_key(pathv[k as int]) {
                    Some(text::msg_cannot_move_through(pathv[k as int]))
                } else if occupancy_verdict(self.heisters@, pathv[k as int]) is Some {
                    occupancy_verdict(self.heisters@, pathv[k as int])
                } else {
                    path_exist_occ_verdict(grid@, self.heisters@, pathv, k as int + 1)
                });
            }
            match grid.get(pos) {
                Some(_) => (),
                None => {
                    return MoveValidity::Invalid(text::cannot_move_through_message(pos));
                }
            }
            let collision = self.position_is_occupied(pos);
            if collision.is_invalid() {
                return collision;
            }
            k = k + 1;
        }
        let mut k: usize = 0;
        if path.len() > 0 {
            while k < path.len() - 1
                invariant
                    pathv == path@,
                    pathv == path_positions(
                        *heister_pos,
                        *dest_pos,
                        spec_move_direction(*heister_pos, *dest_pos).unwrap(),
                    ),
                    path@.len() > 0,
                    k <= path@.len() - 1,
                    path_exist_occ_verdict(grid@, self.heisters@, pathv, 0) is None,
                    path_wall_verdict(grid@, pathv, k as int) == path_wall_verdict(
                        grid@,
                        pathv,
                        0,
                    ),
                decreases path@.len() - k,
            {
                proof {
                    assert(path_wall_verdict(grid@, pathv, k as int) == if wall_check_verdict(
                        grid@,
                        pathv[k as int],
                        pathv[k as int + 1],
                    ) is Some {
                        wall_check_verdict(grid@, pathv[k as int], pathv[k as int + 1])
                    } else {
                        path_wall_verdict(grid@, pathv, k as int + 1)
                    });
                }
                let validity = self.adjacent_move_blocked_by_wall(grid, &path[k], &path[k + 1]);
                match validity {
                    MoveValidity::Invalid(_) => return validity,
                    _ => (),
                }
                k = k + 1;
            }
        }
        self.position_is_occupied(dest_pos)
    }
}

/// The straight path between two positions on one row or column: every
/// square after the source, up to and including the destination.
pub open spec fn path_positions(hp: MapPosition, dp: MapPosition, dir: MoveDirection) -> Seq<
    MapPosition,
> {
    match dir {
        MoveDirection::North => Seq::new(
            if dp.y <= hp.y {
                (hp.y - dp.y) as nat
            } else {
                0
            },
            |k: int| MapPosition { x: hp.x, y: (dp.y + k) as i32 },
        ),
        MoveDirection::South => Seq::new(
            if hp.y <= dp.y {
                (dp.y - hp.y) as nat
            } else {
                0
            },
            |k: int| MapPosition { x: hp.x, y: (hp.y + 1 + k) as i32 },
        ),
        MoveDirection::East => Seq::new(
            if hp.x <= dp.x {
                (dp.x - hp.x) as nat
            } else {
                0
            },
            |k: int| MapPosition { x: (hp.x + 1 + k) as i32, y: hp.y },
        ),
        MoveDirection::West => Seq::new(
            if dp.x <= hp.x {
                (hp.x - dp.x) as nat
            } else {
                0
            },
            |k: int| MapPosition { x: (dp.x + k) as i32, y: hp.y },
        ),
    }
}

/// The first failure among existence and occupancy checks along the path,
/// from index `k` on.
pub open spec fn path_exist_occ_verdict(
    grid: Map<MapPosition, Square>,
    hs: Seq<Heister>,
    path: Seq<MapPosition>,
    k: int,
) -> Option<Seq<char>>
    decreases path.len() - k,
{
    if k < 0 || k >= path.len() {
        None
    } else if !grid.contains_key(path[k]) {
        Some(text::msg_cannot_move_through(path[k]))
    } else if occupancy_verdict(hs, path[k]) is Some {
        occupancy_verdict(hs, path[k])
    } else {
        path_exist_occ_verdict(grid, hs, path, k + 1)
    }
}

/// The first failing wall check among consecutive path pairs, from pair
/// `k` on.
pub open spec fn path_wall_verdict(
    grid: Map<MapPosition, Square>,
    path: Seq<MapPosition>,
    k: int,
) -> Option<Seq<char>>
    decreases path.len() - k,
{
    if k < 0 || k + 1 >= path.len() {
        None
    } else if wall_check_verdict(grid, path[k], path[k + 1]) is Some {
        wall_check_verdict(grid, path[k], path[k + 1])
    } else {
        path_wall_verdict(grid, path, k + 1)
    }
}

/// The verdict of a straight multi-square drag: path existence and
/// occupancy, then pairwise walls, then the destination's occupancy.
pub open spec fn multispace_verdict(
    grid: Map<MapPosition, Square>,
    hs: Seq<Heister>,
    hp: MapPosition,
    dp: MapPosition,
) -> Option<Seq<char>> {
    let path = path_positions(hp, dp, spec_move_direction(hp, dp).unwrap());
    match path_exist_occ_verdict(grid, hs, path, 0) {
        Some(m) => Some(m),
        None => match path_wall_verdict(grid, path, 0) {
            Some(m) => Some(m),
            None => occupancy_verdict(hs, dp),
        },
    }
}

/// The heister stands, unescaped, on a revealed square whose door matches
/// its own color.
pub open spec fn heister_at_own_door(grid: Map<MapPosition, Square>, h: Heister) -> bool {
    &&& !h.has_escaped
    &&& grid.contains_key(h.map_position)
    &&& match spec_door_wall(grid[h.map_position]) {
        Some(d) => spec_wall_color(d) == Some(h.heister_color),
        None => false,
    }
}

/// The positions, among the first `n` heisters, from which a tile could be
/// revealed.
pub open spec fn placement_positions_prefix(
    grid: Map<MapPosition, Square>,
    hs: Seq<Heister>,
    n: int,
) -> Seq<MapPosition>
    decreases n,
{
    if n <= 0 {
        Seq::empty()
    } else if heister_at_own_door(grid, hs[n - 1]) {
        placement_positions_prefix(grid, hs, n - 1).push(hs[n - 1].map_position)
    } else {
        placement_positions_prefix(grid, hs, n - 1)
    }
}

/// For the first `n` heisters at their own doors: the heister's position
/// paired with the entrance one square beyond the door.
pub open spec fn entrance_pairs_prefix(
    grid: Map<MapPosition, Square>,
    hs: Seq<Heister>,
    n: int,
) -> Seq<(MapPosition, MapPosition)>
    decreases n,
{
    if n <= 0 {
        Seq::empty()
    } else if heister_at_own_door(grid, hs[n - 1]) {
        entrance_pairs_prefix(grid, hs, n - 1).push(
            (
                hs[n - 1].map_position,
                spec_move_in_direction(
                    hs[n - 1].map_position,
                    spec_door_direction(grid[hs[n - 1].map_position]).unwrap(),
                ),
            ),
        )
    } else {
        entrance_pairs_prefix(grid, hs, n - 1)
    }
}

/// The escalator destination offered to one heister, if it stands on an
/// escalator square of a placed tile with a second escalator square.
pub open spec fn escalator_dest_for(
    grid: Map<MapPosition, Square>,
    ts: Seq<Tile>,
    h: Heister,
) -> Option<(HeisterColor, MapPosition)> {
    if h.has_escaped || !grid.contains_key(h.map_position) || grid[h.map_position].square_type
        != SquareType::Escalator {
        None
    } else {
        let ti = find_tile(ts, h.map_position, 0);
        if ti == ts.len() {
            None
        } else {
            match crate::types::spec_escalator_dest(ts[ti], h.map_position, 0) {
                Some(d) => Some((h.heister_color, d)),
                None => None,
            }
        }
    }
}

/// The escalator destinations of the first `n` heisters, in roster order.
pub open spec fn escalator_pairs_prefix(
    grid: Map<MapPosition, Square>,
    ts: Seq<Tile>,
    hs: Seq<Heister>,
    n: int,
) -> Seq<(HeisterColor, MapPosition)>
    decreases n,
{
    if n <= 0 {
        Seq::empty()
    } else {
        match escalator_dest_for(grid, ts, hs[n - 1]) {
            Some(pr) => escalator_pairs_prefix(grid, ts, hs, n - 1).push(pr),
            None => escalator_pairs_prefix(grid, ts, hs, n - 1),
        }
    }
}

/// Two value-equal tiles offer the same escalator destination.
proof fn lemma_escalator_dest_eqv(a: Tile, b: Tile, from: MapPosition, n: int)
    requires
        tile_eqv(a, b),
    ensures
        crate::types::spec_escalator_dest(a, from, n) == crate::types::spec_escalator_dest(
            b,
            from,
            n,
        ),
    decreases 16 - n,
{
    if !(n < 0 || n >= 16) {
        lemma_escalator_dest_eqv(a, b, from, n + 1);
    }
}

/// The item flag a heister carries after the items pass over grid `grid`,
/// with `old_all` the sticky all-items flag before the pass.
pub open spec fn item_flag_after(
    grid: Map<MapPosition, Square>,
    old_all: bool,
    h: Heister,
) -> bool {
    if grid.contains_key(h.map_position) {
        old_all || (crate::types::spec_is_item(grid[h.map_position]) && spec_square_color(
            grid[h.map_position],
        ) == Some(h.heister_color))
    } else {
        h.has_taken_item
    }
}

pub open spec fn all_escaped(hs: Seq<Heister>) -> bool {
    forall|i: int| 0 <= i < hs.len() ==> (#[trigger] hs[i]).has_escaped
}

/// The status after one lazy evaluation of the terminal conditions at time
/// `now`.
pub open spec fn spec_status_after(g: GameState, now: u64) -> GameStatus {
    if g.game_status == GameStatus::Ongoing {
        if g.all_items_taken && all_escaped(g.heisters@) {
            GameStatus::Victory
        } else if g.game_started != 0 && now > g.timer_runs_out {
            GameStatus::Defeat
        } else {
            GameStatus::Ongoing
        }
    } else {
        g.game_status
    }
}

/// The index of the first tile placed exactly at `pos`, or the tile count.
pub open spec fn find_tile_at(ts: Seq<Tile>, pos: MapPosition, n: int) -> int
    decreases ts.len() - n,
{
    if n < 0 || n >= ts.len() {
        ts.len() as int
    } else if ts[n].position == pos {
        n
    } else {
        find_tile_at(ts, pos, n + 1)
    }
}

pub proof fn lemma_find_tile_at(ts: Seq<Tile>, pos: MapPosition, n: int)
    requires
        0 <= n <= ts.len(),
    ensures
        n <= find_tile_at(ts, pos, n) <= ts.len(),
        find_tile_at(ts, pos, n) < ts.len() ==> ts[find_tile_at(ts, pos, n)].position == pos,
        forall|i: int| n <= i < find_tile_at(ts, pos, n) ==> (#[trigger] ts[i]).position != pos,
    decreases ts.len() - n,
{
    if n < ts.len() && ts[n].position != pos {
        lemma_find_tile_at(ts, pos, n + 1);
    }
}

/// The index of the first square equal to `sq`, or the square count.
pub open spec fn find_square(sqs: Seq<Square>, sq: Square, n: int) -> int
    decreases sqs.len() - n,
{
    if n < 0 || n >= sqs.len() {
        sqs.len() as int
    } else if sqs[n] == sq {
        n
    } else {
        find_square(sqs, sq, n + 1)
    }
}

pub proof fn lemma_find_square(sqs: Seq<Square>, sq: Square, n: int)
    requires
        0 <= n <= sqs.len(),
    ensures
        n <= find_square(sqs, sq, n) <= sqs.len(),
        find_square(sqs, sq, n) < sqs.len() ==> sqs[find_square(sqs, sq, n)] == sq,
        forall|i: int| n <= i < find_square(sqs, sq, n) ==> (#[trigger] sqs[i]) != sq,
    decreases sqs.len() - n,
{
    if n < sqs.len() && sqs[n] != sq {
        lemma_find_square(sqs, sq, n + 1);
    }
}

impl GameState {
    /// The positions from which the acting team could reveal a tile: every
    /// unescaped heister standing on a door of its own color.
    fn heister_tile_placement_positions(&self, grid: &Grid) -> (r: Vec<MapPosition>)
        ensures
            r@ == placement_positions_prefix(grid@, self.heisters@, self.heisters@.len() as int),
    {
        let mut placement_locations: Vec<MapPosition> = Vec::new();
        let mut i: usize = 0;
        while i < self.heisters.len()
            invariant
                i <= self.heisters@.len(),
                placement_locations@ == placement_positions_prefix(grid@, self.heisters@, i as int),
            decreases self.heisters@.len() - i,
        {
            let heister = &self.heisters[i];
            if !heister.has_escaped {
                match grid.get(&heister.map_position) {
                    Some(square) => {
                        match square.get_door_wall() {
                            Some(door) => {
                                match crate::types::get_wall_color(door) {
                                    Some(door_color) => {
                                        if door_color == heister.heister_color {
                                            placement_locations.push(heister.map_position);
                                        }
                                    }
                                    None => {}
                                }
                            }
                            None => {}
                        }
                    }
                    None => {}
                }
            }
            i = i + 1;
        }
        placement_locations
    }

    /// Each heister position at its own door, paired with the entrance
    /// position one square beyond the door.
    pub fn heister_to_tile_entrance_positions(&self, grid: &Grid) -> (r: Vec<
        (MapPosition, MapPosition),
    >)
        requires
            forall|i: int|
                0 <= i < self.heisters@.len() ==> pos_workable(
                    (#[trigger] self.heisters@[i]).map_position,
                ),
        ensures
            r@ == entrance_pairs_prefix(grid@, self.heisters@, self.heisters@.len() as int),
    {
        let mut pairs: Vec<(MapPosition, MapPosition)> = Vec::new();
        let mut i: usize = 0;
        while i < self.heisters.len()
            invariant
                forall|k: int|
                    0 <= k < self.heisters@.len() ==> pos_workable(
                        (#[trigger] self.heisters@[k]).map_position,
                    ),
                i <= self.heisters@.len(),
                pairs@ == entrance_pairs_prefix(grid@, self.heisters@, i as int),
            decreases self.heisters@.len() - i,
        {
            let heister = &self.heisters[i];
            if !heister.has_escaped {
                match grid.get(&heister.map_position) {
                    Some(square) => {
                        match square.get_door_wall() {
                            Some(door) => {
                                match crate::types::get_wall_color(door) {
                                    Some(door_color) => {
                                        if door_color == heister.heister_color {
                                            let dir = match square.get_door_direction() {
                                                Some(d) => d,
                                                None => {
                                                    proof {
                                                        assert(false);
                                                    }
                                                    MoveDirection::North
                                                }
                                            };
                                            let entrance = heister.map_position.move_in_direction(
                                                &dir,
                                            );
                                            pairs.push((heister.map_position, entrance));
                                        }
                                    }
                                    None => {}
                                }
                            }
                            None => {}
                        }
                    }
                    None => {}
                }
            }
            i = i + 1;
        }
        pairs
    }

    /// Recomputes the possible-placement cache: the entrance positions the
    /// team could reveal a tile at, in roster order.
    pub fn update_possible_placements(&mut self, grid: &Grid)
        requires
            forall|i: int|
                0 <= i < old(self).heisters@.len() ==> pos_workable(
                    (#[trigger] old(self).heisters@[i]).map_position,
                ),
        ensures
            *final(self) == (GameState {
                possible_placements: final(self).possible_placements,
                ..*old(self)
            }),
            final(self).possible_placements@ == entrance_pairs_prefix(
                grid@,
                old(self).heisters@,
                old(self).heisters@.len() as int,
            ).map_values(|pr: (MapPosition, MapPosition)| pr.1),
    {
        let pairs = self.heister_to_tile_entrance_positions(grid);
        let mut v: Vec<MapPosition> = Vec::new();
        let ghost pairsv = pairs@;
        let mut k: usize = 0;
        while k < pairs.len()
            invariant
                pairsv == pairs@,
                k <= pairs@.len(),
                v@ == pairsv.take(k as int).map_values(|pr: (MapPosition, MapPosition)| pr.1),
            decreases pairs@.len() - k,
        {
            v.push(pairs[k].1);
            proof {
                assert(v@ =~= pairsv.take(k as int + 1).map_values(
                    |pr: (MapPosition, MapPosition)| pr.1,
                ));
            }
            k = k + 1;
        }
        proof {
            assert(pairsv.take(pairsv.len() as int) =~= pairsv);
        }
        self.possible_placements = v;
    }

    /// Recomputes the possible-escalator cache: for each unescaped heister
    /// on an escalator square, the other end within the same tile.
    pub fn update_possible_escalators(&mut self, grid: &Grid)
        requires
            tiles_wf(old(self).tiles@),
        ensures
            *final(self) == (GameState {
                possible_escalators: final(self).possible_escalators,
                ..*old(self)
            }),
            final(self).possible_escalators@ == escalator_pairs_prefix(
                grid@,
                old(self).tiles@,
                old(self).heisters@,
                old(self).heisters@.len() as int,
            ),
    {
        let mut m: Vec<(HeisterColor, MapPosition)> = Vec::new();
        let mut i: usize = 0;
        while i < self.heisters.len()
            invariant
                *self == *old(self),
                tiles_wf(self.tiles@),
                i <= self.heisters@.len(),
                m@ == escalator_pairs_prefix(grid@, self.tiles@, self.heisters@, i as int),
            decreases self.heisters@.len() - i,
        {
            let heister = &self.heisters[i];
            if !heister.has_escaped {
                match grid.get(&heister.map_position) {
                    Some(square) => {
                        if square.square_type == SquareType::Escalator {
                            match self.get_index_and_tile(&heister.map_position) {
                                Some((idx, tile)) => {
                                    proof {
                                        lemma_escalator_dest_eqv(
                                            tile,
                                            self.tiles@[idx as int],
                                            heister.map_position,
                                            0,
                                        );
                                    }
                                    match tile.get_escalator_dest(&heister.map_position) {
                                        Some(dest_pos) => {
                                            m.push((heister.heister_color, dest_pos));
                                        }
                                        None => {}
                                    }
                                }
                                None => {}
                            }
                        }
                    }
                    None => {}
                }
            }
            i = i + 1;
        }
        self.possible_escalators = m;
    }

    /// One pass of the item rule: a heister holds its item once it stands
    /// on the item square of its color (or all items are already taken);
    /// the all-items flag becomes and stays true once every heister holds.
    pub fn update_items_taken(&mut self, grid: &Grid)
        ensures
            *final(self) == (GameState {
                heisters: final(self).heisters,
                all_items_taken: final(self).all_items_taken,
                ..*old(self)
            }),
            final(self).heisters@.len() == old(self).heisters@.len(),
            forall|i: int|
                0 <= i < old(self).heisters@.len() ==> (#[trigger] final(self).heisters@[i])
                    == (Heister {
                    has_taken_item: item_flag_after(
                        grid@,
                        old(self).all_items_taken,
                        old(self).heisters@[i],
                    ),
                    ..old(self).heisters@[i]
                }),
            final(self).all_items_taken == (old(self).all_items_taken || forall|i: int|
                0 <= i < final(self).heisters@.len() ==> (
                #[trigger] final(self).heisters@[i]).has_taken_item),
    {
        let ghost old_all = self.all_items_taken;
        let ghost hs0 = self.heisters@;
        let mut i: usize = 0;
        while i < self.heisters.len()
            invariant
                self.all_items_taken == old_all,
                hs0 == old(self).heisters@,
                old_all == old(self).all_items_taken,
                *self == (GameState { heisters: self.heisters, ..*old(self) }),
                self.heisters@.len() == hs0.len(),
                i <= hs0.len(),
                forall|j: int|
                    0 <= j < i ==> (#[trigger] self.heisters@[j]) == (Heister {
                        has_taken_item: item_flag_after(grid@, old_all, hs0[j]),
                        ..hs0[j]
                    }),
                forall|j: int| i <= j < hs0.len() ==> (#[trigger] self.heisters@[j]) == hs0[j],
            decreases hs0.len() - i,
        {
            let heister = self.heisters[i];
            match grid.get(&heister.map_position) {
                Some(square) => {
                    let mut flag = self.all_items_taken;
                    if !flag {
                        flag = square.is_item() && match square.color() {
                            Some(c) => c == heister.heister_color,
                            None => false,
                        };
                    }
                    let updated = Heister { has_taken_item: flag, ..heister };
                    self.heisters.set(i, updated);
                }
                None => {}
            }
            i = i + 1;
        }
        let mut all_have: bool = true;
        let mut k: usize = 0;
        while k < self.heisters.len()
            invariant
                *self == (GameState { heisters: self.heisters, ..*old(self) }),
                self.all_items_taken == old_all,
                k <= self.heisters@.len(),
                all_have == (forall|j: int|
                    0 <= j < k ==> (#[trigger] self.heisters@[j]).has_taken_item),
            decreases self.heisters@.len() - k,
        {
            if !self.heisters[k].has_taken_item {
                all_have = false;
            }
            k = k + 1;
        }
        self.all_items_taken = self.all_items_taken || all_have;
    }

    /// One lazy evaluation of the terminal conditions at the given time:
    /// victory once all items are taken and everyone escaped, defeat once
    /// the started clock has run out; terminal states never change.
    pub fn update_game_status_at(&mut self, now: u64)
        ensures
            *final(self) == (GameState { game_status: final(self).game_status, ..*old(self) }),
            final(self).game_status == spec_status_after(*old(self), now),
    {
        if self.game_status == GameStatus::Ongoing {
            let mut everyone_escaped: bool = true;
            let mut k: usize = 0;
            while k < self.heisters.len()
                invariant
                    *self == *old(self),
                    k <= self.heisters@.len(),
                    everyone_escaped == (forall|j: int|
                        0 <= j < k ==> (#[trigger] self.heisters@[j]).has_escaped),
                decreases self.heisters@.len() - k,
            {
                if !self.heisters[k].has_escaped {
                    everyone_escaped = false;
                }
                k = k + 1;
            }
            if self.all_items_taken && everyone_escaped {
                self.game_status = GameStatus::Victory;
                return ;
            }
            if self.game_started != 0 && now > self.timer_runs_out {
                self.game_status = GameStatus::Defeat;
                return ;
            }
        }
    }

    /// Evaluates the terminal conditions against the wall clock. The
    /// victory transition does not depend on the clock; defeat may or may
    /// not be observed, and only after the clock has started.
    pub fn update_game_status(&mut self)
        ensures
            *final(self) == (GameState { game_status: final(self).game_status, ..*old(self) }),
            old(self).game_status == GameStatus::Ongoing && old(self).all_items_taken
                && all_escaped(old(self).heisters@) ==> final(self).game_status
                == GameStatus::Victory,
            old(self).game_status == GameStatus::Ongoing && !(old(self).all_items_taken
                && all_escaped(old(self).heisters@)) ==> (final(self).game_status
                == GameStatus::Ongoing || final(self).game_status == GameStatus::Defeat),
            final(self).game_status == GameStatus::Defeat && old(self).game_status
                == GameStatus::Ongoing ==> old(self).game_started != 0,
            old(self).game_status != GameStatus::Ongoing ==> final(self).game_status == old(
                self,
            ).game_status,
    {
        let now = get_current_time_secs();
        self.update_game_status_at(now);
    }

    /// Opens the named door wall of the tile at the position the door
    /// square's tile must occupy: the first square equal to `src_square`
    /// has its wall towards `dir` set clear.
    pub fn open_door(&mut self, door_pos: MapPosition, src_square: Square, dir: &MoveDirection)
        -> (r: Result<(), String>)
        requires
            pos_workable(door_pos),
        ensures
            ({
                let ctp = crate::types::spec_current_tile_position(door_pos, *dir);
                let ti = find_tile_at(old(self).tiles@, ctp, 0);
                if ti == old(self).tiles@.len() {
                    &&& r is Err
                    &&& r->Err_0@ == text::msg_no_tile_found(door_pos)
                    &&& *final(self) == *old(self)
                } else {
                    let si = find_square(old(self).tiles@[ti].squares@, src_square, 0);
                    if si == old(self).tiles@[ti].squares@.len() {
                        &&& r is Err
                        &&& r->Err_0@
                            == "When opening a door, we expect the square to have a door to open"@
                        &&& *final(self) == *old(self)
                    } else {
                        &&& r is Ok
                        &&& final(self).tiles@.len() == old(self).tiles@.len()
                        &&& forall|j: int|
                            0 <= j < old(self).tiles@.len() && j != ti ==> (
                            #[trigger] final(self).tiles@[j]) == old(self).tiles@[j]
                        &&& tile_eqv(final(self).tiles@[ti], (Tile {
                            squares: final(self).tiles@[ti].squares,
                            ..old(self).tiles@[ti]
                        }))
                        &&& final(self).tiles@[ti].squares@ == old(self).tiles@[ti].squares@.update(
                            si,
                            crate::types::with_wall(
                                old(self).tiles@[ti].squares@[si],
                                *dir,
                                WallType::Clear,
                            ),
                        )
                        &&& *final(self) == (GameState { tiles: final(self).tiles, ..*old(self) })
                    }
                }
            }),
    {
        let current_tile_position = door_pos.current_tile_position(dir);
        let ghost ts0 = self.tiles@;
        let mut ti: usize = 0;
        while ti < self.tiles.len()
            invariant
                current_tile_position == crate::types::spec_current_tile_position(door_pos, *dir),
                ts0 == self.tiles@,
                ts0 == old(self).tiles@,
                *self == *old(self),
                ti <= ts0.len(),
                forall|j: int| 0 <= j < ti ==> (#[trigger] ts0[j]).position != current_tile_position,
            decreases ts0.len() - ti,
        {
            let tp = self.tiles[ti].position;
            if tp.x == current_tile_position.x && tp.y == current_tile_position.y {
                proof {
                    lemma_find_tile_at(ts0, current_tile_position, 0);
                    assert(find_tile_at(ts0, current_tile_position, 0) == ti as int);
                }
                let ghost sqs0 = ts0[ti as int].squares@;
                let mut si: usize = 0;
                while si < self.tiles[ti].squares.len()
                    invariant
                        current_tile_position == crate::types::spec_current_tile_position(
                            door_pos,
                            *dir,
                        ),
                        ts0 == self.tiles@,
                        ts0 == old(self).tiles@,
                        *self == *old(self),
                        ti < ts0.len(),
                        ts0[ti as int].position == current_tile_position,
                        find_tile_at(ts0, current_tile_position, 0) == ti as int,
                        sqs0 == ts0[ti as int].squares@,
                        si <= sqs0.len(),
                        forall|j: int| 0 <= j < si ==> (#[trigger] sqs0[j]) != src_square,
                    decreases sqs0.len() - si,
                {
                    if self.tiles[ti].squares[si] == src_square {
                        proof {
                            lemma_find_square(sqs0, src_square, 0);
                            assert(find_square(sqs0, src_square, 0) == si as int);
                        }
                        let mut t = self.tiles[ti].clone();
                        let mut sq = t.squares[si];
                        match dir {
                            MoveDirection::North => {
                                sq.north_wall = WallType::Clear;
                            }
                            MoveDirection::East => {
                                sq.east_wall = WallType::Clear;
                            }
                            MoveDirection::South => {
                                sq.south_wall = WallType::Clear;
                            }
                            MoveDirection::West => {
                                sq.west_wall = WallType::Clear;
                            }
                        }
                        t.squares.set(si, sq);
                        self.tiles.set(ti, t);
                        proof {
                            assert(final(self).tiles@[ti as int].squares@ =~= ts0[ti as int
                                ].squares@.update(
                                si as int,
                                crate::types::with_wall(
                                    ts0[ti as int].squares@[si as int],
                                    *dir,
                                    WallType::Clear,
                                ),
                            ));
                        }
                        return Ok(());
                    }
                    proof {
                        lemma_find_square(sqs0, src_square, 0);
                    }
                    si = si + 1;
                }
                proof {
                    lemma_find_square(sqs0, src_square, 0);
                }
                return Err(
                    String::from_str(
                        "When opening a door, we expect the square to have a door to open",
                    ),
                );
            }
            proof {
                lemma_find_tile_at(ts0, current_tile_position, 0);
            }
            ti = ti + 1;
        }
        proof {
            lemma_find_tile_at(ts0, current_tile_position, 0);
        }
        Err(text::no_tile_found_message(&door_pos))
    }
}


/// The squares of each tile, tile by tile.
pub open spec fn squares_view(ts: Seq<Tile>) -> Seq<Seq<Square>> {
    Seq::new(ts.len(), |i: int| ts[i].squares@)
}

/// Same tile count, positions, names and rotation counts: door
/// reconciliation changes nothing else.
pub open spec fn tiles_skeleton_eqv(a: Seq<Tile>, b: Seq<Tile>) -> bool {
    &&& a.len() == b.len()
    &&& forall|i: int|
        0 <= i < a.len() ==> (#[trigger] a[i]).position == b[i].position && a[i].name@
            == b[i].name@ && a[i].num_rotations == b[i].num_rotations
}

/// One direction of door reconciliation for the tile at `tile_idx`, over
/// the snapshot grid `grid`: squares only, as `sqs`; `ts0` supplies the
/// tile positions. A door facing a neighbor's door opens both; a door
/// facing a doorless neighbor closes; a neighbor's door facing a doorless
/// border square closes.
pub open spec fn reconcile_step(
    ts0: Seq<Tile>,
    sqs: Seq<Seq<Square>>,
    grid: Map<MapPosition, Square>,
    tile_idx: int,
    dir: MoveDirection,
) -> Seq<Seq<Square>>
    recommends
        0 <= tile_idx < ts0.len(),
        sqs.len() == ts0.len(),
{
    let position = crate::types::spec_entrance_position(ts0[tile_idx].position, dir);
    if !grid.contains_key(position) {
        sqs
    } else {
        let neighbor_square = grid[position];
        let my_door_pos = spec_move_in_direction(position, crate::types::spec_opposite(dir));
        if !grid.contains_key(my_door_pos) {
            sqs
        } else {
            let my_square = grid[my_door_pos];
            let di = crate::types::door_square_index(dir);
            let oi = crate::types::door_square_index(crate::types::spec_opposite(dir));
            if square_has_door(my_square) {
                if square_has_door(neighbor_square) {
                    let s1 = sqs.update(
                        tile_idx,
                        sqs[tile_idx].update(
                            di,
                            crate::types::spec_open_door(sqs[tile_idx][di], dir),
                        ),
                    );
                    let n = find_tile(ts0, position, 0);
                    if n < ts0.len() {
                        s1.update(
                            n,
                            s1[n].update(
                                oi,
                                crate::types::spec_open_door(
                                    s1[n][oi],
                                    crate::types::spec_opposite(dir),
                                ),
                            ),
                        )
                    } else {
                        s1
                    }
                } else {
                    sqs.update(
                        tile_idx,
                        sqs[tile_idx].update(
                            di,
                            crate::types::spec_close_door(sqs[tile_idx][di], dir),
                        ),
                    )
                }
            } else {
                if square_has_door(neighbor_square) {
                    let n = find_tile(ts0, position, 0);
                    if n < ts0.len() {
                        sqs.update(
                            n,
                            sqs[n].update(
                                oi,
                                crate::types::spec_close_door(
                                    sqs[n][oi],
                                    crate::types::spec_opposite(dir),
                                ),
                            ),
                        )
                    } else {
                        sqs
                    }
                } else {
                    sqs
                }
            }
        }
    }
}

/// The full reconciliation: the four directions in north, east, south,
/// west order, all over one grid snapshot.
pub open spec fn reconciled(
    ts0: Seq<Tile>,
    grid: Map<MapPosition, Square>,
    tile_idx: int,
) -> Seq<Seq<Square>> {
    reconcile_step(
        ts0,
        reconcile_step(
            ts0,
            reconcile_step(
                ts0,
                reconcile_step(ts0, squares_view(ts0), grid, tile_idx, MoveDirection::North),
                grid,
                tile_idx,
                MoveDirection::East,
            ),
            grid,
            tile_idx,
            MoveDirection::South,
        ),
        grid,
        tile_idx,
        MoveDirection::West,
    )
}

/// Which tile contains a position depends on the positions alone.
pub proof fn lemma_find_tile_positions(a: Seq<Tile>, b: Seq<Tile>, p: MapPosition, n: int)
    requires
        a.len() == b.len(),
        forall|i: int| 0 <= i < a.len() ==> (#[trigger] a[i]).position == b[i].position,
    ensures
        find_tile(a, p, n) == find_tile(b, p, n),
    decreases a.len() - n,
{
    if !(n < 0 || n >= a.len()) {
        assert(tile_contains(a[n], p) == tile_contains(b[n], p));
        lemma_find_tile_positions(a, b, p, n + 1);
    }
}

/// One reconciliation step reads the tile sequence only through its
/// positions.
pub proof fn lemma_reconcile_step_positions(
    a: Seq<Tile>,
    b: Seq<Tile>,
    sqs: Seq<Seq<Square>>,
    grid: Map<MapPosition, Square>,
    tile_idx: int,
    dir: MoveDirection,
)
    requires
        a.len() == b.len(),
        0 <= tile_idx < a.len(),
        forall|i: int| 0 <= i < a.len() ==> (#[trigger] a[i]).position == b[i].position,
    ensures
        reconcile_step(a, sqs, grid, tile_idx, dir) == reconcile_step(b, sqs, grid, tile_idx, dir),
{
    let position = crate::types::spec_entrance_position(a[tile_idx].position, dir);
    lemma_find_tile_positions(a, b, position, 0);
}

impl GameState {
    /// One direction of door reconciliation, against the snapshot grid.
    fn reconcile_dir(&mut self, tile_idx: usize, dir: MoveDirection, grid: &Grid)
        requires
            tile_idx < old(self).tiles@.len(),
            tiles_wf(old(self).tiles@),
        ensures
            *final(self) == (GameState { tiles: final(self).tiles, ..*old(self) }),
            tiles_skeleton_eqv(final(self).tiles@, old(self).tiles@),
            tiles_wf(final(self).tiles@),
            squares_view(final(self).tiles@) == reconcile_step(
                old(self).tiles@,
                squares_view(old(self).tiles@),
                grid@,
                tile_idx as int,
                dir,
            ),
    {
        let ghost ts0 = self.tiles@;
        let ghost view0 = squares_view(ts0);
        let tile_pos = self.tiles[tile_idx].position;
        let position = tile_pos.entrance_position(&dir);
        match grid.get(&position) {
            None => {}
            Some(neighbor_square) => {
                let my_door_pos = position.move_in_direction(&dir.opposite());
                match grid.get(&my_door_pos) {
                    None => {}
                    Some(my_square) => {
                        if my_square.has_door() {
                            if neighbor_square.has_door() {
                                let mut t = self.tiles[tile_idx].clone();
                                t.open_door_in_dir(dir);
                                self.tiles.set(tile_idx, t);
                                proof {
                                    assert(squares_view(self.tiles@) =~= view0.update(
                                        tile_idx as int,
                                        view0[tile_idx as int].update(
                                            crate::types::door_square_index(dir),
                                            crate::types::spec_open_door(
                                                view0[tile_idx as int][crate::types::door_square_index(
                                                    dir,
                                                )],
                                                dir,
                                            ),
                                        ),
                                    ));
                                    lemma_find_tile_positions(self.tiles@, ts0, position, 0);
                                }
                                match self.get_index_and_tile(&position) {
                                    Some((idx, tile)) => {
                                        let ghost view1 = squares_view(self.tiles@);
                                        let mut nt = tile;
                                        nt.open_door_in_dir(dir.opposite());
                                        self.tiles.set(idx, nt);
                                        proof {
                                            assert(squares_view(self.tiles@) =~= view1.update(
                                                idx as int,
                                                view1[idx as int].update(
                                                    crate::types::door_square_index(
                                                        crate::types::spec_opposite(dir),
                                                    ),
                                                    crate::types::spec_open_door(
                                                        view1[idx as int][crate::types::door_square_index(
                                                            crate::types::spec_opposite(dir),
                                                        )],
                                                        crate::types::spec_opposite(dir),
                                                    ),
                                                ),
                                            ));
                                        }
                                    }
                                    None => {}
                                }
                            } else {
                                let mut t = self.tiles[tile_idx].clone();
                                t.close_door_in_dir(dir);
                                self.tiles.set(tile_idx, t);
                                proof {
                                    assert(squares_view(self.tiles@) =~= view0.update(
                                        tile_idx as int,
                                        view0[tile_idx as int].update(
                                            crate::types::door_square_index(dir),
                                            crate::types::spec_close_door(
                                                view0[tile_idx as int][crate::types::door_square_index(
                                                    dir,
                                                )],
                                                dir,
                                            ),
                                        ),
                                    ));
                                }
                            }
                        } else {
                            if neighbor_square.has_door() {
                                proof {
                                    lemma_find_tile_positions(self.tiles@, ts0, position, 0);
                                }
                                match self.get_index_and_tile(&position) {
                                    Some((idx, tile)) => {
                                        let mut nt = tile;
                                        nt.close_door_in_dir(dir.opposite());
                                        self.tiles.set(idx, nt);
                                        proof {
                                            assert(squares_view(self.tiles@) =~= view0.update(
                                                idx as int,
                                                view0[idx as int].update(
                                                    crate::types::door_square_index(
                                                        crate::types::spec_opposite(dir),
                                                    ),
                                                    crate::types::spec_close_door(
                                                        view0[idx as int][crate::types::door_square_index(
                                                            crate::types::spec_opposite(dir),
                                                        )],
                                                        crate::types::spec_opposite(dir),
                                                    ),
                                                ),
                                            ));
                                        }
                                    }
                                    None => {}
                                }
                            }
                        }
                    }
                }
            }
        }
    }

    /// Reconciles the four door slots of the tile at `tile_idx` with its
    /// neighbors, against one snapshot of the grid: matching door pairs
    /// open, unmatched doors close.
    pub fn update_tile_doors(&mut self, tile_idx: usize)
        requires
            tile_idx < old(self).tiles@.len(),
            tiles_wf(old(self).tiles@),
        ensures
            *final(self) == (GameState { tiles: final(self).tiles, ..*old(self) }),
            tiles_skeleton_eqv(final(self).tiles@, old(self).tiles@),
            tiles_wf(final(self).tiles@),
            squares_view(final(self).tiles@) == reconciled(
                old(self).tiles@,
                grid_of(old(self).tiles@),
                tile_idx as int,
            ),
    {
        let ghost ts0 = self.tiles@;
        let grid = self.get_absolute_grid();
        self.reconcile_dir(tile_idx, MoveDirection::North, &grid);
        proof {
            lemma_reconcile_step_positions(
                self.tiles@,
                ts0,
                squares_view(self.tiles@),
                grid@,
                tile_idx as int,
                MoveDirection::East,
            );
        }
        self.reconcile_dir(tile_idx, MoveDirection::East, &grid);
        proof {
            lemma_reconcile_step_positions(
                self.tiles@,
                ts0,
                squares_view(self.tiles@),
                grid@,
                tile_idx as int,
                MoveDirection::South,
            );
        }
        self.reconcile_dir(tile_idx, MoveDirection::South, &grid);
        proof {
            lemma_reconcile_step_positions(
                self.tiles@,
                ts0,
                squares_view(self.tiles@),
                grid@,
                tile_idx as int,
                MoveDirection::West,
            );
        }
        self.reconcile_dir(tile_idx, MoveDirection::West, &grid);
    }
}


/// Pointwise value equality of tile sequences, names as character
/// sequences.
pub open spec fn tiles_eqv(a: Seq<Tile>, b: Seq<Tile>) -> bool {
    a.len() == b.len() && forall|i: int| 0 <= i < a.len() ==> tile_eqv(#[trigger] a[i], b[i])
}

/// Pointwise equality of player rosters, names as character sequences.
pub open spec fn players_eqv(a: Seq<Player>, b: Seq<Player>) -> bool {
    a.len() == b.len() && forall|i: int|
        0 <= i < a.len() ==> crate::types::player_eqv(#[trigger] a[i], b[i])
}

/// Pointwise equality of teleport caches, inner vectors as sequences.
pub open spec fn teleports_eqv(
    a: Seq<(HeisterColor, Vec<MapPosition>)>,
    b: Seq<(HeisterColor, Vec<MapPosition>)>,
) -> bool {
    a.len() == b.len() && forall|i: int|
        0 <= i < a.len() ==> (#[trigger] a[i]).0 == b[i].0 && a[i].1@ == b[i].1@
}

/// Value equality of two game states, with owned strings and vectors
/// compared by contents.
pub open spec fn state_eqv(a: GameState, b: GameState) -> bool {
    &&& a.game_name.0@ == b.game_name.0@
    &&& a.game_started == b.game_started
    &&& a.timer_runs_out == b.timer_runs_out
    &&& tiles_eqv(a.tiles@, b.tiles@)
    &&& a.heisters@ == b.heisters@
    &&& a.all_items_taken == b.all_items_taken
    &&& a.remaining_tiles == b.remaining_tiles
    &&& a.game_status == b.game_status
    &&& players_eqv(a.players@, b.players@)
    &&& a.possible_placements@ == b.possible_placements@
    &&& a.possible_escalators@ == b.possible_escalators@
    &&& teleports_eqv(a.possible_teleports@, b.possible_teleports@)
    &&& a.players_may_speak == b.players_may_speak
}

impl Clone for GameState {
    /// A clone is value-equal to the state: same contents everywhere.
    fn clone(&self) -> (r: Self)
        ensures
            state_eqv(r, *self),
    {
        let tiles: Vec<Tile> = self.tiles.clone();
        proof {
            assert forall|i: int| 0 <= i < tiles@.len() implies tile_eqv(
                #[trigger] tiles@[i],
                self.tiles@[i],
            ) by {
                assert(cloned(self.tiles@[i], tiles@[i]));
            }
        }
        let heisters: Vec<Heister> = self.heisters.clone();
        proof {
            assert(heisters@ =~= self.heisters@) by {
                assert forall|i: int| 0 <= i < heisters@.len() implies heisters@[i]
                    == self.heisters@[i] by {
                    assert(cloned(self.heisters@[i], heisters@[i]));
                }
            }
        }
        let players: Vec<Player> = self.players.clone();
        proof {
            assert forall|i: int| 0 <= i < players@.len() implies crate::types::player_eqv(
                #[trigger] players@[i],
                self.players@[i],
            ) by {
                assert(cloned(self.players@[i], players@[i]));
            }
        }
        let possible_placements: Vec<MapPosition> = self.possible_placements.clone();
        proof {
            assert(possible_placements@ =~= self.possible_placements@) by {
                assert forall|i: int|
                    0 <= i < possible_placements@.len() implies possible_placements@[i]
                    == self.possible_placements@[i] by {
                    assert(cloned(self.possible_placements@[i], possible_placements@[i]));
                }
            }
        }
        let mut possible_escalators: Vec<(HeisterColor, MapPosition)> = Vec::new();
        let mut e: usize = 0;
        while e < self.possible_escalators.len()
            invariant
                e <= self.possible_escalators@.len(),
                possible_escalators@ == self.possible_escalators@.take(e as int),
            decreases self.possible_escalators@.len() - e,
        {
            possible_escalators.push(self.possible_escalators[e]);
            proof {
                assert(possible_escalators@ =~= self.possible_escalators@.take(e + 1));
            }
            e = e + 1;
        }
        proof {
            assert(self.possible_escalators@.take(self.possible_escalators@.len() as int)
                =~= self.possible_escalators@);
        }
        let mut possible_teleports: Vec<(HeisterColor, Vec<MapPosition>)> = Vec::new();
        let mut k: usize = 0;
        while k < self.possible_teleports.len()
            invariant
                k <= self.possible_teleports@.len(),
                possible_teleports@.len() == k,
                forall|i: int|
                    0 <= i < k ==> (#[trigger] possible_teleports@[i]).0
                        == self.possible_teleports@[i].0 && possible_teleports@[i].1@
                        == self.possible_teleports@[i].1@,
            decreases self.possible_teleports@.len() - k,
        {
            let color = self.possible_teleports[k].0;
            let list: Vec<MapPosition> = self.possible_teleports[k].1.clone();
            proof {
                assert(list@ =~= self.possible_teleports@[k as int].1@) by {
                    assert forall|q: int| 0 <= q < list@.len() implies list@[q]
                        == self.possible_teleports@[k as int].1@[q] by {
                        assert(cloned(self.possible_teleports@[k as int].1@[q], list@[q]));
                    }
                }
            }
            possible_teleports.push((color, list));
            k = k + 1;
        }
        GameState {
            game_name: self.game_name.clone(),
            game_started: self.game_started,
            timer_runs_out: self.timer_runs_out,
            tiles,
            heisters,
            all_items_taken: self.all_items_taken,
            remaining_tiles: self.remaining_tiles,
            game_status: self.game_status,
            players,
            possible_placements,
            possible_escalators,
            possible_teleports,
            players_may_speak: self.players_may_speak,
        }
    }
}



/// Addition on the clock, saturating at the top of the `u64` range.
pub open spec fn sat_add(a: int, b: int) -> u64 {
    if a + b <= u64::MAX {
        (a + b) as u64
    } else {
        u64::MAX
    }
}

proof fn lemma_grid_map_key_has_entry(es: Seq<(MapPosition, Square)>, p: MapPosition)
    requires
        crate::grid::grid_map(es).contains_key(p),
    ensures
        exists|j: int| 0 <= j < es.len() && (#[trigger] es[j]).0 == p,
    decreases es.len(),
{
    if es.len() > 0 {
        if es.last().0 == p {
            assert(es[es.len() - 1].0 == p);
        } else {
            lemma_grid_map_key_has_entry(es.drop_last(), p);
            let j = choose|j: int| 0 <= j < es.drop_last().len() && (#[trigger] es.drop_last()[j]).0
                == p;
            assert(es[j].0 == p);
        }
    }
}

proof fn lemma_entries_entry_in_tile(ts: Seq<Tile>, j: int)
    requires
        tiles_wf(ts),
        0 <= j < crate::grid::entries_of(ts).len(),
    ensures
        exists|i: int|
            0 <= i < ts.len() && tile_contains(#[trigger] ts[i], crate::grid::entries_of(ts)[j].0),
    decreases ts.len(),
{
    if ts.len() > 0 {
        let prefix = crate::grid::entries_of(ts.drop_last());
        if j < prefix.len() {
            assert(tiles_wf(ts.drop_last()));
            lemma_entries_entry_in_tile(ts.drop_last(), j);
            let i = choose|i: int|
                0 <= i < ts.drop_last().len() && tile_contains(
                    #[trigger] ts.drop_last()[i],
                    prefix[j].0,
                );
            assert(tile_contains(ts[i], crate::grid::entries_of(ts)[j].0));
        } else {
            let k = j - prefix.len();
            let t = ts.last();
            assert(crate::grid::entries_of(ts)[j] == crate::grid::tile_entries(t)[k]);
            assert(crate::grid::tile_entries(t)[k].0 == crate::types::spec_square_idx_pos(t, k));
            assert(tile_wf(t));
            assert(0 <= k % 4 < 4 && 0 <= k / 4 < 4);
            assert(tile_contains(ts[ts.len() - 1], crate::types::spec_square_idx_pos(t, k)));
        }
    }
}

/// Every position the grid covers lies within some placed tile, so its
/// coordinates stay within the workable range.
pub proof fn lemma_grid_pos_has_tile(ts: Seq<Tile>, p: MapPosition)
    requires
        tiles_wf(ts),
        grid_of(ts).contains_key(p),
    ensures
        find_tile(ts, p, 0) < ts.len(),
        tile_contains(ts[find_tile(ts, p, 0)], p),
        pos_moderate(p),
        pos_workable(p),
{
    lemma_grid_map_key_has_entry(crate::grid::entries_of(ts), p);
    let j = choose|j: int|
        0 <= j < crate::grid::entries_of(ts).len() && (#[trigger] crate::grid::entries_of(ts)[j]).0
            == p;
    lemma_entries_entry_in_tile(ts, j);
    let i = choose|i: int| 0 <= i < ts.len() && tile_contains(#[trigger] ts[i], p);
    lemma_find_tile(ts, p, 0);
    assert(find_tile(ts, p, 0) <= i);
    assert(tile_wf(ts[find_tile(ts, p, 0)]));
}


/// What every pair produced by the entrance computation satisfies: the
/// source is a covered, workable square with a door, and the entrance is
/// one step beyond that door.
pub open spec fn entrance_pair_ok(
    grid: Map<MapPosition, Square>,
    pr: (MapPosition, MapPosition),
) -> bool {
    &&& grid.contains_key(pr.0)
    &&& pos_moderate(pr.0)
    &&& spec_door_direction(grid[pr.0]) is Some
    &&& pr.1 == spec_move_in_direction(pr.0, spec_door_direction(grid[pr.0]).unwrap())
}

pub proof fn lemma_entrance_pairs_ok(grid: Map<MapPosition, Square>, hs: Seq<Heister>, n: int)
    requires
        0 <= n <= hs.len(),
        forall|i: int| 0 <= i < hs.len() ==> pos_moderate((#[trigger] hs[i]).map_position),
    ensures
        forall|k: int|
            0 <= k < entrance_pairs_prefix(grid, hs, n).len() ==> entrance_pair_ok(
                grid,
                #[trigger] entrance_pairs_prefix(grid, hs, n)[k],
            ),
    decreases n,
{
    if n > 0 {
        lemma_entrance_pairs_ok(grid, hs, n - 1);
        let prev = entrance_pairs_prefix(grid, hs, n - 1);
        let cur = entrance_pairs_prefix(grid, hs, n);
        assert forall|k: int| 0 <= k < cur.len() implies entrance_pair_ok(
            grid,
            #[trigger] cur[k],
        ) by {
            if heister_at_own_door(grid, hs[n - 1]) && k == prev.len() {
                assert(cur[k] == cur.last());
                assert(spec_door_wall(grid[hs[n - 1].map_position]) is Some);
                assert(pos_moderate(hs[n - 1].map_position));
            } else {
                assert(cur[k] == prev[k]);
                assert(entrance_pair_ok(grid, prev[k]));
            }
        }
    }
}


} // verus!
