//! The engine's general laws, each proved once and for all over the same
//! spec functions the executable contracts use.

use vstd::prelude::*;

use crate::game::{
    escalator_verdict, move_verdict, rot16, rot16_n, teleport_verdict, GameOptions,
};
use crate::game_state::{
    adjacent_move_verdict, all_escaped, find_tile, heister_index, heisters_wf,
    lemma_heister_index_wf, spec_occupied, spec_status_after, wall_check_verdict, GameState,
};
use crate::types::{
    square_has_door, spec_move_direction, spec_rotate_clockwise, spec_teleport_matches_color, wall_in_dir, Heister,
    MapPosition, Move, Square, SquareType, WallType,
};

verus! {

/// A move onto the acting heister's own square is valid.
pub proof fn law_noop_move(g: GameState, opts: GameOptions, m: Move, pname: Seq<char>)
    requires
        heisters_wf(g.heisters@),
        m.position == g.heisters@[heister_index(g.heisters@, m.heister_color)].map_position,
    ensures
        move_verdict(g, opts, m, pname) is None,
{
    lemma_heister_index_wf(g.heisters@, m.heister_color);
}

/// A single walking step across an impassable wall is invalid, whatever
/// stands on the destination.
pub proof fn law_wall_blocking(
    grid: Map<MapPosition, Square>,
    hs: Seq<Heister>,
    hp: MapPosition,
    dp: MapPosition,
)
    requires
        grid.contains_key(hp),
        spec_move_direction(hp, dp) is Some,
        wall_in_dir(grid[hp], spec_move_direction(hp, dp).unwrap()) == WallType::Impassable,
    ensures
        adjacent_move_verdict(grid, hs, hp, dp) is Some,
        adjacent_move_verdict(grid, hs, hp, dp).unwrap()
            == "Can't pass through impassable wall"@,
{
    assert(wall_check_verdict(grid, hp, dp) == Some("Can't pass through impassable wall"@));
}

/// An escalator move is valid exactly when both endpoints are escalator
/// squares of one and the same placed tile, with the destination free.
pub proof fn law_escalator_symmetry(
    grid: Map<MapPosition, Square>,
    ts: Seq<crate::types::Tile>,
    hs: Seq<Heister>,
    hp: MapPosition,
    dp: MapPosition,
)
    requires
        !spec_occupied(hs, dp),
    ensures
        escalator_verdict(grid, ts, hs, hp, dp) is None <==> {
            &&& grid.contains_key(dp)
            &&& grid[dp].square_type == SquareType::Escalator
            &&& grid.contains_key(hp)
            &&& grid[hp].square_type == SquareType::Escalator
            &&& find_tile(ts, hp, 0) < ts.len()
            &&& find_tile(ts, hp, 0) == find_tile(ts, dp, 0)
        },
{
}

/// A teleport move is valid exactly when the destination is the free
/// teleport pad of the heister's own color, and, when the portal-only
/// option is on, the heister departs from a square of the same pad type.
pub proof fn law_teleport_color(
    grid: Map<MapPosition, Square>,
    hs: Seq<Heister>,
    h: Heister,
    dp: MapPosition,
    portal_only: bool,
)
    requires
        !spec_occupied(hs, dp),
        grid.contains_key(h.map_position),
        grid.contains_key(dp),
    ensures
        teleport_verdict(grid, hs, h, dp, portal_only) is None <==> {
            &&& spec_teleport_matches_color(grid[dp], h.heister_color)
            &&& (portal_only ==> grid[h.map_position].square_type == grid[dp].square_type)
        },
{
}

/// Four quarter clockwise turns return a tile's sixteen squares to their
/// original configuration.
pub proof fn law_rotation_identity(sqs: Seq<Square>)
    requires
        sqs.len() == 16,
    ensures
        rot16_n(sqs, 4) == sqs,
{
    let s1 = rot16(sqs);
    let s2 = rot16(s1);
    let s3 = rot16(s2);
    let s4 = rot16(s3);
    assert(rot16_n(sqs, 4) == s4) by {
        assert(rot16_n(sqs, 0) == sqs);
        assert(rot16_n(sqs, 1) == s1);
        assert(rot16_n(sqs, 2) == s2);
        assert(rot16_n(sqs, 3) == s3);
    }
    assert forall|j: int| 0 <= j < 16 implies s4[j] == sqs[j] by {
        let a1 = 4 * (3 - j % 4) + j / 4;
        assert(0 <= a1 < 16);
        assert(a1 % 4 == j / 4 && a1 / 4 == 3 - j % 4) by (nonlinear_arith)
            requires
                a1 == 4 * (3 - j % 4) + j / 4,
                0 <= j < 16,
        ;
        let a2 = 4 * (3 - a1 % 4) + a1 / 4;
        assert(a2 == 4 * (3 - j / 4) + (3 - j % 4));
        assert(a2 % 4 == 3 - j % 4 && a2 / 4 == 3 - j / 4) by (nonlinear_arith)
            requires
                a2 == 4 * (3 - j / 4) + (3 - j % 4),
                0 <= j < 16,
        ;
        let a3 = 4 * (3 - a2 % 4) + a2 / 4;
        assert(a3 == 4 * (j % 4) + (3 - j / 4));
        assert(a3 % 4 == 3 - j / 4 && a3 / 4 == j % 4) by (nonlinear_arith)
            requires
                a3 == 4 * (j % 4) + (3 - j / 4),
                0 <= j < 16,
        ;
        let a4 = 4 * (3 - a3 % 4) + a3 / 4;
        assert(a4 == 4 * (j / 4) + j % 4);
        assert(a4 == j);
        assert(s4[j] == spec_rotate_clockwise(s3[a1]));
        assert(s3[a1] == spec_rotate_clockwise(s2[a2]));
        assert(s2[a2] == spec_rotate_clockwise(s1[a3]));
        assert(s1[a3] == spec_rotate_clockwise(sqs[a4]));
        assert(spec_rotate_clockwise(
            spec_rotate_clockwise(spec_rotate_clockwise(spec_rotate_clockwise(sqs[j]))),
        ) == sqs[j]);
    }
    assert(s4 =~= sqs);
}

/// Victory and defeat are exclusive and terminal: victory demands all
/// items taken and everyone escaped, defeat a started clock past its
/// deadline while the game was still ongoing, and a terminal status never
/// changes again.
pub proof fn law_terminal_exclusivity(g: GameState, now: u64)
    ensures
        spec_status_after(g, now) == crate::types::GameStatus::Victory ==> (g.game_status
            == crate::types::GameStatus::Victory || (g.all_items_taken && all_escaped(
            g.heisters@,
        ))),
        spec_status_after(g, now) == crate::types::GameStatus::Defeat ==> (g.game_status
            == crate::types::GameStatus::Defeat || (g.game_status
            == crate::types::GameStatus::Ongoing && g.game_started != 0 && now
            > g.timer_runs_out && !(g.all_items_taken && all_escaped(g.heisters@)))),
        (g.game_status == crate::types::GameStatus::Victory || g.game_status
            == crate::types::GameStatus::Defeat) ==> spec_status_after(g, now) == g.game_status,
{
}


/// Wall symmetry under door reconciliation: when a newly placed tile's
/// border door slot and the aligned neighbor door slot face each other,
/// one reconciliation step leaves the shared edge consistent. Facing
/// doors both open to clear walls; a door facing a doorless square is
/// closed with an impassable wall.
pub proof fn law_door_reconciliation(
    ts0: Seq<crate::types::Tile>,
    sqs: Seq<Seq<Square>>,
    grid: Map<MapPosition, Square>,
    tile_idx: int,
    dir: crate::types::MoveDirection,
)
    requires
        0 <= tile_idx < ts0.len(),
        sqs.len() == ts0.len(),
        forall|i: int| 0 <= i < sqs.len() ==> (#[trigger] sqs[i]).len() == 16,
        grid.contains_key(
            crate::types::spec_entrance_position(ts0[tile_idx].position, dir),
        ),
        grid.contains_key(
            crate::types::spec_move_in_direction(
                crate::types::spec_entrance_position(ts0[tile_idx].position, dir),
                crate::types::spec_opposite(dir),
            ),
        ),
        grid[crate::types::spec_move_in_direction(
            crate::types::spec_entrance_position(ts0[tile_idx].position, dir),
            crate::types::spec_opposite(dir),
        )] == sqs[tile_idx][crate::types::door_square_index(dir)],
        find_tile(ts0, crate::types::spec_entrance_position(ts0[tile_idx].position, dir), 0)
            < ts0.len(),
        find_tile(ts0, crate::types::spec_entrance_position(ts0[tile_idx].position, dir), 0)
            != tile_idx,
        grid[crate::types::spec_entrance_position(ts0[tile_idx].position, dir)] == sqs[find_tile(
            ts0,
            crate::types::spec_entrance_position(ts0[tile_idx].position, dir),
            0,
        )][crate::types::door_square_index(crate::types::spec_opposite(dir))],
    ensures
        ({
            let position = crate::types::spec_entrance_position(ts0[tile_idx].position, dir);
            let di = crate::types::door_square_index(dir);
            let oi = crate::types::door_square_index(crate::types::spec_opposite(dir));
            let n = find_tile(ts0, position, 0);
            let mysq = sqs[tile_idx][di];
            let nsq = sqs[n][oi];
            let out = crate::game_state::reconcile_step(ts0, sqs, grid, tile_idx, dir);
            let opp = crate::types::spec_opposite(dir);
            &&& (crate::types::is_door(wall_in_dir(mysq, dir)) && crate::types::is_door(
                wall_in_dir(nsq, opp),
            ) ==> wall_in_dir(out[tile_idx][di], dir) == WallType::Clear && wall_in_dir(
                out[n][oi],
                opp,
            ) == WallType::Clear)
            &&& (crate::types::is_door(wall_in_dir(mysq, dir))
                && !crate::types::square_has_door(nsq) ==> wall_in_dir(out[tile_idx][di], dir)
                == WallType::Impassable)
            &&& (!crate::types::square_has_door(mysq) && crate::types::is_door(
                wall_in_dir(nsq, opp),
            ) ==> wall_in_dir(out[n][oi], opp) == WallType::Impassable)
        }),
{
    let position = crate::types::spec_entrance_position(ts0[tile_idx].position, dir);
    crate::game_state::lemma_find_tile(ts0, position, 0);
    let opp = crate::types::spec_opposite(dir);
    let di = crate::types::door_square_index(dir);
    let oi = crate::types::door_square_index(opp);
    let n = find_tile(ts0, position, 0);
    let mysq = sqs[tile_idx][di];
    let nsq = sqs[n][oi];
    let out = crate::game_state::reconcile_step(ts0, sqs, grid, tile_idx, dir);
    if crate::types::square_has_door(mysq) {
        if crate::types::square_has_door(nsq) {
            let s1 = sqs.update(
                tile_idx,
                sqs[tile_idx].update(di, crate::types::spec_open_door(mysq, dir)),
            );
            assert(out == s1.update(
                n,
                s1[n].update(oi, crate::types::spec_open_door(s1[n][oi], opp)),
            ));
            assert(s1[n] == sqs[n]);
            assert(out[tile_idx] == s1[tile_idx]);
            assert(out[tile_idx][di] == crate::types::spec_open_door(mysq, dir));
            assert(out[n][oi] == crate::types::spec_open_door(nsq, opp));
        } else {
            assert(out == sqs.update(
                tile_idx,
                sqs[tile_idx].update(di, crate::types::spec_close_door(mysq, dir)),
            ));
            assert(out[tile_idx][di] == crate::types::spec_close_door(mysq, dir));
        }
    } else {
        if crate::types::square_has_door(nsq) {
            assert(out == sqs.update(
                n,
                sqs[n].update(oi, crate::types::spec_close_door(nsq, opp)),
            ));
            assert(out[n][oi] == crate::types::spec_close_door(nsq, opp));
        }
    }
}

/// One step east / one step south, for phrasing grid adjacency.
pub open spec fn east_of(p: MapPosition) -> MapPosition {
    MapPosition { x: (p.x + 1) as i32, y: p.y }
}

pub open spec fn south_of(p: MapPosition) -> MapPosition {
    MapPosition { x: p.x, y: (p.y + 1) as i32 }
}

/// Wall symmetry over a whole grid: every pair of grid-adjacent squares
/// reports the same barrier from both sides.
pub open spec fn wall_symmetric(grid: Map<MapPosition, Square>) -> bool {
    &&& forall|p: MapPosition| #![trigger grid[p], grid[east_of(p)]]
        grid.contains_key(p) && grid.contains_key(east_of(p)) ==> grid[p].east_wall
            == grid[east_of(p)].west_wall
    &&& forall|p: MapPosition| #![trigger grid[p], grid[south_of(p)]]
        grid.contains_key(p) && grid.contains_key(south_of(p)) ==> grid[p].south_wall
            == grid[south_of(p)].north_wall
}

/// Authored wall symmetry within one 4 x 4 block, in row-major order.
pub open spec fn tile_wall_symmetric(sqs: Seq<Square>) -> bool {
    &&& forall|k: int| #![trigger sqs[k].east_wall]
        0 <= k < 16 && k % 4 < 3 ==> sqs[k].east_wall == sqs[k + 1].west_wall
    &&& forall|k: int| #![trigger sqs[k].south_wall]
        0 <= k < 16 && k < 12 ==> sqs[k].south_wall == sqs[k + 4].north_wall
}

/// Each linear index of a tile projects to a position the tile contains,
/// and the index computation inverts the projection.
proof fn lemma_tile_index_roundtrip(t: crate::types::Tile, k: int)
    requires
        crate::types::tile_wf(t),
        0 <= k < 16,
    ensures
        crate::types::tile_contains(t, crate::types::spec_square_idx_pos(t, k)),
        crate::types::tile_index_of(t, crate::types::spec_square_idx_pos(t, k)) == k,
{
    assert(0 <= k % 4 < 4 && 0 <= k / 4 < 4);
    assert(k == 4 * (k / 4) + k % 4);
}

/// A single-tile grid covers exactly the tile's block, square by square.
proof fn lemma_single_tile_grid(t: crate::types::Tile, p: MapPosition)
    requires
        crate::types::tile_wf(t),
    ensures
        crate::grid::grid_of(seq![t]).contains_key(p) <==> crate::types::tile_contains(t, p),
        crate::types::tile_contains(t, p) ==> crate::grid::grid_of(seq![t])[p]
            == t.squares@[crate::types::tile_index_of(t, p)],
{
    let es = crate::grid::entries_of(seq![t]);
    assert(seq![t].drop_last() =~= Seq::<crate::types::Tile>::empty());
    assert(crate::grid::entries_of(seq![t].drop_last()) =~= Seq::<
        (MapPosition, Square),
    >::empty());
    assert(es =~= crate::grid::tile_entries(t));
    if crate::types::tile_contains(t, p) {
        let k = crate::types::tile_index_of(t, p);
        let a = p.y - t.position.y;
        let b = p.x - t.position.x;
        assert(0 <= a < 4 && 0 <= b < 4);
        assert(k == 4 * a + b);
        assert(0 <= k < 16);
        assert(k % 4 == b && k / 4 == a) by (nonlinear_arith)
            requires
                k == 4 * a + b,
                0 <= a < 4,
                0 <= b < 4,
        ;
        assert(crate::types::spec_square_idx_pos(t, k) == p);
        assert(es[k].0 == p);
        assert forall|j: int| k < j < es.len() implies (#[trigger] es[j]).0 != p by {
            lemma_tile_index_roundtrip(t, j);
            if es[j].0 == p {
                assert(crate::types::tile_index_of(t, p) == j);
            }
        }
        crate::grid::lemma_grid_map_found(es, k, p);
    } else {
        assert forall|j: int| 0 <= j < es.len() implies (#[trigger] es[j]).0 != p by {
            lemma_tile_index_roundtrip(t, j);
        }
        crate::grid::lemma_grid_map_absent(es, p);
    }
}

/// The starting tile is authored wall-symmetric.
#[verifier::rlimit(100)]
#[verifier::spinoff_prover]
pub proof fn lemma_tile_1a_wall_symmetric()
    ensures
        tile_wall_symmetric(crate::load_map::tile_1a_squares()),
{
    let sqs = crate::load_map::tile_1a_squares();
    assert forall|k: int| 0 <= k < 16 && k % 4 < 3 implies (#[trigger] sqs[k].east_wall)
        == sqs[k + 1].west_wall by {
        assert(sqs[k].east_wall == sqs[k + 1].west_wall);
    }
    assert forall|k: int| 0 <= k < 16 && k < 12 implies (#[trigger] sqs[k].south_wall)
        == sqs[k + 4].north_wall by {
        assert(sqs[k].south_wall == sqs[k + 4].north_wall);
    }
}

/// Wall symmetry holds of the whole grid of one authored-symmetric tile;
/// with the starting tile this is the fresh game's entire grid.
pub proof fn law_initial_wall_symmetry(t: crate::types::Tile)
    requires
        crate::types::tile_wf(t),
        tile_wall_symmetric(t.squares@),
    ensures
        wall_symmetric(crate::grid::grid_of(seq![t])),
{
    let grid = crate::grid::grid_of(seq![t]);
    assert forall|p: MapPosition|
        grid.contains_key(p) && grid.contains_key(east_of(p)) implies #[trigger] grid[p].east_wall
        == #[trigger] grid[east_of(p)].west_wall by {
        lemma_single_tile_grid(t, p);
        lemma_single_tile_grid(t, east_of(p));
        let k = crate::types::tile_index_of(t, p);
        let a = p.y - t.position.y;
        let b = p.x - t.position.x;
        assert(k == 4 * a + b && 0 <= a < 4 && 0 <= b < 3);
        assert(k % 4 == b && k / 4 == a) by (nonlinear_arith)
            requires
                k == 4 * a + b,
                0 <= a < 4,
                0 <= b < 3,
        ;
        assert(crate::types::tile_index_of(t, east_of(p)) == k + 1);
        assert(t.squares@[k].east_wall == t.squares@[k + 1].west_wall);
    }
    assert forall|p: MapPosition|
        grid.contains_key(p) && grid.contains_key(south_of(p)) implies #[trigger] grid[
        p].south_wall == #[trigger] grid[south_of(p)].north_wall by {
        lemma_single_tile_grid(t, p);
        lemma_single_tile_grid(t, south_of(p));
        let k = crate::types::tile_index_of(t, p);
        let a = p.y - t.position.y;
        let b = p.x - t.position.x;
        assert(k == 4 * a + b && 0 <= a < 3 && 0 <= b < 4);
        assert(k < 12);
        assert(crate::types::tile_index_of(t, south_of(p)) == k + 4);
        assert(t.squares@[k].south_wall == t.squares@[k + 4].north_wall);
    }
}

/// The fresh game's grid is wall-symmetric.
pub proof fn law_fresh_grid_wall_symmetry(g: GameState)
    requires
        g.tiles@.len() == 1,
        crate::types::tile_wf(g.tiles@[0]),
        g.tiles@[0].squares@ == crate::load_map::tile_1a_squares(),
    ensures
        wall_symmetric(crate::grid::grid_of(g.tiles@)),
{
    lemma_tile_1a_wall_symmetric();
    law_initial_wall_symmetry(g.tiles@[0]);
    assert(seq![g.tiles@[0]] =~= g.tiles@);
}

} // verus!
