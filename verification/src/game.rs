//! The orchestrator: one game instance, its options, and the state machine
//! that receives tagged messages and applies the rules.

use rand::seq::SliceRandom;
use vstd::prelude::*;

use crate::game_state::{
    entrance_pairs_prefix, find_heister_at, find_square, find_tile, find_tile_at, heister_index,
    heisters_wf, lemma_entrance_pairs_ok, lemma_find_heister_at, lemma_grid_pos_has_tile,
    lemma_heister_index_wf, occupancy_verdict, spec_occupied, state_wf, tiles_wf, GameState,
};
use crate::grid::{grid_of, Grid};
use crate::load_map::load_tiles_from_json;
use crate::text;
use crate::types::{
    pos_interior, pos_moderate, pos_workable, spec_adjacent, spec_door_direction, spec_is_escape,
    spec_is_teleport, spec_move_direction, spec_square_color, spec_teleport_matches_color,
    tile_eqv, tile_wf, Ability, Body, GameStatus, Heister, HeisterColor, MainMessage, MapPosition,
    Move, MoveDirection, PlaceTile, Player, PlayerName, Square, SquareType, Tile,
    TIMER_DURATION_SECS,
};
use crate::utils::get_current_time_secs;

verus! {

/// The opaque identifier of one game instance.
#[derive(Debug)]
pub struct GameHandle(pub String);

impl Clone for GameHandle {
    fn clone(&self) -> (r: Self)
        ensures
            r.0@ == self.0@,
    {
        GameHandle(self.0.clone())
    }
}

/// The options a game is created with.
#[derive(Copy, Clone, Debug)]
pub struct GameOptions {
    pub shuffle_tiles: bool,
    pub teleport_only_from_portal: bool,
}

impl Default for GameOptions {
    /// Tiles are shuffled; teleporting is allowed from any square.
    fn default() -> (r: Self)
        ensures
            r.shuffle_tiles,
            !r.teleport_only_from_portal,
    {
        GameOptions { shuffle_tiles: true, teleport_only_from_portal: false }
    }
}

/// The first-class result of every rule check: a move either goes through
/// or is rejected with a reason.
#[derive(Debug)]
pub enum MoveValidity {
    Valid,
    Invalid(String),
}

/// The reason sequence of an invalid result; the empty sequence for Valid.
pub open spec fn invalid_msg(v: MoveValidity) -> Seq<char> {
    match v {
        MoveValidity::Valid => Seq::empty(),
        MoveValidity::Invalid(s) => s@,
    }
}

impl MoveValidity {
    pub fn is_invalid(&self) -> (r: bool)
        ensures
            r == (*self is Invalid),
    {
        match self {
            MoveValidity::Invalid(_) => true,
            MoveValidity::Valid => false,
        }
    }

    pub fn is_valid(&self) -> (r: bool)
        ensures
            r == (*self is Valid),
    {
        !self.is_invalid()
    }
}

impl Clone for MoveValidity {
    /// A clone is valid exactly when the original is, with the same reason
    /// characters.
    fn clone(&self) -> (r: Self)
        ensures
            r is Valid <==> *self is Valid,
            invalid_msg(r) == invalid_msg(*self),
    {
        match self {
            MoveValidity::Valid => MoveValidity::Valid,
            MoveValidity::Invalid(s) => MoveValidity::Invalid(s.clone()),
        }
    }
}

impl PartialEq for MoveValidity {
    /// Two results are equal when both are valid, or both invalid with the
    /// same reason characters.
    fn eq(&self, other: &Self) -> (r: bool)
    {
        match (self, other) {
            (MoveValidity::Valid, MoveValidity::Valid) => true,
            (MoveValidity::Invalid(a), MoveValidity::Invalid(b)) => a.eq(b),
            _ => false,
        }
    }
}

impl vstd::std_specs::cmp::PartialEqSpecImpl for MoveValidity {
    open spec fn obeys_eq_spec() -> bool {
        true
    }

    open spec fn eq_spec(&self, other: &Self) -> bool {
        match (*self, *other) {
            (MoveValidity::Valid, MoveValidity::Valid) => true,
            (MoveValidity::Invalid(a), MoveValidity::Invalid(b)) => a@ == b@,
            _ => false,
        }
    }
}

/// Relies on rand's SliceRandom::shuffle with rand::rng(): it permutes the
/// elements of the slice in place, so the multiset of elements is kept, and
/// every element of the result was an element before.
#[verifier::external_body]
fn shuffle_vec<T>(v: &mut Vec<T>)
    ensures
        final(v)@.to_multiset() == old(v)@.to_multiset(),
        final(v)@.len() == old(v)@.len(),
        forall|i: int| #![trigger final(v)@[i]]
            0 <= i < final(v)@.len() ==> exists|j: int| #![trigger old(v)@[j]]
                0 <= j < old(v)@.len() && final(v)@[i] == old(v)@[j],
{
    v.shuffle(&mut rand::rng());
}

/// The fixed ability partition for each recognized player count: row `i`
/// is the ability set handed to player `i` before the rows are shuffled.
pub open spec fn ability_table(n: int) -> Seq<Seq<Ability>> {
    if n <= 1 {
        seq![
            seq![
                Ability::MoveNorth,
                Ability::MoveEast,
                Ability::MoveSouth,
                Ability::MoveWest,
                Ability::Teleport,
                Ability::RevealTiles,
                Ability::UseEscalator,
            ],
        ]
    } else if n == 2 {
        seq![
            seq![Ability::MoveNorth, Ability::MoveEast, Ability::Teleport],
            seq![
                Ability::MoveSouth,
                Ability::MoveWest,
                Ability::RevealTiles,
                Ability::UseEscalator,
            ],
        ]
    } else if n == 3 {
        seq![
            seq![Ability::MoveNorth, Ability::MoveEast],
            seq![Ability::MoveSouth, Ability::RevealTiles, Ability::UseEscalator],
            seq![Ability::MoveWest, Ability::Teleport],
        ]
    } else if n == 4 {
        seq![
            seq![Ability::MoveNorth],
            seq![Ability::MoveEast, Ability::UseEscalator],
            seq![Ability::MoveSouth, Ability::RevealTiles],
            seq![Ability::MoveWest, Ability::Teleport],
        ]
    } else if n == 5 {
        seq![
            seq![Ability::MoveNorth],
            seq![Ability::MoveEast, Ability::UseEscalator],
            seq![Ability::MoveSouth, Ability::RevealTiles],
            seq![Ability::MoveWest],
            seq![Ability::MoveWest, Ability::Teleport],
        ]
    } else if n == 6 {
        seq![
            seq![Ability::MoveNorth],
            seq![Ability::MoveEast],
            seq![Ability::MoveEast, Ability::UseEscalator],
            seq![Ability::MoveSouth, Ability::RevealTiles],
            seq![Ability::MoveWest],
            seq![Ability::MoveWest, Ability::Teleport],
        ]
    } else if n == 7 {
        seq![
            seq![Ability::MoveNorth],
            seq![Ability::MoveEast],
            seq![Ability::MoveEast, Ability::UseEscalator],
            seq![Ability::MoveSouth],
            seq![Ability::MoveSouth, Ability::RevealTiles],
            seq![Ability::MoveWest],
            seq![Ability::MoveWest, Ability::Teleport],
        ]
    } else {
        seq![
            seq![Ability::MoveNorth],
            seq![Ability::MoveNorth],
            seq![Ability::MoveEast],
            seq![Ability::MoveEast, Ability::UseEscalator],
            seq![Ability::MoveSouth],
            seq![Ability::MoveSouth, Ability::RevealTiles],
            seq![Ability::MoveWest],
            seq![Ability::MoveWest, Ability::Teleport],
        ]
    }
}

/// The ability rows of a shuffled partition, each row as a sequence.
pub open spec fn abilities_view(s: Seq<Vec<Ability>>) -> Seq<Seq<Ability>> {
    Seq::new(s.len(), |i: int| s[i]@)
}

/// The ability sets the roster holds, player by player.
pub open spec fn players_abilities_view(ps: Seq<Player>) -> Seq<Seq<Ability>> {
    Seq::new(ps.len(), |i: int| ps[i].abilities@)
}

/// Mapping preserves permutations: two sequences with equal multisets
/// have equal multisets of mapped values.
proof fn lemma_map_values_multiset<T, U>(s1: Seq<T>, s2: Seq<T>, f: spec_fn(T) -> U)
    requires
        s1.to_multiset() == s2.to_multiset(),
    ensures
        s1.map_values(f).to_multiset() == s2.map_values(f).to_multiset(),
    decreases s1.len(),
{
    broadcast use vstd::seq_lib::group_to_multiset_ensures;

    if s1.len() == 0 {
        assert(s1.to_multiset().len() == s1.len());
        assert(s2.to_multiset().len() == s2.len());
        assert(s2.len() == 0);
        assert(s1.map_values(f) =~= s2.map_values(f));
    } else {
        let x = s1.last();
        assert(s1.contains(x));
        assert(s2.to_multiset().count(x) > 0);
        assert(s2.contains(x));
        let j = choose|j: int| 0 <= j < s2.len() && s2[j] == x;
        let s1p = s1.drop_last();
        let s2p = s2.remove(j);
        assert(s1.remove(s1.len() - 1) =~= s1p);
        assert(s1p.to_multiset() =~= s1.to_multiset().remove(x));
        assert(s2p.to_multiset() =~= s2.to_multiset().remove(x));
        lemma_map_values_multiset(s1p, s2p, f);
        let v1 = s1.map_values(f);
        let v2 = s2.map_values(f);
        assert(v1.remove(v1.len() - 1) =~= s1p.map_values(f));
        assert(s1p.map_values(f).to_multiset() =~= v1.to_multiset().remove(f(x))) by {
            assert(v1.remove(v1.len() - 1).to_multiset() =~= v1.to_multiset().remove(
                v1[v1.len() - 1],
            ));
            assert(v1[v1.len() - 1] == f(x));
        }
        assert(v2.remove(j) =~= s2p.map_values(f));
        assert(s2p.map_values(f).to_multiset() =~= v2.to_multiset().remove(f(x))) by {
            assert(v2.remove(j).to_multiset() =~= v2.to_multiset().remove(v2[j]));
            assert(v2[j] == f(x));
        }
        assert(v1.contains(f(x))) by {
            assert(v1[v1.len() - 1] == f(x));
        }
        assert(v2.contains(f(x))) by {
            assert(v2[j] == f(x));
        }
        assert(v1.to_multiset().count(f(x)) > 0);
        assert(v2.to_multiset().count(f(x)) > 0);
        assert(v1.to_multiset() =~= v2.to_multiset()) by {
            assert(v1.to_multiset().remove(f(x)) =~= v2.to_multiset().remove(f(x)));
            assert forall|e: U| true implies v1.to_multiset().count(e) == v2.to_multiset().count(
                e,
            ) by {
                if e == f(x) {
                    assert(v1.to_multiset().remove(f(x)).count(e) == v1.to_multiset().count(e)
                        - 1);
                    assert(v2.to_multiset().remove(f(x)).count(e) == v2.to_multiset().count(e)
                        - 1);
                } else {
                    assert(v1.to_multiset().remove(f(x)).count(e) == v1.to_multiset().count(e));
                    assert(v2.to_multiset().remove(f(x)).count(e) == v2.to_multiset().count(e));
                }
            }
        }
    }
}

/// The ability sets for `num_players` players: one authored set per
/// player, in a shuffled order.
fn get_player_abilities(num_players: usize) -> (r: Vec<Vec<Ability>>)
    requires
        num_players <= 8,
    ensures
        r@.len() == ability_table(num_players as int).len(),
        abilities_view(r@).to_multiset() == ability_table(num_players as int).to_multiset(),
        forall|i: int|
            0 <= i < r@.len() ==> exists|j: int|
                0 <= j < ability_table(num_players as int).len() && (#[trigger] r@[i])@
                    == ability_table(num_players as int)[j],
{
    let mut player_abilities: Vec<Vec<Ability>> = Vec::new();
    if num_players <= 1 {
        let mut row: Vec<Ability> = Vec::new();
        row.push(Ability::MoveNorth);
        row.push(Ability::MoveEast);
        row.push(Ability::MoveSouth);
        row.push(Ability::MoveWest);
        row.push(Ability::Teleport);
        row.push(Ability::RevealTiles);
        row.push(Ability::UseEscalator);
        proof {
            assert(row@ =~= ability_table(num_players as int)[0]);
        }
        player_abilities.push(row);
    } else if num_players == 2 {
        let mut row0: Vec<Ability> = Vec::new();
        row0.push(Ability::MoveNorth);
        row0.push(Ability::MoveEast);
        row0.push(Ability::Teleport);
        let mut row1: Vec<Ability> = Vec::new();
        row1.push(Ability::MoveSouth);
        row1.push(Ability::MoveWest);
        row1.push(Ability::RevealTiles);
        row1.push(Ability::UseEscalator);
        proof {
            assert(row0@ =~= ability_table(2)[0]);
            assert(row1@ =~= ability_table(2)[1]);
        }
        player_abilities.push(row0);
        player_abilities.push(row1);
    } else if num_players == 3 {
        let mut row0: Vec<Ability> = Vec::new();
        row0.push(Ability::MoveNorth);
        row0.push(Ability::MoveEast);
        let mut row1: Vec<Ability> = Vec::new();
        row1.push(Ability::MoveSouth);
        row1.push(Ability::RevealTiles);
        row1.push(Ability::UseEscalator);
        let mut row2: Vec<Ability> = Vec::new();
        row2.push(Ability::MoveWest);
        row2.push(Ability::Teleport);
        proof {
            assert(row0@ =~= ability_table(3)[0]);
            assert(row1@ =~= ability_table(3)[1]);
            assert(row2@ =~= ability_table(3)[2]);
        }
        player_abilities.push(row0);
        player_abilities.push(row1);
        player_abilities.push(row2);
    } else {
        let mut north: Vec<Ability> = Vec::new();
        north.push(Ability::MoveNorth);
        let mut north2: Vec<Ability> = Vec::new();
        north2.push(Ability::MoveNorth);
        let mut east: Vec<Ability> = Vec::new();
        east.push(Ability::MoveEast);
        let mut east_esc: Vec<Ability> = Vec::new();
        east_esc.push(Ability::MoveEast);
        east_esc.push(Ability::UseEscalator);
        let mut south: Vec<Ability> = Vec::new();
        south.push(Ability::MoveSouth);
        let mut south_reveal: Vec<Ability> = Vec::new();
        south_reveal.push(Ability::MoveSouth);
        south_reveal.push(Ability::RevealTiles);
        let mut west: Vec<Ability> = Vec::new();
        west.push(Ability::MoveWest);
        let mut west2: Vec<Ability> = Vec::new();
        west2.push(Ability::MoveWest);
        let mut west_tele: Vec<Ability> = Vec::new();
        west_tele.push(Ability::MoveWest);
        west_tele.push(Ability::Teleport);
        if num_players == 4 {
            player_abilities.push(north);
            player_abilities.push(east_esc);
            player_abilities.push(south_reveal);
            player_abilities.push(west_tele);
        } else if num_players == 5 {
            player_abilities.push(north);
            player_abilities.push(east_esc);
            player_abilities.push(south_reveal);
            player_abilities.push(west);
            player_abilities.push(west_tele);
        } else if num_players == 6 {
            player_abilities.push(north);
            player_abilities.push(east);
            player_abilities.push(east_esc);
            player_abilities.push(south_reveal);
            player_abilities.push(west);
            player_abilities.push(west_tele);
        } else if num_players == 7 {
            player_abilities.push(north);
            player_abilities.push(east);
            player_abilities.push(east_esc);
            player_abilities.push(south);
            player_abilities.push(south_reveal);
            player_abilities.push(west);
            player_abilities.push(west_tele);
        } else {
            player_abilities.push(north);
            player_abilities.push(north2);
            player_abilities.push(east);
            player_abilities.push(east_esc);
            player_abilities.push(south);
            player_abilities.push(south_reveal);
            player_abilities.push(west);
            player_abilities.push(west_tele);
        }
        proof {
            let tbl = ability_table(num_players as int);
            assert forall|i: int|
                0 <= i < player_abilities@.len() implies (#[trigger] player_abilities@[i])@
                == tbl[i] by {
                assert(player_abilities@[i]@ =~= tbl[i]);
            }
        }
    }
    proof {
        assert(abilities_view(player_abilities@) =~= ability_table(num_players as int));
    }
    let ghost before = player_abilities@;
    shuffle_vec(&mut player_abilities);
    proof {
        let ghost f: spec_fn(Vec<Ability>) -> Seq<Ability> = |v: Vec<Ability>| v@;
        lemma_map_values_multiset(player_abilities@, before, f);
        assert(abilities_view(player_abilities@) =~= player_abilities@.map_values(f));
        assert(abilities_view(before) =~= before.map_values(f));
        assert forall|i: int| 0 <= i < player_abilities@.len() implies exists|j: int|
            0 <= j < ability_table(num_players as int).len() && (
            #[trigger] player_abilities@[i])@ == ability_table(num_players as int)[j] by {
            let k = choose|k: int| 0 <= k < before.len() && player_abilities@[i] == before[k];
        }
    }
    player_abilities
}

/// The index of the first player with this name, or the roster length.
pub open spec fn find_player(ps: Seq<Player>, name: Seq<char>, n: int) -> int
    decreases ps.len() - n,
{
    if n < 0 || n >= ps.len() {
        ps.len() as int
    } else if ps[n].name@ == name {
        n
    } else {
        find_player(ps, name, n + 1)
    }
}

pub proof fn lemma_find_player(ps: Seq<Player>, name: Seq<char>, n: int)
    requires
        0 <= n <= ps.len(),
    ensures
        n <= find_player(ps, name, n) <= ps.len(),
        find_player(ps, name, n) < ps.len() ==> ps[find_player(ps, name, n)].name@ == name,
        forall|i: int| n <= i < find_player(ps, name, n) ==> (#[trigger] ps[i]).name@ != name,
    decreases ps.len() - n,
{
    if n < ps.len() && ps[n].name@ != name {
        lemma_find_player(ps, name, n + 1);
    }
}

/// The first player of this name holds the ability.
pub open spec fn spec_player_has_ability(ps: Seq<Player>, name: Seq<char>, a: Ability) -> bool {
    let i = find_player(ps, name, 0);
    i < ps.len() && ps[i].abilities@.contains(a)
}

/// The teleporter registry and teleport cache, with the inner vectors as
/// sequences.
pub open spec fn tele_view(v: Seq<(HeisterColor, Vec<MapPosition>)>) -> Seq<
    (HeisterColor, Seq<MapPosition>),
> {
    Seq::new(v.len(), |i: int| (v[i].0, v[i].1@))
}

/// The index of the first registry entry of this color, or the length.
pub open spec fn find_color_entry(
    m: Seq<(HeisterColor, Seq<MapPosition>)>,
    c: HeisterColor,
    n: int,
) -> int
    decreases m.len() - n,
{
    if n < 0 || n >= m.len() {
        m.len() as int
    } else if m[n].0 == c {
        n
    } else {
        find_color_entry(m, c, n + 1)
    }
}

pub proof fn lemma_find_color_entry(m: Seq<(HeisterColor, Seq<MapPosition>)>, c: HeisterColor, n: int)
    requires
        0 <= n <= m.len(),
    ensures
        n <= find_color_entry(m, c, n) <= m.len(),
        find_color_entry(m, c, n) < m.len() ==> m[find_color_entry(m, c, n)].0 == c,
        forall|i: int| n <= i < find_color_entry(m, c, n) ==> (#[trigger] m[i]).0 != c,
    decreases m.len() - n,
{
    if n < m.len() && m[n].0 != c {
        lemma_find_color_entry(m, c, n + 1);
    }
}

/// One teleporter added to the registry: appended to its color's list, or
/// opening a new list for a new color.
pub open spec fn add_teleporter(
    m: Seq<(HeisterColor, Seq<MapPosition>)>,
    c: HeisterColor,
    p: MapPosition,
) -> Seq<(HeisterColor, Seq<MapPosition>)> {
    let i = find_color_entry(m, c, 0);
    if i < m.len() {
        m.update(i, (c, m[i].1.push(p)))
    } else {
        m.push((c, seq![p]))
    }
}

/// The registry after adding the first `n` teleporters of the list.
pub open spec fn add_teleporters(
    m: Seq<(HeisterColor, Seq<MapPosition>)>,
    tps: Seq<(HeisterColor, MapPosition)>,
    n: int,
) -> Seq<(HeisterColor, Seq<MapPosition>)>
    decreases n,
{
    if n <= 0 {
        m
    } else {
        add_teleporter(add_teleporters(m, tps, n - 1), tps[n - 1].0, tps[n - 1].1)
    }
}

/// The teleport destinations offered per heister: for each unescaped
/// heister allowed to depart from its square, its color's revealed list.
pub open spec fn teleport_pairs_prefix(
    grid: Map<MapPosition, Square>,
    portal_only: bool,
    rt: Seq<(HeisterColor, Seq<MapPosition>)>,
    hs: Seq<Heister>,
    n: int,
) -> Seq<(HeisterColor, Seq<MapPosition>)>
    decreases n,
{
    if n <= 0 {
        Seq::empty()
    } else {
        let h = hs[n - 1];
        let rest = teleport_pairs_prefix(grid, portal_only, rt, hs, n - 1);
        if !h.has_escaped && grid.contains_key(h.map_position) && (!portal_only
            || spec_is_teleport(grid[h.map_position])) && find_color_entry(rt, h.heister_color, 0)
            < rt.len() {
            rest.push((h.heister_color, rt[find_color_entry(rt, h.heister_color, 0)].1))
        } else {
            rest
        }
    }
}

/// One game instance: the state, its options, the undrawn deck and the
/// registry of teleporters revealed so far.
#[derive(Debug)]
pub struct Game {
    pub game_handle: GameHandle,
    pub game_options: GameOptions,
    pub game_state: GameState,
    pub tile_deck: Vec<Tile>,
    pub game_created: u64,
    pub revealed_teleporters: Vec<(HeisterColor, Vec<MapPosition>)>,
}

impl Game {
    /// Records every teleport pad of a newly revealed tile in the
    /// registry, in square order.
    fn update_revealed_teleporters(
        already_revealed: &mut Vec<(HeisterColor, Vec<MapPosition>)>,
        new_tile: &Tile,
    )
        requires
            tile_wf(*new_tile),
        ensures
            tele_view(final(already_revealed)@) == add_teleporters(
                tele_view(old(already_revealed)@),
                crate::types::spec_teleporters_prefix(*new_tile, 16),
                crate::types::spec_teleporters_prefix(*new_tile, 16).len() as int,
            ),
    {
        let teleporters = new_tile.get_teleporters();
        let ghost tps = crate::types::spec_teleporters_prefix(*new_tile, 16);
        let mut k: usize = 0;
        while k < teleporters.len()
            invariant
                tps == teleporters@,
                k <= tps.len(),
                tele_view(already_revealed@) == add_teleporters(
                    tele_view(old(already_revealed)@),
                    tps,
                    k as int,
                ),
            decreases tps.len() - k,
        {
            let (color, teleporter_pos) = teleporters[k];
            let ghost m0 = tele_view(already_revealed@);
            let mut i: usize = 0;
            let mut found: bool = false;
            while i < already_revealed.len() && !found
                invariant
                    m0 == tele_view(already_revealed@),
                    i <= m0.len(),
                    found ==> i < m0.len() && m0[i as int].0 == color,
                    forall|j: int| 0 <= j < i ==> (#[trigger] m0[j]).0 != color,
                decreases m0.len() - i + if found {
                    0int
                } else {
                    1int
                },
            {
                if already_revealed[i].0 == color {
                    found = true;
                } else {
                    i = i + 1;
                }
            }
            proof {
                lemma_find_color_entry(m0, color, 0);
                if found {
                    assert(find_color_entry(m0, color, 0) == i as int);
                } else {
                    assert(find_color_entry(m0, color, 0) == m0.len());
                }
            }
            if found {
                let mut list = already_revealed[i].1.clone();
                proof {
                    assert(list@ =~= already_revealed@[i as int].1@) by {
                        assert forall|q: int| 0 <= q < list@.len() implies list@[q]
                            == already_revealed@[i as int].1@[q] by {
                            assert(cloned(already_revealed@[i as int].1@[q], list@[q]));
                        }
                    }
                }
                list.push(teleporter_pos);
                already_revealed.set(i, (color, list));
                proof {
                    assert(tele_view(already_revealed@) =~= add_teleporter(
                        m0,
                        color,
                        teleporter_pos,
                    ));
                }
            } else {
                let mut list: Vec<MapPosition> = Vec::new();
                list.push(teleporter_pos);
                already_revealed.push((color, list));
                proof {
                    assert(tele_view(already_revealed@) =~= add_teleporter(
                        m0,
                        color,
                        teleporter_pos,
                    ));
                }
            }
            k = k + 1;
        }
    }

    /// A fresh game: the canonical starting state, the eight-tile deck
    /// (shuffled unless the options say otherwise), and the starting
    /// tile's teleporters already revealed.
    pub fn new(game_handle: GameHandle, game_options: GameOptions) -> (r: Game)
        ensures
            r.game_handle.0@ == game_handle.0@,
            r.game_options == game_options,
            state_wf(r.game_state),
            r.game_state.game_name.0@ == game_handle.0@,
            r.game_state.game_status == GameStatus::Staging,
            r.game_state.tiles@.len() == 1,
            r.game_state.tiles@[0].squares@ == crate::load_map::tile_1a_squares(),
            r.game_state.tiles@[0].position == (MapPosition { x: 0, y: 0 }),
            r.game_state.heisters@.len() == 4,
            forall|i: int|
                0 <= i < 4 ==> (#[trigger] r.game_state.heisters@[i]).map_position
                    == crate::types::spec_initial_position(
                    r.game_state.heisters@[i].heister_color,
                    true,
                ),
            r.game_state.players@.len() == 0,
            r.game_state.remaining_tiles == 8,
            r.tile_deck@.len() == 8,
            tiles_wf(r.tile_deck@),
            crate::load_map::deck_view(r.tile_deck@).to_multiset()
                == crate::load_map::authored_deck_view().to_multiset(),
            forall|i: int|
                0 <= i < r.tile_deck@.len() ==> (#[trigger] r.tile_deck@[i]).position
                    == (MapPosition { x: 0, y: 0 }) && r.tile_deck@[i].num_rotations == 0,
            tele_view(r.revealed_teleporters@) == add_teleporters(
                Seq::empty(),
                crate::types::spec_teleporters_prefix(r.game_state.tiles@[0], 16),
                crate::types::spec_teleporters_prefix(r.game_state.tiles@[0], 16).len() as int,
            ),
    {
        let game_state = GameState::new(game_handle.clone());
        let mut tile_deck: Vec<Tile> = load_tiles_from_json();
        proof {
            assert(tiles_wf(tile_deck@));
            assert(crate::load_map::deck_view(tile_deck@)
                =~= crate::load_map::authored_deck_view());
        }
        if game_options.shuffle_tiles {
            let ghost before = tile_deck@;
            shuffle_vec(&mut tile_deck);
            proof {
                assert forall|i: int|
                    0 <= i < tile_deck@.len() implies tile_wf(#[trigger] tile_deck@[i])
                        && tile_deck@[i].position == (MapPosition { x: 0, y: 0 })
                        && tile_deck@[i].num_rotations == 0 by {
                    let j = choose|j: int| 0 <= j < before.len() && tile_deck@[i] == before[j];
                }
                let ghost f: spec_fn(Tile) -> (Seq<Square>, Seq<char>) = |t: Tile|
                    (t.squares@, t.name@);
                lemma_map_values_multiset(tile_deck@, before, f);
                assert(crate::load_map::deck_view(tile_deck@) =~= tile_deck@.map_values(f));
                assert(crate::load_map::deck_view(before) =~= before.map_values(f));
            }
        }
        let game_created = get_current_time_secs();
        let mut revealed_teleporters: Vec<(HeisterColor, Vec<MapPosition>)> = Vec::new();
        proof {
            assert(tele_view(revealed_teleporters@) =~= Seq::<
                (HeisterColor, Seq<MapPosition>),
            >::empty());
        }
        Self::update_revealed_teleporters(&mut revealed_teleporters, &game_state.tiles[0]);
        Game {
            game_handle,
            game_options,
            game_state,
            tile_deck,
            game_created,
            revealed_teleporters,
        }
    }

    /// Registers a player while the game is staging; a quiet no-op later.
    pub fn add_player(&mut self, name: String) -> (r: Result<(), ()>)
        ensures
            r is Ok,
            *final(self) == (Game { game_state: final(self).game_state, ..*old(self) }),
            final(self).game_state == (GameState {
                players: final(self).game_state.players,
                ..old(self).game_state
            }),
            final(self).game_state.game_status == old(self).game_state.game_status,
            final(self).game_state.heisters@ == old(self).game_state.heisters@,
            final(self).game_state.tiles@ == old(self).game_state.tiles@,
            state_wf(old(self).game_state) ==> state_wf(final(self).game_state),
            if old(self).game_state.game_status != GameStatus::Staging || old(self).game_state.players@.len() >= crate::game_state::MAX_PLAYERS {
                final(self).game_state.players@ == old(self).game_state.players@
            } else {
                final(self).game_state.players@.len() == old(self).game_state.players@.len() + 1
                    && final(self).game_state.players@.last().name@ == name@
                    && final(self).game_state.players@.last().abilities@.len() == 0
                    && final(self).game_state.players@.take(
                    old(self).game_state.players@.len() as int,
                ) == old(self).game_state.players@
            },
    {
        self.game_state.add_player(name)
    }

    /// Whether some registered player joined under this name.
    pub fn has_player(&self, name: &str) -> (r: bool)
        ensures
            r == exists|i: int|
                0 <= i < self.game_state.players@.len() && (
                #[trigger] self.game_state.players@[i]).name@ == name@,
    {
        self.game_state.has_player(name)
    }

    /// Whether the first player of this name holds the ability; the name
    /// must belong to a registered player.
    fn player_has_ability(&self, player_name: &PlayerName, ability: Ability) -> (r: bool)
        requires
            exists|i: int|
                0 <= i < self.game_state.players@.len() && (
                #[trigger] self.game_state.players@[i]).name@ == player_name.0@,
        ensures
            r == spec_player_has_ability(self.game_state.players@, player_name.0@, ability),
    {
        let ghost ps = self.game_state.players@;
        let mut i: usize = 0;
        proof {
            lemma_find_player(ps, player_name.0@, 0);
        }
        while i < self.game_state.players.len()
            invariant
                ps == self.game_state.players@,
                i <= ps.len(),
                forall|j: int| 0 <= j < i ==> (#[trigger] ps[j]).name@ != player_name.0@,
            decreases ps.len() - i,
        {
            if text::string_eq(&self.game_state.players[i].name, &player_name.0) {
                proof {
                    lemma_find_player(ps, player_name.0@, 0);
                    assert(find_player(ps, player_name.0@, 0) == i as int);
                }
                let abilities = &self.game_state.players[i].abilities;
                let mut k: usize = 0;
                while k < abilities.len()
                    invariant
                        ps == self.game_state.players@,
                        i < ps.len(),
                        find_player(ps, player_name.0@, 0) == i as int,
                        abilities@ == ps[i as int].abilities@,
                        k <= abilities@.len(),
                        forall|q: int| 0 <= q < k ==> abilities@[q] != ability,
                    decreases abilities@.len() - k,
                {
                    if abilities[k] == ability {
                        return true;
                    }
                    k = k + 1;
                }
                proof {
                    assert(!ps[i as int].abilities@.contains(ability));
                }
                return false;
            }
            i = i + 1;
        }
        proof {
            assert(false);
        }
        false
    }

    /// Assigns the authored ability partition for the current player count
    /// (in a shuffled order) and leaves staging.
    #[verifier::rlimit(100)]
    #[verifier::spinoff_prover]
    pub fn start_game(&mut self) -> (r: MoveValidity)
        requires
            old(self).game_state.players@.len() <= 8,
        ensures
            r is Valid,
            *final(self) == (Game { game_state: final(self).game_state, ..*old(self) }),
            final(self).game_state == (GameState {
                players: final(self).game_state.players,
                game_status: GameStatus::PreFirstMove,
                ..old(self).game_state
            }),
            final(self).game_state.players@.len() == old(self).game_state.players@.len(),
            forall|i: int|
                0 <= i < final(self).game_state.players@.len() ==> (
                #[trigger] final(self).game_state.players@[i]).name@ == old(self).game_state.players@[i].name@,
            forall|i: int|
                0 <= i < final(self).game_state.players@.len() ==> exists|j: int|
                    0 <= j < ability_table(old(self).game_state.players@.len() as int).len() && (
                    #[trigger] final(self).game_state.players@[i]).abilities@ == ability_table(
                        old(self).game_state.players@.len() as int,
                    )[j],
            old(self).game_state.players@.len() >= 1 ==> players_abilities_view(
                final(self).game_state.players@,
            ).to_multiset() == ability_table(
                old(self).game_state.players@.len() as int,
            ).to_multiset(),
            state_wf(old(self).game_state) ==> state_wf(final(self).game_state),
    {
        let player_abilities: Vec<Vec<Ability>> = get_player_abilities(
            self.game_state.players.len(),
        );
        let ghost ps0 = self.game_state.players@;
        let mut i: usize = 0;
        while i < self.game_state.players.len()
            invariant
                self.game_state.players@.len() == ps0.len(),
                *self == (Game { game_state: self.game_state, ..*old(self) }),
                self.game_state == (GameState { players: self.game_state.players, ..old(self).game_state }),
                player_abilities@.len() == ability_table(ps0.len() as int).len(),
                ps0.len() <= 8,
                forall|q: int|
                    0 <= q < player_abilities@.len() ==> exists|j: int|
                        0 <= j < ability_table(ps0.len() as int).len() && (
                        #[trigger] player_abilities@[q])@ == ability_table(ps0.len() as int)[j],
                i <= ps0.len(),
                forall|q: int|
                    0 <= q < ps0.len() ==> (#[trigger] self.game_state.players@[q]).name@
                        == ps0[q].name@,
                forall|q: int|
                    0 <= q < i ==> (#[trigger] self.game_state.players@[q]).abilities@
                        == player_abilities@[q]@,
            decreases ps0.len() - i,
        {
            proof {
                assert(ability_table(ps0.len() as int).len() >= ps0.len());
            }
            let name = self.game_state.players[i].name.clone();
            let abilities = player_abilities[i].clone();
            proof {
                assert(abilities@ =~= player_abilities@[i as int]@) by {
                    assert forall|q: int| 0 <= q < abilities@.len() implies abilities@[q]
                        == player_abilities@[i as int]@[q] by {
                        assert(cloned(player_abilities@[i as int]@[q], abilities@[q]));
                    }
                }
            }
            let updated = Player { name, abilities };
            self.game_state.players.set(i, updated);
            i = i + 1;
        }
        self.game_state.game_status = GameStatus::PreFirstMove;
        proof {
            let n = ps0.len() as int;
            assert forall|q: int|
                0 <= q < self.game_state.players@.len() implies exists|j: int|
                0 <= j < ability_table(n).len() && (
                #[trigger] self.game_state.players@[q]).abilities@ == ability_table(n)[j] by {
                assert(self.game_state.players@[q].abilities@ == player_abilities@[q]@);
                assert(exists|j: int|
                    0 <= j < ability_table(n).len() && (#[trigger] player_abilities@[q])@
                        == ability_table(n)[j]);
                let jj = choose|j: int|
                    0 <= j < ability_table(n).len() && (#[trigger] player_abilities@[q])@
                        == ability_table(n)[j];
                assert(self.game_state.players@[q].abilities@ == ability_table(n)[jj]);
            }
            if n >= 1 {
                assert(players_abilities_view(self.game_state.players@) =~= abilities_view(
                    player_abilities@,
                ));
            }
        }
        MoveValidity::Valid
    }

    /// A read-only copy of the state for broadcasting.
    pub fn get_game_state(&self) -> (r: GameState)
        ensures
            crate::game_state::state_eqv(r, self.game_state),
    {
        self.game_state.clone()
    }
}

/// Checks an escalator move: the destination must be an escalator
/// square, the heister must stand on one, both within the same placed
/// tile, and the destination must be free.
pub open spec fn escalator_verdict(
    grid: Map<MapPosition, Square>,
    ts: Seq<Tile>,
    hs: Seq<Heister>,
    hp: MapPosition,
    dp: MapPosition,
) -> Option<Seq<char>> {
    if !grid.contains_key(dp) {
        Some(text::msg_position_not_in_grid(dp))
    } else if grid[dp].square_type != SquareType::Escalator {
        Some(text::msg_square_not_escalator(dp))
    } else if !grid.contains_key(hp) || grid[hp].square_type != SquareType::Escalator {
        Some("Heister is not on an escalator"@)
    } else if find_tile(ts, hp, 0) < ts.len() && find_tile(ts, dp, 0) < ts.len() && find_tile(
        ts,
        hp,
        0,
    ) == find_tile(ts, dp, 0) {
        occupancy_verdict(hs, dp)
    } else {
        Some("Heister and dest escalator are on different tiles"@)
    }
}

/// Checks a teleport move: the destination must be the pad of the
/// heister's color, free, and (with the portal-only option) departed from
/// a square of the same pad type.
pub open spec fn teleport_verdict(
    grid: Map<MapPosition, Square>,
    hs: Seq<Heister>,
    h: Heister,
    dp: MapPosition,
    portal_only: bool,
) -> Option<Seq<char>> {
    if !grid.contains_key(h.map_position) {
        Some(text::msg_position_not_in_grid(h.map_position))
    } else if !grid.contains_key(dp) {
        Some(text::msg_dest_not_on_grid(dp))
    } else if !spec_teleport_matches_color(grid[dp], h.heister_color) {
        Some("Heister and teleporter color do not match"@)
    } else if !portal_only {
        occupancy_verdict(hs, dp)
    } else if grid[h.map_position].square_type == grid[dp].square_type {
        occupancy_verdict(hs, dp)
    } else {
        Some("Source and Dest teleporter colors do not match"@)
    }
}

/// The movement ability demanded for each direction.
pub open spec fn ability_for(dir: MoveDirection) -> Ability {
    match dir {
        MoveDirection::North => Ability::MoveNorth,
        MoveDirection::East => Ability::MoveEast,
        MoveDirection::South => Ability::MoveSouth,
        MoveDirection::West => Ability::MoveWest,
    }
}

/// The fixed rejection for a missing movement ability.
pub open spec fn dir_ability_msg(dir: MoveDirection) -> Seq<char> {
    match dir {
        MoveDirection::North => "You cannot move heisters North"@,
        MoveDirection::East => "You cannot move heisters East"@,
        MoveDirection::South => "You cannot move heisters South"@,
        MoveDirection::West => "You cannot move heisters West"@,
    }
}

pub open spec fn is_teleport_pad_type(t: SquareType) -> bool {
    match t {
        SquareType::OrangeTeleportPad | SquareType::YellowTeleportPad
            | SquareType::PurpleTeleportPad | SquareType::GreenTeleportPad => true,
        _ => false,
    }
}

/// The verdict of one Move request: None when the move goes through. A
/// move onto the heister's own square is always valid; otherwise the
/// special-square checks run first, and a failed special check falls back
/// to the walking checks when the squares are adjacent.
pub open spec fn move_verdict(
    g: GameState,
    opts: GameOptions,
    m: Move,
    pname: Seq<char>,
) -> Option<Seq<char>> {
    let hi = heister_index(g.heisters@, m.heister_color);
    let h = g.heisters@[hi];
    let hp = h.map_position;
    let dp = m.position;
    let grid = grid_of(g.tiles@);
    if !pos_moderate(dp) {
        Some(text::msg_position_not_on_map(dp))
    } else if dp == hp {
        None
    } else {
        let dest_type = if grid.contains_key(dp) {
            grid[dp].square_type
        } else {
            SquareType::Normal
        };
        let v1 = if dest_type == SquareType::Escalator {
            if !spec_player_has_ability(g.players@, pname, Ability::UseEscalator) {
                Some("You cannot use escalators"@)
            } else {
                escalator_verdict(grid, g.tiles@, g.heisters@, hp, dp)
            }
        } else if is_teleport_pad_type(dest_type) {
            if !spec_player_has_ability(g.players@, pname, Ability::Teleport) {
                Some("You cannot use teleporters"@)
            } else if g.all_items_taken {
                Some("All items have been taken, so teleports are disabled!"@)
            } else {
                teleport_verdict(grid, g.heisters@, h, dp, opts.teleport_only_from_portal)
            }
        } else {
            Some("move wasn't teleport nor escalator"@)
        };
        if spec_adjacent(hp, dp) && v1 is Some {
            let dir = spec_move_direction(hp, dp).unwrap();
            if !spec_player_has_ability(g.players@, pname, ability_for(dir)) {
                Some(dir_ability_msg(dir))
            } else {
                crate::game_state::adjacent_move_verdict(grid, g.heisters@, hp, dp)
            }
        } else {
            v1
        }
    }
}

/// The countdown after a timer flip at time `now`: the unused portion of
/// the standard duration is granted again from now, all clock arithmetic
/// saturating.
pub open spec fn timer_after_flip(entry: int, current: int, now: int) -> u64 {
    if now > entry {
        now as u64
    } else {
        let time_left: int = if current >= now {
            current - now
        } else {
            0
        };
        let new_left: int = if TIMER_DURATION_SECS >= time_left {
            TIMER_DURATION_SECS - time_left
        } else {
            0
        };
        crate::game_state::sat_add(now, new_left)
    }
}

/// How a valid Move request changes the state, at time `now`: the acting
/// heister lands on the destination (or, on the escape square of its own
/// color with all items taken, the escaped sentinel), the clock starts on
/// the first move, and a timer-flip square is spent.
pub open spec fn move_applied(g0: GameState, g1: GameState, m: Move, now: u64) -> bool {
    let hi = heister_index(g0.heisters@, m.heister_color);
    let h = g0.heisters@[hi];
    let grid = grid_of(g0.tiles@);
    let dest_square = if grid.contains_key(m.position) {
        grid[m.position]
    } else {
        crate::types::spec_default_square()
    };
    let escapes = crate::types::spec_is_escape(dest_square) && crate::types::spec_square_color(
        dest_square,
    ) == Some(h.heister_color) && g0.all_items_taken;
    let new_pos = if escapes {
        crate::types::spec_escaped_position()
    } else {
        m.position
    };
    let started = g0.game_status == GameStatus::PreFirstMove;
    let base_timer = if started {
        crate::game_state::sat_add(now as int, TIMER_DURATION_SECS as int)
    } else {
        g0.timer_runs_out
    };
    let flip = dest_square.square_type == SquareType::TimerFlip;
    &&& g1.heisters@ == g0.heisters@.update(
        hi,
        Heister { map_position: new_pos, has_escaped: h.has_escaped || escapes, ..h },
    )
    &&& g1.game_status == if started {
        GameStatus::Ongoing
    } else {
        g0.game_status
    }
    &&& g1.game_started == if started {
        now
    } else {
        g0.game_started
    }
    &&& g1.timer_runs_out == if flip {
        timer_after_flip(g0.timer_runs_out as int, base_timer as int, now as int)
    } else {
        base_timer
    }
    &&& if flip {
        let k = find_tile(g0.tiles@, m.position, 0);
        &&& k < g0.tiles@.len()
        &&& g1.tiles@.len() == g0.tiles@.len()
        &&& forall|j: int|
            0 <= j < g0.tiles@.len() && j != k ==> (#[trigger] g1.tiles@[j]) == g0.tiles@[j]
        &&& tile_eqv(g1.tiles@[k], (Tile { squares: g1.tiles@[k].squares, ..g0.tiles@[k] }))
        &&& ({
            let fidx = crate::types::first_timer_flip(g0.tiles@[k].squares@, 0);
            if fidx < 16 {
                g1.tiles@[k].squares@ == g0.tiles@[k].squares@.update(
                    fidx,
                    Square { square_type: SquareType::TimerFlipUsed, ..g0.tiles@[k].squares@[fidx] },
                )
            } else {
                g1.tiles@[k].squares@ == g0.tiles@[k].squares@
            }
        })
    } else {
        g1.tiles@ == g0.tiles@
    }
    &&& g1 == (GameState {
        heisters: g1.heisters,
        game_status: g1.game_status,
        game_started: g1.game_started,
        timer_runs_out: g1.timer_runs_out,
        tiles: g1.tiles,
        ..g0
    })
}

impl Game {
    /// Valid when the heister is at an escalator square and the
    /// destination is the same tile's other escalator square, free.
    fn validate_escalator_move(
        &self,
        grid: &Grid,
        heister_pos: &MapPosition,
        dest_pos: &MapPosition,
    ) -> (r: MoveValidity)
        ensures
            r is Valid <==> escalator_verdict(
                grid@,
                self.game_state.tiles@,
                self.game_state.heisters@,
                *heister_pos,
                *dest_pos,
            ) is None,
            r is Invalid ==> invalid_msg(r) == escalator_verdict(
                grid@,
                self.game_state.tiles@,
                self.game_state.heisters@,
                *heister_pos,
                *dest_pos,
            ).unwrap(),
    {
        match grid.get(dest_pos) {
            None => {
                return MoveValidity::Invalid(text::position_not_in_grid_message(dest_pos));
            }
            Some(dsq) => {
                if !(dsq.square_type == SquareType::Escalator) {
                    return MoveValidity::Invalid(text::square_not_escalator_message(dest_pos));
                }
            }
        }
        match grid.get(heister_pos) {
            None => {
                return MoveValidity::Invalid(
                    String::from_str("Heister is not on an escalator"),
                );
            }
            Some(hsq) => {
                if !(hsq.square_type == SquareType::Escalator) {
                    return MoveValidity::Invalid(
                        String::from_str("Heister is not on an escalator"),
                    );
                }
            }
        }
        let ht = self.game_state.get_index_and_tile(heister_pos);
        let dt = self.game_state.get_index_and_tile(dest_pos);
        match (ht, dt) {
            (Some((hi, _)), Some((di, _))) => {
                if hi == di {
                    self.game_state.position_is_occupied(dest_pos)
                } else {
                    MoveValidity::Invalid(
                        String::from_str("Heister and dest escalator are on different tiles"),
                    )
                }
            }
            _ => MoveValidity::Invalid(
                String::from_str("Heister and dest escalator are on different tiles"),
            ),
        }
    }

    /// Valid when the destination is the free teleport pad of the
    /// heister's color, subject to the portal-only option.
    fn validate_teleport(
        &self,
        grid: &Grid,
        heister: &Heister,
        dest_pos: &MapPosition,
        teleport_only_from_portal_option: bool,
    ) -> (r: MoveValidity)
        ensures
            r is Valid <==> teleport_verdict(
                grid@,
                self.game_state.heisters@,
                *heister,
                *dest_pos,
                teleport_only_from_portal_option,
            ) is None,
            r is Invalid ==> invalid_msg(r) == teleport_verdict(
                grid@,
                self.game_state.heisters@,
                *heister,
                *dest_pos,
                teleport_only_from_portal_option,
            ).unwrap(),
    {
        let heister_square = match grid.get(&heister.map_position) {
            Some(s) => s,
            None => {
                return MoveValidity::Invalid(
                    text::position_not_in_grid_message(&heister.map_position),
                );
            }
        };
        let dest_square = match grid.get(dest_pos) {
            Some(s) => s,
            None => {
                return MoveValidity::Invalid(text::dest_not_on_grid_message(dest_pos));
            }
        };
        if !dest_square.teleport_matches_color(heister.heister_color) {
            return MoveValidity::Invalid(
                String::from_str("Heister and teleporter color do not match"),
            );
        }
        if !teleport_only_from_portal_option {
            return self.game_state.position_is_occupied(dest_pos);
        }
        if heister_square.square_type == dest_square.square_type {
            self.game_state.position_is_occupied(dest_pos)
        } else {
            MoveValidity::Invalid(
                String::from_str("Source and Dest teleporter colors do not match"),
            )
        }
    }

    /// Valid when the player holds the movement ability for the direction
    /// of this one-square move.
    fn validate_player_has_move_direction_ability(
        &self,
        current_pos: &MapPosition,
        dest_pos: &MapPosition,
        player_name: &PlayerName,
    ) -> (r: MoveValidity)
        requires
            spec_adjacent(*current_pos, *dest_pos),
            exists|i: int|
                0 <= i < self.game_state.players@.len() && (
                #[trigger] self.game_state.players@[i]).name@ == player_name.0@,
        ensures
            ({
                let dir = spec_move_direction(*current_pos, *dest_pos).unwrap();
                &&& r is Valid <==> spec_player_has_ability(
                    self.game_state.players@,
                    player_name.0@,
                    ability_for(dir),
                )
                &&& r is Invalid ==> invalid_msg(r) == dir_ability_msg(dir)
            }),
    {
        let direction = current_pos.adjacent_move_direction(dest_pos);
        match direction {
            MoveDirection::North => {
                if !self.player_has_ability(player_name, Ability::MoveNorth) {
                    return MoveValidity::Invalid(
                        String::from_str("You cannot move heisters North"),
                    );
                }
            }
            MoveDirection::East => {
                if !self.player_has_ability(player_name, Ability::MoveEast) {
                    return MoveValidity::Invalid(
                        String::from_str("You cannot move heisters East"),
                    );
                }
            }
            MoveDirection::South => {
                if !self.player_has_ability(player_name, Ability::MoveSouth) {
                    return MoveValidity::Invalid(
                        String::from_str("You cannot move heisters South"),
                    );
                }
            }
            MoveDirection::West => {
                if !self.player_has_ability(player_name, Ability::MoveWest) {
                    return MoveValidity::Invalid(
                        String::from_str("You cannot move heisters West"),
                    );
                }
            }
        }
        MoveValidity::Valid
    }

    /// Applies one Move request at time `now`: checks validity and, when
    /// the move goes through, commits it.
    #[verifier::rlimit(100)]
    fn process_move_at(&mut self, m: Move, player_name: &PlayerName, now: u64) -> (r:
        MoveValidity)
        requires
            state_wf(old(self).game_state),
            exists|i: int|
                0 <= i < old(self).game_state.players@.len() && (
                #[trigger] old(self).game_state.players@[i]).name@ == player_name.0@,
        ensures
            r is Valid <==> move_verdict(
                old(self).game_state,
                old(self).game_options,
                m,
                player_name.0@,
            ) is None,
            r is Invalid ==> invalid_msg(r) == move_verdict(
                old(self).game_state,
                old(self).game_options,
                m,
                player_name.0@,
            ).unwrap(),
            r is Invalid ==> *final(self) == *old(self),
            r is Valid ==> move_applied(old(self).game_state, final(self).game_state, m, now),
            *final(self) == (Game { game_state: final(self).game_state, ..*old(self) }),
            state_wf(final(self).game_state),
    {
        proof {
            lemma_heister_index_wf(self.game_state.heisters@, m.heister_color);
        }
        let hi = match self.game_state.get_mut_heister_from_vec(m.heister_color) {
            Some(i) => i,
            None => {
                proof {
                    assert(false);
                }
                0
            }
        };
        let heister = self.game_state.heisters[hi];
        let heister_pos = heister.map_position;
        let dest_pos = m.position;
        if dest_pos.x > crate::types::COORD_LIMIT + 8 || dest_pos.x < -crate::types::COORD_LIMIT
            - 8 || dest_pos.y > crate::types::COORD_LIMIT + 8 || dest_pos.y
            < -crate::types::COORD_LIMIT - 8 {
            return MoveValidity::Invalid(text::position_not_on_map_message(&dest_pos));
        }
        let all_items_taken = self.game_state.all_items_taken;
        let entry_timer = self.game_state.timer_runs_out;
        let grid = self.game_state.get_absolute_grid();
        let mut dest_square = Square::default();
        match grid.get(&dest_pos) {
            Some(square) => {
                dest_square = square;
            }
            None => {}
        }
        let noop = dest_pos.x == heister_pos.x && dest_pos.y == heister_pos.y;
        let validity: MoveValidity = if noop {
            MoveValidity::Valid
        } else {
            let mut v: MoveValidity = match dest_square.square_type {
                SquareType::Escalator => {
                    if !self.player_has_ability(player_name, Ability::UseEscalator) {
                        MoveValidity::Invalid(String::from_str("You cannot use escalators"))
                    } else {
                        self.validate_escalator_move(&grid, &heister_pos, &dest_pos)
                    }
                }
                SquareType::OrangeTeleportPad | SquareType::YellowTeleportPad
                    | SquareType::PurpleTeleportPad | SquareType::GreenTeleportPad => {
                    if !self.player_has_ability(player_name, Ability::Teleport) {
                        MoveValidity::Invalid(String::from_str("You cannot use teleporters"))
                    } else if all_items_taken {
                        MoveValidity::Invalid(
                            String::from_str(
                                "All items have been taken, so teleports are disabled!",
                            ),
                        )
                    } else {
                        self.validate_teleport(
                            &grid,
                            &heister,
                            &dest_pos,
                            self.game_options.teleport_only_from_portal,
                        )
                    }
                }
                _ => MoveValidity::Invalid(
                    String::from_str("move wasn't teleport nor escalator"),
                ),
            };
            if heister_pos.is_adjacent(&dest_pos) && v.is_invalid() {
                v = self.validate_player_has_move_direction_ability(
                    &heister_pos,
                    &dest_pos,
                    player_name,
                );
                v = if v.is_invalid() {
                    v
                } else {
                    self.game_state.validate_adjacent_move(&grid, &heister_pos, &dest_pos)
                };
            }
            v
        };
        if validity.is_valid() {
            let mut destination = dest_pos;
            let mut escaped_now = false;
            let color_matches = match dest_square.color() {
                Some(c) => c == heister.heister_color,
                None => false,
            };
            if dest_square.is_escape() && color_matches && all_items_taken {
                destination = crate::types::escaped_position();
                escaped_now = true;
            }
            let updated = Heister {
                map_position: destination,
                has_escaped: heister.has_escaped || escaped_now,
                ..heister
            };
            self.game_state.heisters.set(hi, updated);
            proof {
                let hs0 = old(self).game_state.heisters@;
                let hs1 = self.game_state.heisters@;
                assert(forall|i: int|
                    0 <= i < hs1.len() ==> (#[trigger] hs1[i]).heister_color
                        == hs0[i].heister_color);
                assert forall|c: HeisterColor|
                    crate::game_state::has_color(hs0, c) implies crate::game_state::has_color(
                    hs1,
                    c,
                ) by {
                    let w = choose|i: int|
                        0 <= i < hs0.len() && (#[trigger] hs0[i]).heister_color == c;
                    assert(hs1[w].heister_color == c);
                }
                assert(pos_moderate(updated.map_position));
            }
            if self.game_state.game_status == GameStatus::PreFirstMove {
                self.game_state.start_timer_at(now);
                self.game_state.game_status = GameStatus::Ongoing;
            }
            if dest_square.square_type == SquareType::TimerFlip {
                proof {
                    lemma_grid_pos_has_tile(self.game_state.tiles@, dest_pos);
                }
                match self.game_state.get_index_and_tile(&dest_pos) {
                    Some((idx, tile)) => {
                        let mut flipped_tile = tile;
                        proof {
                            assert(self.game_state.tiles@ == old(self).game_state.tiles@);
                            assert(tile_wf(old(self).game_state.tiles@[idx as int]));
                            assert(flipped_tile.squares@ == self.game_state.tiles@[
                                idx as int
                            ].squares@);
                            assert(flipped_tile.squares@.len() == 16);
                        }
                        flipped_tile.flip_timer();
                        proof {
                            assert(flipped_tile.squares@.len() == 16);
                        }
                        self.game_state.tiles.set(idx, flipped_tile);
                        proof {
                            assert forall|j: int|
                                0 <= j < self.game_state.tiles@.len() implies tile_wf(
                                #[trigger] self.game_state.tiles@[j],
                            ) by {
                                assert(tile_wf(old(self).game_state.tiles@[j]));
                                if j == idx as int {
                                    assert(self.game_state.tiles@[j].squares@.len() == 16);
                                    assert(self.game_state.tiles@[j].position == old(self).game_state.tiles@[j].position);
                                } else {
                                    assert(self.game_state.tiles@[j] == old(self).game_state.tiles@[j]);
                                }
                            }
                        }
                    }
                    None => {
                        proof {
                            assert(false);
                        }
                    }
                }
                if now > entry_timer {
                    self.game_state.timer_runs_out = now;
                } else {
                    let current = self.game_state.timer_runs_out;
                    let time_left: u64 = if current >= now {
                        current - now
                    } else {
                        0
                    };
                    let new_time_left: u64 = if TIMER_DURATION_SECS >= time_left {
                        TIMER_DURATION_SECS - time_left
                    } else {
                        0
                    };
                    self.game_state.timer_runs_out = if now <= u64::MAX - new_time_left {
                        now + new_time_left
                    } else {
                        u64::MAX
                    };
                }
            }
        }
        validity
    }

    /// Applies one Move request against the wall clock.
    fn process_move(&mut self, m: Move, player_name: &PlayerName) -> (r: MoveValidity)
        requires
            state_wf(old(self).game_state),
            exists|i: int|
                0 <= i < old(self).game_state.players@.len() && (
                #[trigger] old(self).game_state.players@[i]).name@ == player_name.0@,
        ensures
            r is Valid <==> move_verdict(
                old(self).game_state,
                old(self).game_options,
                m,
                player_name.0@,
            ) is None,
            r is Invalid ==> invalid_msg(r) == move_verdict(
                old(self).game_state,
                old(self).game_options,
                m,
                player_name.0@,
            ).unwrap(),
            r is Invalid ==> *final(self) == *old(self),
            r is Valid ==> exists|t: u64|
                move_applied(old(self).game_state, final(self).game_state, m, t),
            *final(self) == (Game { game_state: final(self).game_state, ..*old(self) }),
            state_wf(final(self).game_state),
    {
        let now = get_current_time_secs();
        self.process_move_at(m, player_name, now)
    }
}


/// One quarter clockwise turn of a 16-square row-major block.
pub open spec fn rot16(sqs: Seq<Square>) -> Seq<Square> {
    Seq::new(16, |j: int| crate::types::spec_rotate_clockwise(sqs[4 * (3 - j % 4) + j / 4]))
}

/// `n` quarter clockwise turns.
pub open spec fn rot16_n(sqs: Seq<Square>, n: int) -> Seq<Square>
    decreases n,
{
    if n <= 0 {
        sqs
    } else {
        rot16(rot16_n(sqs, n - 1))
    }
}

/// Quarter turns a tile entered from each direction receives.
pub open spec fn rotations_for(dir: MoveDirection) -> int {
    match dir {
        MoveDirection::North => 0,
        MoveDirection::East => 1,
        MoveDirection::South => 2,
        MoveDirection::West => 3,
    }
}

/// The index of the first candidate pair whose entrance is `entrance`, or
/// the pair count.
pub open spec fn find_pair(
    pairs: Seq<(MapPosition, MapPosition)>,
    entrance: MapPosition,
    n: int,
) -> int
    decreases pairs.len() - n,
{
    if n < 0 || n >= pairs.len() {
        pairs.len() as int
    } else if pairs[n].1 == entrance {
        n
    } else {
        find_pair(pairs, entrance, n + 1)
    }
}

pub proof fn lemma_find_pair(pairs: Seq<(MapPosition, MapPosition)>, entrance: MapPosition, n: int)
    requires
        0 <= n <= pairs.len(),
    ensures
        n <= find_pair(pairs, entrance, n) <= pairs.len(),
        find_pair(pairs, entrance, n) < pairs.len() ==> pairs[find_pair(pairs, entrance, n)].1
            == entrance,
        forall|i: int| n <= i < find_pair(pairs, entrance, n) ==> (#[trigger] pairs[i]).1 != entrance,
    decreases pairs.len() - n,
{
    if n < pairs.len() && pairs[n].1 != entrance {
        lemma_find_pair(pairs, entrance, n + 1);
    }
}

/// The verdict of one PlaceTile request: None when a tile will be placed.
pub open spec fn placement_verdict(
    g: GameState,
    deck_len: int,
    pt: PlaceTile,
    pname: Seq<char>,
) -> Option<Seq<char>> {
    if !spec_player_has_ability(g.players@, pname, Ability::RevealTiles) {
        Some("You cannot reveal tiles"@)
    } else {
        let grid = grid_of(g.tiles@);
        let pairs = entrance_pairs_prefix(grid, g.heisters@, g.heisters@.len() as int);
        let k = find_pair(pairs, pt.tile_entrance, 0);
        if k == pairs.len() {
            Some("When placing a tile, the heister must be at a tile-reveal door"@)
        } else {
            let hp = pairs[k].0;
            let sq = grid[hp];
            let dir = spec_door_direction(sq).unwrap();
            let ctp = crate::types::spec_current_tile_position(hp, dir);
            let ti = find_tile_at(g.tiles@, ctp, 0);
            if ti == g.tiles@.len() {
                Some("Couldn't open door for newly placed tile: "@ + text::msg_no_tile_found(hp))
            } else if find_square(g.tiles@[ti].squares@, sq, 0) == g.tiles@[ti].squares@.len() {
                Some(
                    "Couldn't open door for newly placed tile: When opening a door, we expect the square to have a door to open"@,
                )
            } else if deck_len == 0 {
                Some("No tiles left in deck to draw"@)
            } else if !pos_interior(
                crate::types::spec_new_tile_position(pt.tile_entrance, dir),
            ) {
                Some("Tile position is out of range"@)
            } else {
                None
            }
        }
    }
}

impl Game {
    /// Valid while the game still accepts moves: before the first move or
    /// ongoing; terminal and staging states reject.
    fn game_is_ongoing(&self) -> (r: MoveValidity)
        ensures
            r is Valid <==> (self.game_state.game_status == GameStatus::Ongoing
                || self.game_state.game_status == GameStatus::PreFirstMove),
            r is Invalid ==> invalid_msg(r) == text::msg_game_not_accepting(
                self.game_handle.0@,
                self.game_state.game_status,
            ),
    {
        match self.game_state.game_status {
            GameStatus::Ongoing | GameStatus::PreFirstMove => MoveValidity::Valid,
            _ => {
                let msg = text::game_not_accepting_message(
                    &self.game_handle.0,
                    self.game_state.game_status,
                );
                MoveValidity::Invalid(msg)
            }
        }
    }

    /// Draws the top tile of the deck and keeps the remaining-count in
    /// step; None once the deck is empty.
    fn draw_tile(&mut self) -> (r: Option<Tile>)
        requires
            old(self).tile_deck@.len() <= u32::MAX,
        ensures
            *final(self) == (Game {
                tile_deck: final(self).tile_deck,
                game_state: final(self).game_state,
                ..*old(self)
            }),
            final(self).game_state == (GameState {
                remaining_tiles: final(self).tile_deck@.len() as u32,
                ..old(self).game_state
            }),
            if old(self).tile_deck@.len() == 0 {
                r is None && final(self).tile_deck@ == old(self).tile_deck@
            } else {
                r == Some(old(self).tile_deck@.last()) && final(self).tile_deck@ == old(self).tile_deck@.drop_last()
            },
    {
        let tile = self.tile_deck.pop();
        self.game_state.remaining_tiles = self.tile_deck.len() as u32;
        tile
    }

    /// Draws, rotates and appends the next tile so that its entry square
    /// lands on `position`, then reconciles its doors with its neighbors.
    #[verifier::rlimit(100)]
    #[verifier::spinoff_prover]
    fn place_tile(&mut self, position: &MapPosition, direction: &MoveDirection) -> (r:
        MoveValidity)
        requires
            old(self).tile_deck@.len() > 0,
            old(self).tile_deck@.len() <= u32::MAX,
            tiles_wf(old(self).game_state.tiles@),
            tiles_wf(old(self).tile_deck@),
            pos_workable(*position),
            pos_interior(crate::types::spec_new_tile_position(*position, *direction)),
        ensures
            r is Valid,
            final(self).tile_deck@ == old(self).tile_deck@.drop_last(),
            final(self).game_state.remaining_tiles == final(self).tile_deck@.len(),
            final(self).game_state.tiles@.len() == old(self).game_state.tiles@.len() + 1,
            forall|j: int|
                0 <= j < old(self).game_state.tiles@.len() ==> (
                #[trigger] final(self).game_state.tiles@[j]).position == old(self).game_state.tiles@[j].position && final(self).game_state.tiles@[j].name@ == old(self).game_state.tiles@[j].name@ && final(self).game_state.tiles@[j].num_rotations
                    == old(self).game_state.tiles@[j].num_rotations,
            final(self).game_state.tiles@.last().position
                == crate::types::spec_new_tile_position(*position, *direction),
            final(self).game_state.tiles@.last().num_rotations == rotations_for(*direction),
            final(self).game_state.tiles@.last().name@ == old(self).tile_deck@.last().name@,
            tiles_wf(final(self).game_state.tiles@),
            final(self).game_state == (GameState {
                tiles: final(self).game_state.tiles,
                remaining_tiles: final(self).game_state.remaining_tiles,
                ..old(self).game_state
            }),
            *final(self) == (Game {
                tile_deck: final(self).tile_deck,
                game_state: final(self).game_state,
                revealed_teleporters: final(self).revealed_teleporters,
                ..*old(self)
            }),
            exists|nt: Tile|
                {
                    &&& #[trigger] tile_wf(nt)
                    &&& nt.squares@ == rot16_n(
                        old(self).tile_deck@.last().squares@,
                        rotations_for(*direction),
                    )
                    &&& nt.position == crate::types::spec_new_tile_position(*position, *direction)
                    &&& nt.num_rotations == rotations_for(*direction)
                    &&& nt.name@ == old(self).tile_deck@.last().name@
                    &&& tele_view(final(self).revealed_teleporters@) == add_teleporters(
                        tele_view(old(self).revealed_teleporters@),
                        crate::types::spec_teleporters_prefix(nt, 16),
                        crate::types::spec_teleporters_prefix(nt, 16).len() as int,
                    )
                    &&& crate::game_state::squares_view(final(self).game_state.tiles@)
                        == crate::game_state::reconciled(
                        old(self).game_state.tiles@.push(nt),
                        grid_of(old(self).game_state.tiles@.push(nt)),
                        old(self).game_state.tiles@.len() as int,
                    )
                    &&& crate::game_state::tiles_skeleton_eqv(
                        final(self).game_state.tiles@,
                        old(self).game_state.tiles@.push(nt),
                    )
                },
    {
        let t = match self.draw_tile() {
            Some(t) => t,
            None => {
                proof {
                    assert(false);
                }
                return MoveValidity::Valid;
            }
        };
        let new_pos = position.new_tile_position(direction);
        let num_rotations: u32 = match direction {
            MoveDirection::North => 0,
            MoveDirection::East => 1,
            MoveDirection::South => 2,
            MoveDirection::West => 3,
        };
        let mut m: Vec<Vec<Square>> = t.to_matrix();
        proof {
            assert(forall|r: int, c: int|
                0 <= r < 4 && 0 <= c < 4 ==> #[trigger] crate::types::mat(m, r, c) == rot16_n(
                    t.squares@,
                    0,
                )[4 * r + c]);
        }
        let mut k: u32 = 0;
        while k < num_rotations
            invariant
                t.squares@.len() == 16,
                num_rotations <= 3,
                k <= num_rotations,
                crate::types::is_matrix4(m),
                forall|r: int, c: int|
                    0 <= r < 4 && 0 <= c < 4 ==> #[trigger] crate::types::mat(m, r, c) == rot16_n(
                        t.squares@,
                        k as int,
                    )[4 * r + c],
            decreases num_rotations - k,
        {
            let prev = m;
            m = Tile::rotate_matrix_clockwise(&prev);
            proof {
                assert forall|r: int, c: int|
                    0 <= r < 4 && 0 <= c < 4 implies #[trigger] crate::types::mat(m, r, c)
                    == rot16_n(t.squares@, k as int + 1)[4 * r + c] by {
                    assert(crate::types::mat(m, r, c) == crate::types::spec_rotate_clockwise(
                        crate::types::mat(prev, 3 - c, r),
                    ));
                    assert(crate::types::mat(prev, 3 - c, r) == rot16_n(t.squares@, k as int)[4 * (
                    3 - c) + r]);
                    assert(rot16_n(t.squares@, k as int + 1) == rot16(
                        rot16_n(t.squares@, k as int),
                    ));
                    assert((4 * r + c) % 4 == c && (4 * r + c) / 4 == r);
                }
            }
            k = k + 1;
        }
        let rotated_tile = Tile::from_matrix(m, t.name.clone(), new_pos, num_rotations);
        proof {
            assert(rotated_tile.squares@ =~= rot16_n(t.squares@, num_rotations as int)) by {
                assert forall|i: int| 0 <= i < 16 implies rotated_tile.squares@[i] == rot16_n(
                    t.squares@,
                    num_rotations as int,
                )[i] by {
                    assert(rotated_tile.squares@[i] == crate::types::mat(m, i / 4, i % 4));
                    assert(4 * (i / 4) + i % 4 == i);
                }
            }
        }
        let ghost nt = rotated_tile;
        Self::update_revealed_teleporters(&mut self.revealed_teleporters, &rotated_tile);
        let new_tile_idx = self.game_state.tiles.len();
        self.game_state.tiles.push(rotated_tile);
        proof {
            assert(self.game_state.tiles@ =~= old(self).game_state.tiles@.push(nt));
            assert forall|j: int| 0 <= j < self.game_state.tiles@.len() implies tile_wf(
                #[trigger] self.game_state.tiles@[j],
            ) by {
                if j < old(self).game_state.tiles@.len() {
                    assert(tile_wf(old(self).game_state.tiles@[j]));
                } else {
                    assert(self.game_state.tiles@[j] == nt);
                }
            }
        }
        self.game_state.update_tile_doors(new_tile_idx);
        MoveValidity::Valid
    }

    /// Recomputes the possible-teleport cache: for each unescaped heister
    /// allowed to depart from its square, every revealed pad of its color.
    fn update_possible_teleports(&mut self, grid: &Grid)
        ensures
            *final(self) == (Game { game_state: final(self).game_state, ..*old(self) }),
            final(self).game_state == (GameState {
                possible_teleports: final(self).game_state.possible_teleports,
                ..old(self).game_state
            }),
            tele_view(final(self).game_state.possible_teleports@) == teleport_pairs_prefix(
                grid@,
                old(self).game_options.teleport_only_from_portal,
                tele_view(old(self).revealed_teleporters@),
                old(self).game_state.heisters@,
                old(self).game_state.heisters@.len() as int,
            ),
    {
        let ghost rt = tele_view(self.revealed_teleporters@);
        let ghost hs = self.game_state.heisters@;
        let portal_only = self.game_options.teleport_only_from_portal;
        let mut m: Vec<(HeisterColor, Vec<MapPosition>)> = Vec::new();
        let mut i: usize = 0;
        while i < self.game_state.heisters.len()
            invariant
                *self == *old(self),
                rt == tele_view(self.revealed_teleporters@),
                hs == self.game_state.heisters@,
                portal_only == self.game_options.teleport_only_from_portal,
                i <= hs.len(),
                tele_view(m@) == teleport_pairs_prefix(grid@, portal_only, rt, hs, i as int),
            decreases hs.len() - i,
        {
            let heister = &self.game_state.heisters[i];
            let ghost m_before = tele_view(m@);
            if !heister.has_escaped {
                match grid.get(&heister.map_position) {
                    Some(square) => {
                        if !portal_only || square.is_teleport() {
                            let color = heister.heister_color;
                            let mut j: usize = 0;
                            let mut found: bool = false;
                            while j < self.revealed_teleporters.len() && !found
                                invariant
                                    rt == tele_view(self.revealed_teleporters@),
                                    j <= rt.len(),
                                    found ==> j < rt.len() && rt[j as int].0 == color,
                                    forall|q: int| 0 <= q < j ==> (#[trigger] rt[q]).0 != color,
                                decreases rt.len() - j + if found {
                                    0int
                                } else {
                                    1int
                                },
                            {
                                if self.revealed_teleporters[j].0 == color {
                                    found = true;
                                } else {
                                    j = j + 1;
                                }
                            }
                            proof {
                                lemma_find_color_entry(rt, color, 0);
                                if found {
                                    assert(find_color_entry(rt, color, 0) == j as int);
                                } else {
                                    assert(find_color_entry(rt, color, 0) == rt.len());
                                }
                            }
                            if found {
                                let list = self.revealed_teleporters[j].1.clone();
                                proof {
                                    assert(list@ =~= self.revealed_teleporters@[j as int].1@) by {
                                        assert forall|q: int| 0 <= q < list@.len() implies list@[q]
                                            == self.revealed_teleporters@[j as int].1@[q] by {
                                            assert(cloned(
                                                self.revealed_teleporters@[j as int].1@[q],
                                                list@[q],
                                            ));
                                        }
                                    }
                                }
                                m.push((color, list));
                                proof {
                                    assert(tele_view(m@) =~= m_before.push(
                                        (color, rt[find_color_entry(rt, color, 0)].1),
                                    ));
                                }
                            }
                        }
                    }
                    None => {}
                }
            }
            i = i + 1;
        }
        self.game_state.possible_teleports = m;
    }

    /// Evaluates the terminal conditions before a message is dispatched.
    fn pre_update_auxilliary_state(&mut self)
        ensures
            *final(self) == (Game { game_state: final(self).game_state, ..*old(self) }),
            final(self).game_state == (GameState {
                game_status: final(self).game_state.game_status,
                ..old(self).game_state
            }),
            old(self).game_state.game_status == GameStatus::Ongoing && old(self).game_state.all_items_taken && crate::game_state::all_escaped(
                old(self).game_state.heisters@,
            ) ==> final(self).game_state.game_status == GameStatus::Victory,
            old(self).game_state.game_status == GameStatus::Ongoing && !(old(self).game_state.all_items_taken && crate::game_state::all_escaped(
                old(self).game_state.heisters@,
            )) ==> (final(self).game_state.game_status == GameStatus::Ongoing || final(self).game_state.game_status == GameStatus::Defeat),
            old(self).game_state.game_status != GameStatus::Ongoing ==> final(self).game_state.game_status == old(self).game_state.game_status,
    {
        self.game_state.update_game_status();
    }

    /// Recomputes every derived cache against the committed state.
    fn update_auxiliary_state(&mut self)
        requires
            tiles_wf(old(self).game_state.tiles@),
            forall|i: int|
                0 <= i < old(self).game_state.heisters@.len() ==> pos_workable(
                    (#[trigger] old(self).game_state.heisters@[i]).map_position,
                ),
        ensures
            *final(self) == (Game { game_state: final(self).game_state, ..*old(self) }),
            final(self).game_state == (GameState {
                heisters: final(self).game_state.heisters,
                all_items_taken: final(self).game_state.all_items_taken,
                possible_placements: final(self).game_state.possible_placements,
                possible_escalators: final(self).game_state.possible_escalators,
                possible_teleports: final(self).game_state.possible_teleports,
                ..old(self).game_state
            }),
            final(self).game_state.heisters@.len() == old(self).game_state.heisters@.len(),
            forall|i: int|
                0 <= i < old(self).game_state.heisters@.len() ==> (
                #[trigger] final(self).game_state.heisters@[i]) == (Heister {
                    has_taken_item: crate::game_state::item_flag_after(
                        grid_of(old(self).game_state.tiles@),
                        old(self).game_state.all_items_taken,
                        old(self).game_state.heisters@[i],
                    ),
                    ..old(self).game_state.heisters@[i]
                }),
            final(self).game_state.all_items_taken == (old(self).game_state.all_items_taken
                || forall|i: int|
                0 <= i < final(self).game_state.heisters@.len() ==> (
                #[trigger] final(self).game_state.heisters@[i]).has_taken_item),
            final(self).game_state.possible_placements@ == entrance_pairs_prefix(
                grid_of(old(self).game_state.tiles@),
                final(self).game_state.heisters@,
                final(self).game_state.heisters@.len() as int,
            ).map_values(|pr: (MapPosition, MapPosition)| pr.1),
            final(self).game_state.possible_escalators@
                == crate::game_state::escalator_pairs_prefix(
                grid_of(old(self).game_state.tiles@),
                old(self).game_state.tiles@,
                final(self).game_state.heisters@,
                final(self).game_state.heisters@.len() as int,
            ),
            tele_view(final(self).game_state.possible_teleports@) == teleport_pairs_prefix(
                grid_of(old(self).game_state.tiles@),
                old(self).game_options.teleport_only_from_portal,
                tele_view(old(self).revealed_teleporters@),
                final(self).game_state.heisters@,
                final(self).game_state.heisters@.len() as int,
            ),
            state_wf(old(self).game_state) ==> state_wf(final(self).game_state),
    {
        let grid = self.game_state.get_absolute_grid();
        self.game_state.update_items_taken(&grid);
        proof {
            assert forall|i: int|
                0 <= i < self.game_state.heisters@.len() implies pos_workable(
                (#[trigger] self.game_state.heisters@[i]).map_position,
            ) by {
                assert(self.game_state.heisters@[i].map_position == old(self).game_state.heisters@[i].map_position);
            }
        }
        self.game_state.update_possible_placements(&grid);
        self.game_state.update_possible_escalators(&grid);
        self.update_possible_teleports(&grid);
        proof {
            if state_wf(old(self).game_state) {
                let hs0 = old(self).game_state.heisters@;
                let hs1 = self.game_state.heisters@;
                assert(forall|i: int|
                    0 <= i < hs1.len() ==> (#[trigger] hs1[i]).heister_color
                        == hs0[i].heister_color);
                assert forall|c: HeisterColor|
                    crate::game_state::has_color(hs0, c) implies crate::game_state::has_color(
                    hs1,
                    c,
                ) by {
                    let w = choose|i: int|
                        0 <= i < hs0.len() && (#[trigger] hs0[i]).heister_color == c;
                    assert(hs1[w].heister_color == c);
                }
            }
        }
    }

    /// Dispatches one tagged inbound message: start, move, place-tile or
    /// chat; server-only tags and bodyless messages are rejected as
    /// structurally invalid, and a start request is granted only while
    /// staging or before the first move. Terminal states accept no moves;
    /// a message rejected for a non-accepting status returns early and
    /// deliberately leaves the caches as they were, while every dispatched
    /// message leaves them recomputed from committed state.
    #[verifier::rlimit(100)]
    #[verifier::spinoff_prover]
    pub fn handle_message(&mut self, message: MainMessage, player_name: &PlayerName) -> (r:
        MoveValidity)
        requires
            state_wf(old(self).game_state),
            old(self).game_state.players@.len() <= 8,
            old(self).tile_deck@.len() <= u32::MAX,
            tiles_wf(old(self).tile_deck@),
            (message.body matches Some(Body::Move(_)) || message.body matches Some(
                Body::PlaceTile(_),
            )) ==> exists|i: int|
                0 <= i < old(self).game_state.players@.len() && (
                #[trigger] old(self).game_state.players@[i]).name@ == player_name.0@,
        ensures
            state_wf(final(self).game_state),
            tiles_wf(final(self).tile_deck@),
            final(self).tile_deck@.len() <= old(self).tile_deck@.len(),
            final(self).game_handle.0@ == old(self).game_handle.0@,
            final(self).game_options == old(self).game_options,
            final(self).game_state.players@.len() == old(self).game_state.players@.len(),
            message.body matches Some(Body::Chat(_)) ==> r is Valid,
            message.body matches Some(Body::GameState(_)) ==> r is Invalid && invalid_msg(r)
                == "GameState Message is invalid from players"@,
            message.body matches Some(Body::InvalidRequest(_)) ==> r is Invalid && invalid_msg(r)
                == "InvalidRequest Message is invalid from players"@,
            message.body is None ==> r is Invalid && invalid_msg(r)
                == "Message has no body"@,
            (message.body matches Some(Body::StartGame(_)) && (old(self).game_state.game_status
                == GameStatus::Staging || old(self).game_state.game_status
                == GameStatus::PreFirstMove)) ==> r is Valid && final(self).game_state.game_status == GameStatus::PreFirstMove,
            (message.body matches Some(Body::StartGame(_)) && !(old(self).game_state.game_status
                == GameStatus::Staging || old(self).game_state.game_status
                == GameStatus::PreFirstMove)) ==> r is Invalid && invalid_msg(r)
                == text::msg_game_not_accepting(
                old(self).game_handle.0@,
                final(self).game_state.game_status,
            ) && final(self).game_state == (GameState {
                game_status: final(self).game_state.game_status,
                ..old(self).game_state
            }) && *final(self) == (Game { game_state: final(self).game_state, ..*old(self) }),
            (message.body matches Some(Body::StartGame(_)) && (old(self).game_state.game_status
                == GameStatus::Staging || old(self).game_state.game_status
                == GameStatus::PreFirstMove) && old(self).game_state.players@.len() >= 1)
                ==> players_abilities_view(final(self).game_state.players@).to_multiset()
                == ability_table(old(self).game_state.players@.len() as int).to_multiset(),
            (message.body matches Some(Body::Chat(_)) || message.body matches Some(
                Body::GameState(_),
            ) || message.body matches Some(Body::InvalidRequest(_)) || message.body matches Some(
                Body::StartGame(_),
            ) || message.body is None) ==> {
                &&& final(self).game_state.tiles@ == old(self).game_state.tiles@
                &&& final(self).tile_deck@ == old(self).tile_deck@
                &&& final(self).game_state.heisters@.len() == old(self).game_state.heisters@.len()
                &&& forall|i: int|
                    0 <= i < old(self).game_state.heisters@.len() ==> (
                    #[trigger] final(self).game_state.heisters@[i]).map_position == old(self).game_state.heisters@[i].map_position && final(self).game_state.heisters@[i].heister_color == old(self).game_state.heisters@[i].heister_color
            },
            message.body matches Some(Body::Move(mv)) ==> {
                &&& final(self).game_state.heisters@.len() == old(self).game_state.heisters@.len()
                &&& forall|i: int|
                    0 <= i < old(self).game_state.heisters@.len() ==> (
                    #[trigger] final(self).game_state.heisters@[i]).heister_color == old(self).game_state.heisters@[i].heister_color
                &&& (r is Invalid ==> final(self).game_state.tiles@ == old(self).game_state.tiles@ && final(self).tile_deck@ == old(self).tile_deck@ && forall|
                    i: int,
                |
                    0 <= i < old(self).game_state.heisters@.len() ==> (
                    #[trigger] final(self).game_state.heisters@[i]).map_position == old(self).game_state.heisters@[i].map_position)
                &&& (r is Valid ==> forall|i: int|
                    0 <= i < old(self).game_state.heisters@.len() && (
                    #[trigger] old(self).game_state.heisters@[i]).heister_color
                        != mv.heister_color ==> final(self).game_state.heisters@[i].map_position
                        == old(self).game_state.heisters@[i].map_position)
                &&& ((old(self).game_state.game_status == GameStatus::Victory || old(self).game_state.game_status == GameStatus::Defeat) ==> r is Invalid)
                &&& ((mv.position != old(self).game_state.heisters@[heister_index(
                    old(self).game_state.heisters@,
                    mv.heister_color,
                )].map_position && exists|i: int|
                    0 <= i < old(self).game_state.heisters@.len() && (
                    #[trigger] old(self).game_state.heisters@[i]).map_position == mv.position
                        && old(self).game_state.heisters@[i].heister_color != mv.heister_color)
                    ==> r is Invalid)
            },
            message.body matches Some(Body::PlaceTile(_)) ==> {
                &&& forall|i: int|
                    0 <= i < old(self).game_state.heisters@.len() ==> (
                    #[trigger] final(self).game_state.heisters@[i]).map_position == old(self).game_state.heisters@[i].map_position
                &&& (r is Invalid ==> final(self).game_state.tiles@ == old(self).game_state.tiles@ && final(self).tile_deck@ == old(self).tile_deck@)
                &&& (r is Valid ==> final(self).game_state.tiles@.len() == old(self).game_state.tiles@.len() + 1 && final(self).tile_deck@ == old(self).tile_deck@.drop_last())
                &&& ((old(self).game_state.game_status == GameStatus::Victory || old(self).game_state.game_status == GameStatus::Defeat) ==> r is Invalid)
            },
            ((message.body matches Some(Body::Move(_)) || message.body matches Some(
                Body::PlaceTile(_),
            )) && !(old(self).game_state.game_status == GameStatus::Ongoing || old(self).game_state.game_status == GameStatus::PreFirstMove)) ==> r is Invalid
                && invalid_msg(r) == text::msg_game_not_accepting(
                old(self).game_handle.0@,
                old(self).game_state.game_status,
            ) && *final(self) == *old(self),
            ((message.body matches Some(Body::Move(_)) || message.body matches Some(
                Body::PlaceTile(_),
            )) && !(final(self).game_state.game_status == GameStatus::Ongoing || final(self).game_state.game_status == GameStatus::PreFirstMove)) ==> final(self).game_state
                == (GameState {
                game_status: final(self).game_state.game_status,
                ..old(self).game_state
            }) && *final(self) == (Game { game_state: final(self).game_state, ..*old(self) }),
            ((message.body matches Some(Body::Move(_)) || message.body matches Some(
                Body::PlaceTile(_),
            )) && r is Invalid) ==> final(self).game_state.game_started == old(self).game_state.game_started && final(self).game_state.timer_runs_out == old(self).game_state.timer_runs_out,
            message.body matches Some(Body::Move(mv)) ==> (old(self).game_state.game_status
                == GameStatus::PreFirstMove || (old(self).game_state.game_status
                == GameStatus::Ongoing && final(self).game_state.game_status
                == GameStatus::Ongoing)) ==> {
                &&& (r is Valid <==> move_verdict(
                    old(self).game_state,
                    old(self).game_options,
                    mv,
                    player_name.0@,
                ) is None)
                &&& (r is Invalid ==> invalid_msg(r) == move_verdict(
                    old(self).game_state,
                    old(self).game_options,
                    mv,
                    player_name.0@,
                ).unwrap())
            },
            message.body matches Some(Body::PlaceTile(pt)) ==> (old(self).game_state.game_status
                == GameStatus::PreFirstMove || (old(self).game_state.game_status
                == GameStatus::Ongoing && final(self).game_state.game_status
                == GameStatus::Ongoing)) ==> {
                &&& (r is Valid <==> placement_verdict(
                    old(self).game_state,
                    old(self).tile_deck@.len() as int,
                    pt,
                    player_name.0@,
                ) is None)
                &&& (r is Invalid ==> invalid_msg(r) == placement_verdict(
                    old(self).game_state,
                    old(self).tile_deck@.len() as int,
                    pt,
                    player_name.0@,
                ).unwrap())
            },
            message.body matches Some(Body::Move(mv)) ==> r is Valid ==> ({
                let hi = heister_index(old(self).game_state.heisters@, mv.heister_color);
                let grid = grid_of(old(self).game_state.tiles@);
                let dsq = if grid.contains_key(mv.position) {
                    grid[mv.position]
                } else {
                    crate::types::spec_default_square()
                };
                let escapes = spec_is_escape(dsq) && spec_square_color(dsq) == Some(
                    mv.heister_color,
                ) && old(self).game_state.all_items_taken;
                &&& final(self).game_state.heisters@[hi].map_position == (if escapes {
                    crate::types::spec_escaped_position()
                } else {
                    mv.position
                })
                &&& (escapes ==> final(self).game_state.heisters@[hi].has_escaped)
            }),
            message.body matches Some(Body::PlaceTile(pt)) ==> r is Valid ==> ({
                let grid = grid_of(old(self).game_state.tiles@);
                let pairs = entrance_pairs_prefix(
                    grid,
                    old(self).game_state.heisters@,
                    old(self).game_state.heisters@.len() as int,
                );
                let k = find_pair(pairs, pt.tile_entrance, 0);
                let hp = pairs[k].0;
                let hsq = grid[hp];
                let dir = spec_door_direction(hsq).unwrap();
                let ti = find_tile_at(
                    old(self).game_state.tiles@,
                    crate::types::spec_current_tile_position(hp, dir),
                    0,
                );
                let si = find_square(old(self).game_state.tiles@[ti].squares@, hsq, 0);
                &&& final(self).game_state.tiles@.last().position
                    == crate::types::spec_new_tile_position(pt.tile_entrance, dir)
                &&& final(self).game_state.tiles@.last().num_rotations == rotations_for(dir)
                &&& final(self).game_state.tiles@.last().name@ == old(self).tile_deck@.last().name@
                &&& exists|mid: Seq<Tile>, nt: Tile|
                    #![trigger mid.push(nt)]
                    {
                        &&& tile_wf(nt)
                        &&& mid.len() == old(self).game_state.tiles@.len()
                        &&& forall|j: int|
                            0 <= j < mid.len() && j != ti ==> (#[trigger] mid[j]) == old(self).game_state.tiles@[j]
                        &&& tile_eqv(mid[ti], (Tile {
                            squares: mid[ti].squares,
                            ..old(self).game_state.tiles@[ti]
                        }))
                        &&& mid[ti].squares@ == old(self).game_state.tiles@[ti].squares@.update(
                            si,
                            crate::types::with_wall(
                                old(self).game_state.tiles@[ti].squares@[si],
                                dir,
                                crate::types::WallType::Clear,
                            ),
                        )
                        &&& nt.squares@ == rot16_n(
                            old(self).tile_deck@.last().squares@,
                            rotations_for(dir),
                        )
                        &&& nt.position == crate::types::spec_new_tile_position(
                            pt.tile_entrance,
                            dir,
                        )
                        &&& nt.num_rotations == rotations_for(dir)
                        &&& nt.name@ == old(self).tile_deck@.last().name@
                        &&& tele_view(final(self).revealed_teleporters@) == add_teleporters(
                            tele_view(old(self).revealed_teleporters@),
                            crate::types::spec_teleporters_prefix(nt, 16),
                            crate::types::spec_teleporters_prefix(nt, 16).len() as int,
                        )
                        &&& crate::game_state::squares_view(final(self).game_state.tiles@)
                            == crate::game_state::reconciled(
                            mid.push(nt),
                            grid_of(mid.push(nt)),
                            mid.len() as int,
                        )
                        &&& crate::game_state::tiles_skeleton_eqv(
                            final(self).game_state.tiles@,
                            mid.push(nt),
                        )
                    }
            }),
            (message.body matches Some(Body::Chat(_)) || message.body matches Some(
                Body::GameState(_),
            ) || message.body matches Some(Body::InvalidRequest(_)) || message.body is None || (
            message.body matches Some(Body::StartGame(_)) && (old(self).game_state.game_status
                == GameStatus::Staging || old(self).game_state.game_status
                == GameStatus::PreFirstMove)) || ((message.body matches Some(Body::Move(_))
                || message.body matches Some(Body::PlaceTile(_))) && (final(self).game_state.game_status == GameStatus::Ongoing || final(self).game_state.game_status
                == GameStatus::PreFirstMove))) ==> {
                &&& caches_consistent(*final(self))
                &&& final(self).game_state.all_items_taken == (old(self).game_state.all_items_taken || forall|i: int|
                    0 <= i < final(self).game_state.heisters@.len() ==> (
                    #[trigger] final(self).game_state.heisters@[i]).has_taken_item)
                &&& forall|i: int|
                    #![trigger final(self).game_state.heisters@[i]]
                    0 <= i < final(self).game_state.heisters@.len() && grid_of(
                        final(self).game_state.tiles@,
                    ).contains_key(final(self).game_state.heisters@[i].map_position)
                        ==> final(self).game_state.heisters@[i].has_taken_item == (old(self).game_state.all_items_taken || (crate::types::spec_is_item(
                        grid_of(final(self).game_state.tiles@)[final(self).game_state.heisters@[i].map_position],
                    ) && spec_square_color(
                        grid_of(final(self).game_state.tiles@)[final(self).game_state.heisters@[i].map_position],
                    ) == Some(final(self).game_state.heisters@[i].heister_color)))
            },
    {
        self.pre_update_auxilliary_state();
        let validity = match message.body {
            None => MoveValidity::Invalid(String::from_str("Message has no body")),
            Some(body) => match body {
                Body::StartGame(_) => {
                    match self.game_state.game_status {
                        GameStatus::Staging | GameStatus::PreFirstMove => self.start_game(),
                        _ => {
                            proof {
                                assert(self.game_state == (GameState {
                                    game_status: self.game_state.game_status,
                                    ..old(self).game_state
                                }));
                            }
                            return MoveValidity::Invalid(
                                text::game_not_accepting_message(
                                    &self.game_handle.0,
                                    self.game_state.game_status,
                                ),
                            );
                        }
                    }
                }
                Body::Move(mv) => {
                    let valid_game_state = self.game_is_ongoing();
                    match valid_game_state {
                        MoveValidity::Invalid(_) => {
                            proof {
                                if !(old(self).game_state.game_status == GameStatus::Ongoing
                                    || old(self).game_state.game_status
                                    == GameStatus::PreFirstMove) {
                                    assert(self.game_state == old(self).game_state);
                                    assert(*self == *old(self));
                                }
                                assert(self.game_state == (GameState {
                                    game_status: self.game_state.game_status,
                                    ..old(self).game_state
                                }));
                            }
                            return valid_game_state;
                        }
                        MoveValidity::Valid => {}
                    }
                let ghost pre = *self;
                proof {
                    if old(self).game_state.game_status == GameStatus::PreFirstMove || old(self).game_state.game_status == GameStatus::Ongoing {
                        assert(pre.game_state == old(self).game_state);
                        assert(pre == *old(self));
                    }
                }
                let v = self.process_move(mv, player_name);
                proof {
                    if v is Valid {
                        let t = choose|t: u64|
                            move_applied(pre.game_state, self.game_state, mv, t);
                        assert(move_applied(pre.game_state, self.game_state, mv, t));
                    }
                    if v is Valid {
                        lemma_heister_index_wf(pre.game_state.heisters@, mv.heister_color);
                        if mv.position != pre.game_state.heisters@[heister_index(
                            pre.game_state.heisters@,
                            mv.heister_color,
                        )].map_position && exists|i: int|
                            0 <= i < pre.game_state.heisters@.len() && (
                            #[trigger] pre.game_state.heisters@[i]).map_position == mv.position
                                && pre.game_state.heisters@[i].heister_color != mv.heister_color {
                            law_occupancy_exclusivity(
                                pre.game_state,
                                pre.game_options,
                                mv,
                                player_name.0@,
                            );
                        }
                    }
                }
                v
            }
                Body::PlaceTile(pt) => {
                    let valid_game_state = self.game_is_ongoing();
                    match valid_game_state {
                        MoveValidity::Invalid(_) => {
                            proof {
                                if !(old(self).game_state.game_status == GameStatus::Ongoing
                                    || old(self).game_state.game_status
                                    == GameStatus::PreFirstMove) {
                                    assert(self.game_state == old(self).game_state);
                                    assert(*self == *old(self));
                                }
                                assert(self.game_state == (GameState {
                                    game_status: self.game_state.game_status,
                                    ..old(self).game_state
                                }));
                            }
                            return valid_game_state;
                        }
                        MoveValidity::Valid => {}
                    }
                let ghost pre = *self;
                proof {
                    if old(self).game_state.game_status == GameStatus::PreFirstMove || old(self).game_state.game_status == GameStatus::Ongoing {
                        assert(pre.game_state == old(self).game_state);
                        assert(pre == *old(self));
                    }
                }
                self.process_tile_placement(pt, player_name)
            }
                Body::GameState(_) => MoveValidity::Invalid(
                    String::from_str("GameState Message is invalid from players"),
                ),
                Body::InvalidRequest(_) => MoveValidity::Invalid(
                    String::from_str("InvalidRequest Message is invalid from players"),
                ),
                Body::Chat(_) => MoveValidity::Valid,
            },
        };
        let ghost post_dispatch = *self;
        self.update_auxiliary_state();
        proof {
            assert forall|i: int| 0 <= i < self.game_state.heisters@.len() implies {
                &&& (#[trigger] self.game_state.heisters@[i]).map_position
                    == post_dispatch.game_state.heisters@[i].map_position
                &&& self.game_state.heisters@[i].has_escaped
                    == post_dispatch.game_state.heisters@[i].has_escaped
                &&& self.game_state.heisters@[i].heister_color
                    == post_dispatch.game_state.heisters@[i].heister_color
            } by {
                assert(self.game_state.heisters@[i] == (Heister {
                    has_taken_item: self.game_state.heisters@[i].has_taken_item,
                    ..post_dispatch.game_state.heisters@[i]
                }));
            }
        }
        validity
    }
}

/// The three derived caches agree with a recomputation from the committed
/// state: the entrance candidates, the escalator destinations and the
/// teleport destinations, all in roster order.
pub open spec fn caches_consistent(g: Game) -> bool {
    let grid = grid_of(g.game_state.tiles@);
    let hs = g.game_state.heisters@;
    &&& g.game_state.possible_placements@ == entrance_pairs_prefix(
        grid,
        hs,
        hs.len() as int,
    ).map_values(|pr: (MapPosition, MapPosition)| pr.1)
    &&& g.game_state.possible_escalators@ == crate::game_state::escalator_pairs_prefix(
        grid,
        g.game_state.tiles@,
        hs,
        hs.len() as int,
    )
    &&& tele_view(g.game_state.possible_teleports@) == teleport_pairs_prefix(
        grid,
        g.game_options.teleport_only_from_portal,
        tele_view(g.revealed_teleporters@),
        hs,
        hs.len() as int,
    )
}

/// Occupancy exclusivity: a move onto a square occupied by a different
/// heister is never valid, whatever category of move was attempted.
pub proof fn law_occupancy_exclusivity(
    g: GameState,
    opts: GameOptions,
    m: Move,
    pname: Seq<char>,
)
    requires
        heisters_wf(g.heisters@),
        m.position != g.heisters@[heister_index(g.heisters@, m.heister_color)].map_position,
        exists|i: int|
            0 <= i < g.heisters@.len() && (#[trigger] g.heisters@[i]).map_position == m.position
                && g.heisters@[i].heister_color != m.heister_color,
    ensures
        move_verdict(g, opts, m, pname) is Some,
{
    lemma_find_heister_at(g.heisters@, m.position, 0);
    let w = choose|i: int|
        0 <= i < g.heisters@.len() && (#[trigger] g.heisters@[i]).map_position == m.position
            && g.heisters@[i].heister_color != m.heister_color;
    assert(crate::game_state::spec_occupied(g.heisters@, m.position));
    assert(occupancy_verdict(g.heisters@, m.position) is Some);
}


impl Game {
    /// Applies one PlaceTile request: the player must hold RevealTiles
    /// and some heister must offer this entrance; the heister's door is
    /// opened, and the next tile of the deck is rotated into place and
    /// reconciled with its neighbors.
    fn process_tile_placement(&mut self, pt: PlaceTile, player_name: &PlayerName) -> (r:
        MoveValidity)
        requires
            state_wf(old(self).game_state),
            old(self).tile_deck@.len() <= u32::MAX,
            tiles_wf(old(self).tile_deck@),
            exists|i: int|
                0 <= i < old(self).game_state.players@.len() && (
                #[trigger] old(self).game_state.players@[i]).name@ == player_name.0@,
        ensures
            r is Valid <==> placement_verdict(
                old(self).game_state,
                old(self).tile_deck@.len() as int,
                pt,
                player_name.0@,
            ) is None,
            r is Invalid ==> invalid_msg(r) == placement_verdict(
                old(self).game_state,
                old(self).tile_deck@.len() as int,
                pt,
                player_name.0@,
            ).unwrap(),
            r is Invalid ==> *final(self) == *old(self),
            r is Valid ==> {
                &&& final(self).tile_deck@ == old(self).tile_deck@.drop_last()
                &&& final(self).game_state.remaining_tiles == final(self).tile_deck@.len()
                &&& final(self).game_state.tiles@.len() == old(self).game_state.tiles@.len() + 1
                &&& forall|j: int|
                    0 <= j < old(self).game_state.tiles@.len() ==> (
                    #[trigger] final(self).game_state.tiles@[j]).position == old(self).game_state.tiles@[j].position && final(self).game_state.tiles@[j].name@
                        == old(self).game_state.tiles@[j].name@ && final(self).game_state.tiles@[j].num_rotations == old(self).game_state.tiles@[j].num_rotations
                &&& ({
                    let grid = grid_of(old(self).game_state.tiles@);
                    let pairs = entrance_pairs_prefix(
                        grid,
                        old(self).game_state.heisters@,
                        old(self).game_state.heisters@.len() as int,
                    );
                    let k = find_pair(pairs, pt.tile_entrance, 0);
                    let dir = spec_door_direction(grid[pairs[k].0]).unwrap();
                    &&& final(self).game_state.tiles@.last().position
                        == crate::types::spec_new_tile_position(pt.tile_entrance, dir)
                    &&& final(self).game_state.tiles@.last().num_rotations == rotations_for(dir)
                    &&& final(self).game_state.tiles@.last().name@ == old(self).tile_deck@.last().name@
                })
                &&& final(self).game_state == (GameState {
                    tiles: final(self).game_state.tiles,
                    remaining_tiles: final(self).game_state.remaining_tiles,
                    ..old(self).game_state
                })
                &&& *final(self) == (Game {
                    game_state: final(self).game_state,
                    tile_deck: final(self).tile_deck,
                    revealed_teleporters: final(self).revealed_teleporters,
                    ..*old(self)
                })
                &&& ({
                    let grid = grid_of(old(self).game_state.tiles@);
                    let pairs = entrance_pairs_prefix(
                        grid,
                        old(self).game_state.heisters@,
                        old(self).game_state.heisters@.len() as int,
                    );
                    let k = find_pair(pairs, pt.tile_entrance, 0);
                    let hp = pairs[k].0;
                    let hsq = grid[hp];
                    let dir = spec_door_direction(hsq).unwrap();
                    let ti = find_tile_at(
                        old(self).game_state.tiles@,
                        crate::types::spec_current_tile_position(hp, dir),
                        0,
                    );
                    let si = find_square(old(self).game_state.tiles@[ti].squares@, hsq, 0);
                    exists|mid: Seq<Tile>, nt: Tile|
                        #![trigger mid.push(nt)]
                        {
                            &&& tile_wf(nt)
                            &&& mid.len() == old(self).game_state.tiles@.len()
                            &&& forall|j: int|
                                0 <= j < mid.len() && j != ti ==> (#[trigger] mid[j]) == old(self).game_state.tiles@[j]
                            &&& tile_eqv(mid[ti], (Tile {
                                squares: mid[ti].squares,
                                ..old(self).game_state.tiles@[ti]
                            }))
                            &&& mid[ti].squares@ == old(self).game_state.tiles@[ti].squares@.update(
                                si,
                                crate::types::with_wall(
                                    old(self).game_state.tiles@[ti].squares@[si],
                                    dir,
                                    crate::types::WallType::Clear,
                                ),
                            )
                            &&& nt.squares@ == rot16_n(
                                old(self).tile_deck@.last().squares@,
                                rotations_for(dir),
                            )
                            &&& nt.position == crate::types::spec_new_tile_position(
                                pt.tile_entrance,
                                dir,
                            )
                            &&& nt.num_rotations == rotations_for(dir)
                            &&& nt.name@ == old(self).tile_deck@.last().name@
                            &&& tele_view(final(self).revealed_teleporters@) == add_teleporters(
                                tele_view(old(self).revealed_teleporters@),
                                crate::types::spec_teleporters_prefix(nt, 16),
                                crate::types::spec_teleporters_prefix(nt, 16).len() as int,
                            )
                            &&& crate::game_state::squares_view(final(self).game_state.tiles@)
                                == crate::game_state::reconciled(
                                mid.push(nt),
                                grid_of(mid.push(nt)),
                                mid.len() as int,
                            )
                            &&& crate::game_state::tiles_skeleton_eqv(
                                final(self).game_state.tiles@,
                                mid.push(nt),
                            )
                        }
                })
            },
            state_wf(final(self).game_state),
    {
        if !self.player_has_ability(player_name, Ability::RevealTiles) {
            return MoveValidity::Invalid(String::from_str("You cannot reveal tiles"));
        }
        let grid = self.game_state.get_absolute_grid();
        proof {
            assert forall|i: int|
                0 <= i < self.game_state.heisters@.len() implies pos_workable(
                (#[trigger] self.game_state.heisters@[i]).map_position,
            ) by {
                assert(pos_moderate(self.game_state.heisters@[i].map_position));
            }
        }
        let pairs = self.game_state.heister_to_tile_entrance_positions(&grid);
        let ghost pairsv = pairs@;
        proof {
            lemma_entrance_pairs_ok(
                grid@,
                self.game_state.heisters@,
                self.game_state.heisters@.len() as int,
            );
            lemma_find_pair(pairsv, pt.tile_entrance, 0);
        }
        let mut k: usize = 0;
        let mut pair_found: bool = false;
        while k < pairs.len() && !pair_found
            invariant
                pairsv == pairs@,
                k <= pairsv.len(),
                pair_found ==> k < pairsv.len() && pairsv[k as int].1 == pt.tile_entrance,
                forall|q: int| 0 <= q < k ==> (#[trigger] pairsv[q]).1 != pt.tile_entrance,
            decreases pairsv.len() - k + if pair_found {
                0int
            } else {
                1int
            },
        {
            let cand = pairs[k].1;
            if cand.x == pt.tile_entrance.x && cand.y == pt.tile_entrance.y {
                pair_found = true;
            } else {
                k = k + 1;
            }
        }
        if !pair_found {
            return MoveValidity::Invalid(
                String::from_str(
                    "When placing a tile, the heister must be at a tile-reveal door",
                ),
            );
        }
        proof {
            lemma_find_pair(pairsv, pt.tile_entrance, 0);
            assert(find_pair(pairsv, pt.tile_entrance, 0) == k as int);
            assert(crate::game_state::entrance_pair_ok(grid@, pairsv[k as int]));
        }
        let heister_pos = pairs[k].0;
        let heister_square = match grid.get(&heister_pos) {
            Some(s) => s,
            None => {
                proof {
                    assert(false);
                }
                Square::default()
            }
        };
        let dir = match heister_square.get_door_direction() {
            Some(d) => d,
            None => {
                proof {
                    assert(false);
                }
                MoveDirection::North
            }
        };
        let current_tile_position = heister_pos.current_tile_position(&dir);
        let ghost ts0 = self.game_state.tiles@;
        let mut ti: usize = 0;
        let mut tile_found: bool = false;
        while ti < self.game_state.tiles.len() && !tile_found
            invariant
                ts0 == self.game_state.tiles@,
                ti <= ts0.len(),
                tile_found ==> ti < ts0.len() && ts0[ti as int].position == current_tile_position,
                forall|j: int| 0 <= j < ti ==> (#[trigger] ts0[j]).position
                    != current_tile_position,
            decreases ts0.len() - ti + if tile_found {
                0int
            } else {
                1int
            },
        {
            let tp = self.game_state.tiles[ti].position;
            if tp.x == current_tile_position.x && tp.y == current_tile_position.y {
                tile_found = true;
            } else {
                ti = ti + 1;
            }
        }
        proof {
            crate::game_state::lemma_find_tile_at(ts0, current_tile_position, 0);
        }
        if !tile_found {
            let mut s = String::from_str("Couldn't open door for newly placed tile: ");
            let inner = text::no_tile_found_message(&heister_pos);
            s.append(inner.as_str());
            return MoveValidity::Invalid(s);
        }
        proof {
            assert(find_tile_at(ts0, current_tile_position, 0) == ti as int);
        }
        let ghost sqs0 = ts0[ti as int].squares@;
        let mut si: usize = 0;
        let mut square_found: bool = false;
        while si < self.game_state.tiles[ti].squares.len() && !square_found
            invariant
                ts0 == self.game_state.tiles@,
                ti < ts0.len(),
                sqs0 == ts0[ti as int].squares@,
                si <= sqs0.len(),
                square_found ==> si < sqs0.len() && sqs0[si as int] == heister_square,
                forall|j: int| 0 <= j < si ==> (#[trigger] sqs0[j]) != heister_square,
            decreases sqs0.len() - si + if square_found {
                0int
            } else {
                1int
            },
        {
            if self.game_state.tiles[ti].squares[si] == heister_square {
                square_found = true;
            } else {
                si = si + 1;
            }
        }
        proof {
            crate::game_state::lemma_find_square(sqs0, heister_square, 0);
        }
        if !square_found {
            return MoveValidity::Invalid(
                String::from_str(
                    "Couldn't open door for newly placed tile: When opening a door, we expect the square to have a door to open",
                ),
            );
        }
        proof {
            assert(find_square(sqs0, heister_square, 0) == si as int);
        }
        if self.tile_deck.len() == 0 {
            return MoveValidity::Invalid(String::from_str("No tiles left in deck to draw"));
        }
        let (off_x, off_y): (i64, i64) = match dir {
            MoveDirection::North => (-1, -3),
            MoveDirection::East => (0, -1),
            MoveDirection::South => (-2, 0),
            MoveDirection::West => (-3, -2),
        };
        let nx: i64 = pt.tile_entrance.x as i64 + off_x;
        let ny: i64 = pt.tile_entrance.y as i64 + off_y;
        let lim: i64 = crate::types::COORD_LIMIT as i64;
        if nx < -lim || nx > lim || ny < -lim || ny > lim {
            return MoveValidity::Invalid(String::from_str("Tile position is out of range"));
        }
        proof {
            assert(pos_interior(crate::types::spec_new_tile_position(pt.tile_entrance, dir)));
        }
        match self.game_state.open_door(heister_pos, heister_square, &dir) {
            Ok(_) => {}
            Err(_) => {
                proof {
                    assert(false);
                }
            }
        }
        proof {
            assert forall|j: int|
                0 <= j < self.game_state.tiles@.len() implies tile_wf(
                #[trigger] self.game_state.tiles@[j],
            ) by {
                assert(tile_wf(ts0[j]));
                if j == ti as int {
                    assert(self.game_state.tiles@[j].squares@.len() == 16);
                    assert(self.game_state.tiles@[j].position == ts0[j].position);
                } else {
                    assert(self.game_state.tiles@[j] == ts0[j]);
                }
            }
        }
        let ghost ts_mid = self.game_state.tiles@;
        let rr = self.place_tile(&pt.tile_entrance, &dir);
        proof {
            assert forall|j: int| 0 <= j < self.tile_deck@.len() implies tile_wf(
                #[trigger] self.tile_deck@[j],
            ) by {
                assert(self.tile_deck@[j] == old(self).tile_deck@[j]);
                assert(tile_wf(old(self).tile_deck@[j]));
            }
            let nt = choose|nt: Tile|
                {
                    &&& #[trigger] tile_wf(nt)
                    &&& nt.squares@ == rot16_n(
                        old(self).tile_deck@.last().squares@,
                        rotations_for(dir),
                    )
                    &&& nt.position == crate::types::spec_new_tile_position(pt.tile_entrance, dir)
                    &&& nt.num_rotations == rotations_for(dir)
                    &&& nt.name@ == old(self).tile_deck@.last().name@
                    &&& tele_view(self.revealed_teleporters@) == add_teleporters(
                        tele_view(old(self).revealed_teleporters@),
                        crate::types::spec_teleporters_prefix(nt, 16),
                        crate::types::spec_teleporters_prefix(nt, 16).len() as int,
                    )
                    &&& crate::game_state::squares_view(self.game_state.tiles@)
                        == crate::game_state::reconciled(
                        ts_mid.push(nt),
                        grid_of(ts_mid.push(nt)),
                        ts_mid.len() as int,
                    )
                    &&& crate::game_state::tiles_skeleton_eqv(
                        self.game_state.tiles@,
                        ts_mid.push(nt),
                    )
                };
            assert(ts_mid.len() == old(self).game_state.tiles@.len());
            assert(ts_mid[ti as int].squares@ == old(self).game_state.tiles@[ti as int
            ].squares@.update(
                si as int,
                crate::types::with_wall(
                    old(self).game_state.tiles@[ti as int].squares@[si as int],
                    dir,
                    crate::types::WallType::Clear,
                ),
            ));
            assert(crate::game_state::tiles_skeleton_eqv(
                self.game_state.tiles@,
                ts_mid.push(nt),
            ));
        }
        rr
    }
}


} // verus!
