//! The absolute grid: every placed tile's squares projected into one
//! coordinate-to-square mapping.

use vstd::prelude::*;

use crate::types::{pos_interior, spec_square_idx_pos, tile_wf, MapPosition, Square, Tile};

verus! {

/// The mapping a sequence of entries denotes: a later entry for the same
/// position overrides an earlier one.
pub open spec fn grid_map(es: Seq<(MapPosition, Square)>) -> Map<MapPosition, Square>
    decreases es.len(),
{
    if es.len() == 0 {
        Map::empty()
    } else {
        grid_map(es.drop_last()).insert(es.last().0, es.last().1)
    }
}

/// The sixteen grid entries a tile contributes, in square order.
pub open spec fn tile_entries(t: Tile) -> Seq<(MapPosition, Square)>
    recommends
        tile_wf(t),
{
    Seq::new(16, |i: int| (spec_square_idx_pos(t, i), t.squares@[i]))
}

/// The grid of a placed-tiles sequence: each tile's squares in order, later
/// tiles overriding earlier ones where they overlap.
pub open spec fn entries_of(tiles: Seq<Tile>) -> Seq<(MapPosition, Square)>
    decreases tiles.len(),
{
    if tiles.len() == 0 {
        Seq::empty()
    } else {
        entries_of(tiles.drop_last()) + tile_entries(tiles.last())
    }
}

pub open spec fn grid_of(tiles: Seq<Tile>) -> Map<MapPosition, Square> {
    grid_map(entries_of(tiles))
}

pub proof fn lemma_grid_map_absent(es: Seq<(MapPosition, Square)>, p: MapPosition)
    requires
        forall|j: int| 0 <= j < es.len() ==> (#[trigger] es[j]).0 != p,
    ensures
        !grid_map(es).contains_key(p),
    decreases es.len(),
{
    if es.len() > 0 {
        lemma_grid_map_absent(es.drop_last(), p);
    }
}

pub proof fn lemma_grid_map_found(es: Seq<(MapPosition, Square)>, k: int, p: MapPosition)
    requires
        0 <= k < es.len(),
        es[k].0 == p,
        forall|j: int| k < j < es.len() ==> (#[trigger] es[j]).0 != p,
    ensures
        grid_map(es).contains_key(p),
        grid_map(es)[p] == es[k].1,
    decreases es.len(),
{
    if k == es.len() - 1 {
    } else {
        lemma_grid_map_found(es.drop_last(), k, p);
    }
}

/// The absolute grid, assembled from the placed tiles.
#[derive(Debug)]
pub struct Grid {
    pub entries: Vec<(MapPosition, Square)>,
}

impl View for Grid {
    type V = Map<MapPosition, Square>;

    open spec fn view(&self) -> Map<MapPosition, Square> {
        grid_map(self.entries@)
    }
}

impl Grid {
    pub fn new() -> (r: Grid)
        ensures
            r.entries@ == Seq::<(MapPosition, Square)>::empty(),
            r@ == Map::<MapPosition, Square>::empty(),
    {
        let g = Grid { entries: Vec::new() };
        proof {
            assert(g.entries@ =~= Seq::<(MapPosition, Square)>::empty());
        }
        g
    }

    /// Appends the sixteen squares of `t`, which override any earlier entry
    /// at the same position.
    pub fn add_tile(&mut self, t: &Tile)
        requires
            tile_wf(*t),
        ensures
            final(self).entries@ == old(self).entries@ + tile_entries(*t),
    {
        let mut i: usize = 0;
        while i < 16
            invariant
                tile_wf(*t),
                i <= 16,
                self.entries@ == old(self).entries@ + tile_entries(*t).take(i as int),
            decreases 16 - i,
        {
            let sq_x = (i % 4) as i32;
            let sq_y = (i / 4) as i32;
            let mp = MapPosition { x: t.position.x + sq_x, y: t.position.y + sq_y };
            self.entries.push((mp, t.squares[i]));
            proof {
                assert(self.entries@ =~= old(self).entries@ + tile_entries(*t).take(i + 1));
            }
            i = i + 1;
        }
        proof {
            assert(tile_entries(*t).take(16) =~= tile_entries(*t));
        }
    }

    /// The square at `pos`, if any tile covers it.
    pub fn get(&self, pos: &MapPosition) -> (r: Option<Square>)
        ensures
            r == if self@.contains_key(*pos) {
                Some(self@[*pos])
            } else {
                None::<Square>
            },
    {
        let mut i: usize = self.entries.len();
        while i > 0
            invariant
                i <= self.entries@.len(),
                forall|j: int|
                    i <= j < self.entries@.len() ==> (#[trigger] self.entries@[j]).0 != *pos,
            decreases i,
        {
            i = i - 1;
            let (mp, sq) = self.entries[i];
            if mp.x == pos.x && mp.y == pos.y {
                proof {
                    lemma_grid_map_found(self.entries@, i as int, *pos);
                }
                return Some(sq);
            }
        }
        proof {
            lemma_grid_map_absent(self.entries@, *pos);
        }
        None
    }

    /// Whether any tile covers `pos`.
    pub fn contains(&self, pos: &MapPosition) -> (r: bool)
        ensures
            r == self@.contains_key(*pos),
    {
        match self.get(pos) {
            Some(_) => true,
            None => false,
        }
    }
}

} // verus!
