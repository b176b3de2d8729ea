//! The overworld tilemap, parsed from a character grid: one line per row,
//! one character per column. Recognized glyphs pick a sprite and may mark
//! the tile as a collider or as an encounter zone; any unrecognized glyph
//! falls back to a default floor tile.

use vstd::prelude::*;

use crate::geometry::{vec2_ok, Vec2};
use crate::movement::{Collider, EncounterSpawn};
use crate::TILE_SIZE;

verus! {

/// Largest number of rows, and of columns per row, a map may have.
pub const MAP_DIM_LIMIT: usize = 1000000;

/// One map tile: its sprite, its centre position in units, and whether it
/// blocks movement or marks an encounter zone.
#[derive(Debug, Clone, Copy, PartialEq, Eq, Structural)]
pub struct Tile {
    pub sprite_index: usize,
    pub position: Vec2,
    pub collider: bool,
    pub encounter_spawn: bool,
}

/// The parsed overworld map: its tiles, and whether its visuals are shown.
#[derive(Debug)]
pub struct TileMap {
    pub tiles: Vec<Tile>,
    pub visible: bool,
}

/// The sprite-atlas cell a glyph selects. Walls (`#`), rocks (`%`), grass
/// (`g`), flowers (`,`) and tall grass (`~`) each have a sprite; anything
/// else is the default floor tile.
pub open spec fn glyph_sprite(c: char) -> int {
    if c == '#' {
        6
    } else if c == '%' {
        8
    } else if c == 'g' {
        7
    } else if c == ',' {
        9
    } else if c == '~' {
        10
    } else {
        3
    }
}

/// Whether a glyph's tile blocks movement: walls and rocks do.
pub open spec fn glyph_collider(c: char) -> bool {
    c == '#' || c == '%'
}

/// Whether a glyph's tile marks an encounter zone: tall grass does.
pub open spec fn glyph_encounter(c: char) -> bool {
    c == '~'
}

/// The tile a glyph at grid cell (`col`, `row`) parses to. The grid cell
/// one column in and one row down sits at the origin.
pub open spec fn spec_tile(c: char, col: int, row: int) -> Tile {
    Tile {
        sprite_index: glyph_sprite(c) as usize,
        position: Vec2 {
            x: ((col - 1) * TILE_SIZE) as i64,
            y: ((1 - row) * TILE_SIZE) as i64,
        },
        collider: glyph_collider(c),
        encounter_spawn: glyph_encounter(c),
    }
}

/// The tiles one row of glyphs parses to.
pub open spec fn spec_parse_row(row: Seq<char>, y: int) -> Seq<Tile> {
    Seq::new(row.len(), |x: int| spec_tile(row[x], x, y))
}

/// The tiles a whole glyph grid parses to, row by row, top to bottom.
pub open spec fn spec_parse(rows: Seq<Seq<char>>) -> Seq<Tile>
    decreases rows.len(),
{
    if rows.len() == 0 {
        Seq::empty()
    } else {
        spec_parse(rows.drop_last()) + spec_parse_row(rows.last(), rows.len() - 1)
    }
}

/// Parses one glyph into its tile at grid cell (`col`, `row`).
pub fn tile_for_glyph(c: char, col: usize, row: usize) -> (t: Tile)
    requires
        col <= MAP_DIM_LIMIT,
        row <= MAP_DIM_LIMIT,
    ensures
        t == spec_tile(c, col as int, row as int),
        vec2_ok(t.position),
{
    let sprite_index: usize = if c == '#' {
        6
    } else if c == '%' {
        8
    } else if c == 'g' {
        7
    } else if c == ',' {
        9
    } else if c == '~' {
        10
    } else {
        3
    };
    Tile {
        sprite_index,
        position: Vec2 {
            x: (col as i64 - 1) * TILE_SIZE,
            y: (1 - row as i64) * TILE_SIZE,
        },
        collider: c == '#' || c == '%',
        encounter_spawn: c == '~',
    }
}

impl TileMap {
    /// Every tile sits within the world's coordinate bound.
    pub open spec fn wf(self) -> bool {
        forall|i: int| 0 <= i < self.tiles@.len() ==> vec2_ok(#[trigger] self.tiles@[i].position)
    }

    /// The positions of the tiles that block movement, in tile order.
    pub open spec fn spec_colliders_of(tiles: Seq<Tile>) -> Seq<Collider>
        decreases tiles.len(),
    {
        if tiles.len() == 0 {
            Seq::empty()
        } else {
            Self::spec_colliders_of(tiles.drop_last()) + if tiles.last().collider {
                seq![Collider { position: tiles.last().position }]
            } else {
                Seq::empty()
            }
        }
    }

    /// The positions of the tiles that mark encounter zones, in tile order.
    pub open spec fn spec_encounter_spawns_of(tiles: Seq<Tile>) -> Seq<EncounterSpawn>
        decreases tiles.len(),
    {
        if tiles.len() == 0 {
            Seq::empty()
        } else {
            Self::spec_encounter_spawns_of(tiles.drop_last()) + if tiles.last().encounter_spawn {
                seq![EncounterSpawn { position: tiles.last().position }]
            } else {
                Seq::empty()
            }
        }
    }

    /// Collects the collider tiles' positions, for collision resolution.
    /// A map with no collider tiles yields the empty list: a normal case,
    /// not an error.
    pub fn colliders(&self) -> (r: Vec<Collider>)
        requires
            self.wf(),
        ensures
            r@ == Self::spec_colliders_of(self.tiles@),
            crate::movement::colliders_ok(r@),
    {
        let mut r: Vec<Collider> = Vec::new();
        let n = self.tiles.len();
        let mut i: usize = 0;
        while i < n
            invariant
                n == self.tiles@.len(),
                i <= n,
                self.wf(),
                r@ == Self::spec_colliders_of(self.tiles@.take(i as int)),
                crate::movement::colliders_ok(r@),
            decreases n - i,
        {
            let tile = self.tiles[i];
            if tile.collider {
                r.push(Collider { position: tile.position });
            }
            proof {
                assert(self.tiles@.take(i + 1).drop_last() =~= self.tiles@.take(i as int));
                assert(self.tiles@.take(i + 1).last() == self.tiles@[i as int]);
                assert(r@ =~= Self::spec_colliders_of(self.tiles@.take(i + 1)));
            }
            i = i + 1;
        }
        proof {
            assert(self.tiles@.take(n as int) =~= self.tiles@);
        }
        r
    }

    /// Collects the encounter tiles' positions, for the encounter check.
    pub fn encounter_spawns(&self) -> (r: Vec<EncounterSpawn>)
        requires
            self.wf(),
        ensures
            r@ == Self::spec_encounter_spawns_of(self.tiles@),
            crate::movement::encounter_tiles_ok(r@),
    {
        let mut r: Vec<EncounterSpawn> = Vec::new();
        let n = self.tiles.len();
        let mut i: usize = 0;
        while i < n
            invariant
                n == self.tiles@.len(),
                i <= n,
                self.wf(),
                r@ == Self::spec_encounter_spawns_of(self.tiles@.take(i as int)),
                crate::movement::encounter_tiles_ok(r@),
            decreases n - i,
        {
            let tile = self.tiles[i];
            if tile.encounter_spawn {
                r.push(EncounterSpawn { position: tile.position });
            }
            proof {
                assert(self.tiles@.take(i + 1).drop_last() =~= self.tiles@.take(i as int));
                assert(self.tiles@.take(i + 1).last() == self.tiles@[i as int]);
                assert(r@ =~= Self::spec_encounter_spawns_of(self.tiles@.take(i + 1)));
            }
            i = i + 1;
        }
        proof {
            assert(self.tiles@.take(n as int) =~= self.tiles@);
        }
        r
    }
}

/// Parses a glyph grid into the overworld map, row by row, left to right
/// within each row; the map starts shown.
pub fn parse_map(rows: &Vec<Vec<char>>) -> (m: TileMap)
    requires
        rows@.len() <= MAP_DIM_LIMIT,
        forall|i: int| 0 <= i < rows@.len() ==> (#[trigger] rows@[i])@.len() <= MAP_DIM_LIMIT,
    ensures
        m.tiles@ == spec_parse(rows.deep_view()),
        m.wf(),
        m.visible,
{
    let ghost all: Seq<Seq<char>> = rows.deep_view();
    let mut tiles: Vec<Tile> = Vec::new();
    let n_rows = rows.len();
    let mut row: usize = 0;
    while row < n_rows
        invariant
            n_rows == rows@.len(),
            row <= n_rows,
            all == rows.deep_view(),
            all.len() == n_rows,
            forall|i: int| 0 <= i < n_rows ==> all[i] == (#[trigger] rows@[i])@,
            rows@.len() <= MAP_DIM_LIMIT,
            forall|i: int| 0 <= i < rows@.len() ==> (#[trigger] rows@[i])@.len() <= MAP_DIM_LIMIT,
            tiles@ == spec_parse(all.take(row as int)),
            forall|k: int| 0 <= k < tiles@.len() ==> vec2_ok(#[trigger] tiles@[k].position),
        decreases n_rows - row,
    {
        let line = &rows[row];
        let n_cols = line.len();
        let mut col: usize = 0;
        while col < n_cols
            invariant
                n_rows == rows@.len(),
                row < n_rows,
                n_cols == line@.len(),
                col <= n_cols,
                line@ == all[row as int],
                all == rows.deep_view(),
                all.len() == n_rows,
                row <= MAP_DIM_LIMIT,
                n_cols <= MAP_DIM_LIMIT,
                tiles@ == spec_parse(all.take(row as int)) + Seq::new(
                    col as nat,
                    |x: int| spec_tile(line@[x], x, row as int),
                ),
                forall|k: int| 0 <= k < tiles@.len() ==> vec2_ok(#[trigger] tiles@[k].position),
            decreases n_cols - col,
        {
            let t = tile_for_glyph(line[col], col, row);
            tiles.push(t);
            proof {
                assert(Seq::new((col + 1) as nat, |x: int| spec_tile(line@[x], x, row as int))
                    =~= Seq::new(col as nat, |x: int| spec_tile(line@[x], x, row as int)).push(
                    spec_tile(line@[col as int], col as int, row as int),
                ));
                assert(tiles@ =~= spec_parse(all.take(row as int)) + Seq::new(
                    (col + 1) as nat,
                    |x: int| spec_tile(line@[x], x, row as int),
                ));
            }
            col = col + 1;
        }
        proof {
            assert(all.take(row + 1).drop_last() =~= all.take(row as int));
            assert(all.take(row + 1).last() == all[row as int]);
            assert(spec_parse_row(all[row as int], row as int) =~= Seq::new(
                n_cols as nat,
                |x: int| spec_tile(line@[x], x, row as int),
            ));
            assert(tiles@ =~= spec_parse(all.take(row + 1)));
        }
        row = row + 1;
    }
    proof {
        assert(all.take(n_rows as int) =~= all);
    }
    TileMap { tiles, visible: true }
}

/// Pausing the overworld hides the map's visuals; the tiles stay alive, so
/// the map layout survives a combat interlude.
pub fn hide_map(map: &mut TileMap)
    ensures
        final(map).tiles == old(map).tiles,
        !final(map).visible,
{
    map.visible = false;
}

/// Resuming the overworld shows the map again.
pub fn show_map(map: &mut TileMap)
    ensures
        final(map).tiles == old(map).tiles,
        final(map).visible,
{
    map.visible = true;
}

} // verus!
