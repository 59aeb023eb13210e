//! Routed connectors: a path between two cells that keeps clear of what is
//! already drawn, found by an A* search and drawn cell by cell.
//!
//! Costs are fixed-point numbers in millionths of one step along an axis.

use vstd::prelude::*;
use pathfinding::directed::astar::astar;
use crate::geometry::{abs_diff, diff, Pos, MAX_COORD};
use crate::glyph::PLUS;
use crate::grid::{Buffer, Cell, GridView};
use crate::line::{glyph_between, lemma_plus_is_never_blocked, lemma_stage_extends, segment_glyph};

verus! {

/// Cost of one step along an axis.
pub const STEP: u128 = 1_000_000;

/// Cost of one diagonal step: the square root of two steps along an axis.
pub const DIAGONAL_STEP: u128 = 1_414_214;

/// Added to the cost of a step onto a drawn cell or past a drawn corner.
pub const OCCUPIED: u128 = 64_000_000;

/// Cost of a step along an axis onto `to`.
pub open spec fn axis_cost(g: GridView, to: Pos) -> int {
    if g.visible(to) {
        STEP + OCCUPIED
    } else {
        STEP as int
    }
}

/// Cost of a diagonal step onto `to` between the cells `a` and `b` that
/// flank it.
pub open spec fn diagonal_cost(g: GridView, to: Pos, a: Pos, b: Pos) -> int {
    if g.visible(to) || g.visible(a) || g.visible(b) {
        DIAGONAL_STEP + OCCUPIED
    } else {
        DIAGONAL_STEP as int
    }
}

/// The cells next to `pos` with the cost of stepping onto each: up to eight,
/// fewer at the edges of the grid.
pub open spec fn neighbors_of(g: GridView, pos: Pos) -> Seq<(Pos, u128)> {
    let w = pos.x > 0;
    let n = pos.y > 0;
    let e = pos.x < MAX_COORD;
    let s = pos.y < MAX_COORD;
    let nw = if w && n {
        seq![
            (pos.north().west(), diagonal_cost(g, pos.north().west(), pos.north(), pos.west()) as u128),
        ]
    } else {
        seq![]
    };
    let we = if w {
        seq![(pos.west(), axis_cost(g, pos.west()) as u128)]
    } else {
        seq![]
    };
    let sw = if w && s {
        seq![
            (pos.south().west(), diagonal_cost(g, pos.south().west(), pos.south(), pos.west()) as u128),
        ]
    } else {
        seq![]
    };
    let no = if n {
        seq![(pos.north(), axis_cost(g, pos.north()) as u128)]
    } else {
        seq![]
    };
    let ne = if n && e {
        seq![
            (pos.north().east(), diagonal_cost(g, pos.north().east(), pos.north(), pos.east()) as u128),
        ]
    } else {
        seq![]
    };
    let ea = if e {
        seq![(pos.east(), axis_cost(g, pos.east()) as u128)]
    } else {
        seq![]
    };
    let so = if s {
        seq![(pos.south(), axis_cost(g, pos.south()) as u128)]
    } else {
        seq![]
    };
    let se = if s && e {
        seq![
            (pos.south().east(), diagonal_cost(g, pos.south().east(), pos.south(), pos.east()) as u128),
        ]
    } else {
        seq![]
    };
    nw + we + sw + no + ne + ea + so + se
}

/// Cost of the shortest way between two cells that are `dx` columns and `dy`
/// rows apart on an empty grid: diagonal steps while both distances last,
/// steps along the axis for the rest.
pub open spec fn octile(dx: int, dy: int) -> int {
    if dx > dy {
        STEP * (dx - dy) + DIAGONAL_STEP * dy
    } else {
        STEP * (dy - dx) + DIAGONAL_STEP * dx
    }
}

/// The estimate the search goes by: the octile distance, raised by a
/// thousandth so that of two equally good cells the one nearer to the goal
/// is tried first.
pub open spec fn estimate(pos: Pos, dst: Pos) -> int {
    octile(abs_diff(pos.x as int, dst.x as int), abs_diff(pos.y as int, dst.y as int)) * 1001
        / 1000
}

/// Returns a distance heuristic between `pos` and `dst`.
pub fn heuristic(pos: Pos, dst: Pos) -> (h: u128)
    ensures
        h == estimate(pos, dst),
{
    let dx = diff(pos.x, dst.x) as u128;
    let dy = diff(pos.y, dst.y) as u128;
    assert(dx <= 0xffff_ffff_ffff_ffff && dy <= 0xffff_ffff_ffff_ffff);
    let dist = if dx > dy {
        assert(STEP * (dx - dy) <= 1_000_000 * 0xffff_ffff_ffff_ffff) by (nonlinear_arith)
            requires
                dx - dy <= 0xffff_ffff_ffff_ffff,
                STEP == 1_000_000,
        ;
        assert(DIAGONAL_STEP * dy <= 1_414_214 * 0xffff_ffff_ffff_ffff) by (nonlinear_arith)
            requires
                dy <= 0xffff_ffff_ffff_ffff,
                DIAGONAL_STEP == 1_414_214,
        ;
        STEP * (dx - dy) + DIAGONAL_STEP * dy
    } else {
        assert(STEP * (dy - dx) <= 1_000_000 * 0xffff_ffff_ffff_ffff) by (nonlinear_arith)
            requires
                dy - dx <= 0xffff_ffff_ffff_ffff,
                STEP == 1_000_000,
        ;
        assert(DIAGONAL_STEP * dx <= 1_414_214 * 0xffff_ffff_ffff_ffff) by (nonlinear_arith)
            requires
                dx <= 0xffff_ffff_ffff_ffff,
                DIAGONAL_STEP == 1_414_214,
        ;
        STEP * (dy - dx) + DIAGONAL_STEP * dx
    };
    dist * 1001 / 1000
}

/// The cell that a pair of a column and a row names.
pub open spec fn cell_at(node: (usize, usize)) -> Pos {
    Pos { x: node.0, y: node.1 }
}

/// The cells that a path of pairs names.
pub open spec fn cells_of(path: Seq<(usize, usize)>) -> Seq<Pos> {
    path.map_values(|node: (usize, usize)| cell_at(node))
}

/// The cells that a list of successors names, each with its cost.
pub open spec fn steps_of(succ: Seq<((usize, usize), u128)>) -> Seq<(Pos, u128)> {
    succ.map_values(|step: ((usize, usize), u128)| (cell_at(step.0), step.1))
}

impl Buffer {
    /// Returns the cost of stepping along an axis onto `to`.
    fn axis_step(&self, to: Pos) -> (r: ((usize, usize), u128))
        ensures
            cell_at(r.0) == to,
            r.1 == axis_cost(self@, to),
    {
        if self.visible(to) {
            ((to.x, to.y), STEP + OCCUPIED)
        } else {
            ((to.x, to.y), STEP)
        }
    }

    /// Returns the cost of stepping diagonally onto `to`, between `a` and
    /// `b`.
    fn diagonal_step(&self, to: Pos, a: Pos, b: Pos) -> (r: ((usize, usize), u128))
        ensures
            cell_at(r.0) == to,
            r.1 == diagonal_cost(self@, to, a, b),
    {
        if self.visible(to) || self.visible(a) || self.visible(b) {
            ((to.x, to.y), DIAGONAL_STEP + OCCUPIED)
        } else {
            ((to.x, to.y), DIAGONAL_STEP)
        }
    }

    /// Returns the coordinates neighboring `pos`, along with the cost to
    /// reach each one.
    pub fn neighbors(&self, pos: (usize, usize)) -> (succ: Vec<((usize, usize), u128)>)
        ensures
            steps_of(succ@) == neighbors_of(self@, cell_at(pos)),
    {
        let mut succ: Vec<((usize, usize), u128)> = Vec::new();
        let west = pos.0 > 0;
        let north = pos.1 > 0;
        let east = pos.0 < MAX_COORD;
        let south = pos.1 < MAX_COORD;
        if west && north {
            let w = Pos { x: pos.0 - 1, y: pos.1 };
            let n = Pos { x: pos.0, y: pos.1 - 1 };
            succ.push(self.diagonal_step(Pos { x: pos.0 - 1, y: pos.1 - 1 }, n, w));
        }
        if west {
            succ.push(self.axis_step(Pos { x: pos.0 - 1, y: pos.1 }));
        }
        if west && south {
            let w = Pos { x: pos.0 - 1, y: pos.1 };
            let s = Pos { x: pos.0, y: pos.1 + 1 };
            succ.push(self.diagonal_step(Pos { x: pos.0 - 1, y: pos.1 + 1 }, s, w));
        }
        if north {
            succ.push(self.axis_step(Pos { x: pos.0, y: pos.1 - 1 }));
        }
        if north && east {
            let e = Pos { x: pos.0 + 1, y: pos.1 };
            let n = Pos { x: pos.0, y: pos.1 - 1 };
            succ.push(self.diagonal_step(Pos { x: pos.0 + 1, y: pos.1 - 1 }, n, e));
        }
        if east {
            succ.push(self.axis_step(Pos { x: pos.0 + 1, y: pos.1 }));
        }
        if south {
            succ.push(self.axis_step(Pos { x: pos.0, y: pos.1 + 1 }));
        }
        if south && east {
            let e = Pos { x: pos.0 + 1, y: pos.1 };
            let s = Pos { x: pos.0, y: pos.1 + 1 };
            succ.push(self.diagonal_step(Pos { x: pos.0 + 1, y: pos.1 + 1 }, s, e));
        }
        assert(steps_of(succ@) =~= neighbors_of(self@, cell_at(pos)));
        succ
    }
}

/// Returns the estimate of the cost from `pos` to `dst`.
fn estimate_from(pos: (usize, usize), dst: Pos) -> (h: u128)
    ensures
        h == estimate(cell_at(pos), dst),
{
    heuristic(Pos { x: pos.0, y: pos.1 }, dst)
}

/// Tells whether `pos` is the cell `dst`.
fn arrived(pos: (usize, usize), dst: Pos) -> (b: bool)
    ensures
        b == (cell_at(pos) == dst),
{
    pos.0 == dst.x && pos.1 == dst.y
}

/// The path that the search finds from `src` to `dst` over a grid with the
/// committed `rows`, or `None` where it finds none.
pub uninterp spec fn route(rows: Seq<Seq<char>>, src: (usize, usize), dst: (usize, usize)) -> Option<
    Seq<(usize, usize)>,
>;

/// `pathfinding::directed::astar::astar` from `src`, with
/// [`Buffer::neighbors`] for the successors of a cell, [`heuristic`] for the
/// estimate and arrival at `dst` for success.
///
/// The search keeps its cells in an insertion-ordered map with a fixed
/// hasher and in a binary heap, so the path depends on the committed rows
/// and the two end points alone. A path that it returns comprises both the
/// start and the cell at which it succeeded. The grid is finite, so the
/// search ends, and the cost of a path that visits no cell twice stays far
/// below the largest `u128`.
#[verifier::external_body]
fn astar_route(buf: &Buffer, src: Pos, dst: Pos) -> (found: Option<Vec<(usize, usize)>>)
    requires
        src.in_range(),
        dst.in_range(),
    ensures
        match found {
            Some(path) => {
                &&& route(buf@.rows, (src.x, src.y), (dst.x, dst.y)) == Some(path@)
                &&& path@.len() > 0
                &&& path@[0] == (src.x, src.y)
                &&& path@.last() == (dst.x, dst.y)
            },
            None => route(buf@.rows, (src.x, src.y), (dst.x, dst.y)) is None,
        },
{
    astar(
        &(src.x, src.y),
        |pos| buf.neighbors(*pos),
        |pos| estimate_from(*pos, dst),
        |pos| arrived(*pos, dst),
    ).map(|found| found.0)
}

/// Every cell of `path` lies within the addressable grid.
pub open spec fn path_in_range(path: Seq<Pos>) -> bool {
    forall|i: int| 0 <= i < path.len() ==> (#[trigger] path[i]).in_range()
}

/// The glyph of the `i`-th cell of a routed path: a `+` at its origin and
/// where the path turns, the glyph of the leg that arrives at the cell
/// elsewhere.
pub open spec fn route_glyph(path: Seq<Pos>, i: int) -> char {
    if i <= 0 || i >= path.len() {
        PLUS
    } else {
        let arriving = segment_glyph(path[i].x - path[i - 1].x, path[i].y - path[i - 1].y);
        if i + 1 < path.len() && segment_glyph(path[i + 1].x - path[i].x, path[i + 1].y - path[i].y)
            != arriving {
            PLUS
        } else {
            arriving
        }
    }
}

/// The cell from which a path arrives at its end: the last but one, or `src`
/// for a path of a single cell or none.
pub open spec fn approach(path: Seq<Pos>, src: Pos) -> Pos {
    if path.len() >= 2 {
        path[path.len() - 2]
    } else {
        src
    }
}

impl GridView {
    /// The buffer after the first `n` cells of `path` were staged, each with
    /// its glyph and without force.
    pub open spec fn stage_route(self, path: Seq<Pos>, n: int) -> GridView
        decreases n,
    {
        if n <= 0 || n > path.len() {
            self
        } else {
            self.stage_route(path, n - 1).stage(false, path[n - 1], route_glyph(path, n - 1))
        }
    }

    /// The buffer after `path` was staged and then a `+` at `dst`, all
    /// without force.
    pub open spec fn draw_route(self, path: Seq<Pos>, dst: Pos) -> GridView {
        self.stage_route(path, path.len() as int).stage(false, dst, PLUS)
    }

    /// The buffer after the routed connector from `src` to `dst` was staged:
    /// unchanged where the search finds no path within the grid.
    pub open spec fn draw_path(self, src: Pos, dst: Pos) -> GridView {
        match route(self.rows, (src.x, src.y), (dst.x, dst.y)) {
            Some(path) if path_in_range(cells_of(path)) => self.draw_route(cells_of(path), dst),
            _ => self,
        }
    }

    /// The cell from which the routed connector from `src` arrives at `dst`,
    /// or `None` where the search finds no path within the grid.
    pub open spec fn path_approach(self, src: Pos, dst: Pos) -> Option<Pos> {
        match route(self.rows, (src.x, src.y), (dst.x, dst.y)) {
            Some(path) if path_in_range(cells_of(path)) => Some(approach(cells_of(path), src)),
            _ => None,
        }
    }
}

/// Tells whether every cell of `path` lies within the addressable grid.
pub fn is_path_in_range(path: &Vec<Pos>) -> (ok: bool)
    ensures
        ok == path_in_range(path@),
{
    let mut i: usize = 0;
    while i < path.len()
        invariant
            i <= path.len(),
            forall|j: int| 0 <= j < i ==> (#[trigger] path@[j]).in_range(),
        decreases path.len() - i,
    {
        if !path[i].is_in_range() {
            return false;
        }
        i += 1;
    }
    true
}

/// Returns the cells that `path` names.
pub fn path_cells(path: &Vec<(usize, usize)>) -> (cells: Vec<Pos>)
    ensures
        cells@ == cells_of(path@),
{
    let mut cells: Vec<Pos> = Vec::new();
    let mut i: usize = 0;
    while i < path.len()
        invariant
            i <= path.len(),
            cells@ == cells_of(path@).take(i as int),
        decreases path.len() - i,
    {
        let node = path[i];
        cells.push(Pos { x: node.0, y: node.1 });
        assert(cells_of(path@).take(i + 1) =~= cells_of(path@).take(i as int).push(
            cell_at(path@[i as int]),
        ));
        i += 1;
    }
    assert(cells_of(path@).take(path@.len() as int) =~= cells_of(path@));
    cells
}

impl Buffer {
    /// Draw `path`, a connector that ends at `dst`, cell by cell. Returns
    /// the penultimate point along the path, or `src` where the path has
    /// fewer than two cells.
    pub fn draw_route(&mut self, path: &Vec<Pos>, src: Pos, dst: Pos) -> (last: Pos)
        requires
            old(self).wf(),
            path_in_range(path@),
            src.in_range(),
            dst.in_range(),
        ensures
            final(self)@ == old(self)@.draw_route(path@, dst),
            final(self).wf(),
            last == approach(path@, src),
            last.in_range(),
            final(self)@.rows == old(self)@.rows,
            final(self)@.cursor == old(self)@.cursor,
            final(self)@.edits.len() > old(self)@.edits.len(),
            final(self)@.edits.last() == (Cell { pos: dst, c: PLUS }),
            path@.len() > 0 ==> final(self)@.edits[old(self)@.edits.len() as int] == (Cell {
                pos: path@[0],
                c: PLUS,
            }),
    {
        let n = path.len();
        let mut last = src;
        let mut i: usize = 0;
        while i < n
            invariant
                i <= n,
                n == path.len(),
                self.wf(),
                path_in_range(path@),
                src.in_range(),
                self@ == old(self)@.stage_route(path@, i as int),
                self@.rows == old(self)@.rows,
                self@.cursor == old(self)@.cursor,
                self@.edits.len() >= old(self)@.edits.len(),
                i > 0 ==> self@.edits.len() > old(self)@.edits.len() && self@.edits[old(
                    self,
                )@.edits.len() as int] == (Cell { pos: path@[0], c: PLUS }),
                last == (if i >= 1 && i < n {
                    path@[i - 1]
                } else if i >= 2 {
                    path@[i - 2]
                } else {
                    src
                }),
            decreases n - i,
        {
            let pos = path[i];
            assert(path@[i as int].in_range());
            let mut c = if i == 0 {
                PLUS
            } else {
                assert(path@[i - 1].in_range());
                glyph_between(path[i - 1], pos)
            };
            if i + 1 < n {
                assert(path@[i + 1].in_range());
                let next = glyph_between(pos, path[i + 1]);
                if c != PLUS && next != c {
                    c = PLUS;
                }
                last = pos;
            }
            assert(c == route_glyph(path@, i as int));
            proof {
                lemma_stage_extends(self@, false, pos, c);
                if i == 0 {
                    lemma_plus_is_never_blocked(self@, pos);
                }
            }
            let ghost before = self@;
            self.setv(false, pos, c);
            assert(i > 0 ==> self@.edits[old(self)@.edits.len() as int] == before.edits.take(
                before.edits.len() as int,
            )[old(self)@.edits.len() as int]);
            i += 1;
        }
        proof {
            lemma_plus_is_never_blocked(self@, dst);
        }
        self.setv(false, dst, PLUS);
        last
    }

    /// Draw the routed connector from `src` to `dst`: the path that the
    /// search finds. Returns the penultimate point along that path, or
    /// `None`, with nothing drawn, where the search finds no path within the
    /// grid.
    pub fn draw_path(&mut self, src: Pos, dst: Pos) -> (last: Option<Pos>)
        requires
            old(self).wf(),
            src.in_range(),
            dst.in_range(),
        ensures
            final(self)@ == old(self)@.draw_path(src, dst),
            last == old(self)@.path_approach(src, dst),
            final(self).wf(),
            last matches Some(p) ==> p.in_range(),
            final(self)@.rows == old(self)@.rows,
            final(self)@.cursor == old(self)@.cursor,
            last is None ==> final(self)@ == old(self)@,
            last is Some ==> {
                &&& final(self)@.edits.len() > old(self)@.edits.len()
                &&& final(self)@.edits[old(self)@.edits.len() as int] == (Cell { pos: src, c: PLUS })
                &&& final(self)@.edits.last() == (Cell { pos: dst, c: PLUS })
            },
    {
        match astar_route(self, src, dst) {
            Some(path) => {
                let cells = path_cells(&path);
                if is_path_in_range(&cells) {
                    assert(cells@[0] == cell_at(path@[0]));
                    assert(cells@.last() == cell_at(path@.last()));
                    Some(self.draw_route(&cells, src, dst))
                } else {
                    None
                }
            },
            None => None,
        }
    }
}

} // verus!
