//! What the drawing tools put on the grid: boxes, connectors, arrows, and
//! the erasing and moving of what is drawn.

use vstd::prelude::*;
use crate::geometry::{abs_diff, diff, Pos};
use crate::glyph::{is_whitespace, white_space, SP};
use crate::grid::{Buffer, Cell, Char, GridView};
use crate::snap::snap45_of;

verus! {

/// How the two ends of a connector are joined.
#[derive(Clone, Copy, Debug, PartialEq, Eq, Structural)]
pub enum PathMode {
    /// Two legs along the axes.
    Snap90,
    /// A leg along an axis and a diagonal leg.
    Snap45,
    /// A path around what is already drawn.
    Routed,
}

impl Default for PathMode {
    fn default() -> (mode: PathMode)
        ensures
            mode == PathMode::Snap90,
    {
        PathMode::Snap90
    }
}

/// The top left corner of the rectangle that `a` and `b` span.
pub open spec fn top_left(a: Pos, b: Pos) -> Pos {
    Pos { x: if a.x < b.x { a.x } else { b.x }, y: if a.y < b.y { a.y } else { b.y } }
}

/// The bottom right corner of the rectangle that `a` and `b` span.
pub open spec fn bottom_right(a: Pos, b: Pos) -> Pos {
    Pos { x: if a.x < b.x { b.x } else { a.x }, y: if a.y < b.y { b.y } else { a.y } }
}

/// The numbers of columns and rows of the rectangle that `a` and `b` span,
/// both corners included.
pub open spec fn extent(a: Pos, b: Pos) -> Pos {
    Pos {
        x: (abs_diff(a.x as int, b.x as int) + 1) as usize,
        y: (abs_diff(a.y as int, b.y as int) + 1) as usize,
    }
}

/// Those of the first `n` cells of a viewport that are committed or pending
/// and not white space, in the viewport's order.
pub open spec fn ink_upto(shown: Seq<Char>, n: int) -> Seq<Cell>
    decreases n,
{
    if n <= 0 || n > shown.len() {
        Seq::empty()
    } else {
        match shown[n - 1] {
            Char::Cursor(_) => ink_upto(shown, n - 1),
            tagged => if white_space(tagged.cell().c) {
                ink_upto(shown, n - 1)
            } else {
                ink_upto(shown, n - 1).push(tagged.cell())
            },
        }
    }
}

/// `cells` with a space in place of each glyph.
pub open spec fn blanked(cells: Seq<Cell>) -> Seq<Cell> {
    cells.map_values(|cell: Cell| Cell { pos: cell.pos, c: SP })
}

/// `cells`, each moved by `dx` columns and `dy` rows, but not beyond the
/// edges of the grid.
pub open spec fn shifted(cells: Seq<Cell>, dx: int, dy: int) -> Seq<Cell> {
    cells.map_values(|cell: Cell| Cell { pos: cell.pos.moved(dx, dy), c: cell.c })
}

impl GridView {
    /// The buffer after `cells` were staged in order, all with force.
    pub open spec fn force_all(self, cells: Seq<Cell>) -> GridView {
        GridView { edits: self.edits + cells, ..self }
    }

    /// The buffer after the outline of the box with the opposite corners
    /// `src` and `dst` was staged: top, right, bottom and left edge, each a
    /// line.
    pub open spec fn draw_box(self, src: Pos, dst: Pos) -> GridView {
        let tl = top_left(src, dst);
        let br = bottom_right(src, dst);
        let tr = Pos { x: br.x, y: tl.y };
        let bl = Pos { x: tl.x, y: br.y };
        self.draw_line(tl, tr).draw_line(tr, br).draw_line(br, bl).draw_line(bl, tl)
    }

    /// The bend of a snapped connector from `src` to `dst`.
    pub open spec fn bend(self, mode: PathMode, src: Pos, dst: Pos) -> Pos {
        match mode {
            PathMode::Snap90 => self.snap90(src, dst),
            _ => snap45_of(src, dst),
        }
    }

    /// The buffer after a connector from `src` to `dst` was staged: the
    /// routed path, or the two legs that meet at the bend.
    pub open spec fn draw_connector(self, mode: PathMode, src: Pos, dst: Pos) -> GridView {
        match mode {
            PathMode::Routed => self.draw_path(src, dst),
            _ => {
                let mid = self.bend(mode, src, dst);
                self.draw_line(src, mid).draw_line(mid, dst)
            },
        }
    }

    /// The buffer after an arrow from `src` to `dst` was staged: the
    /// connector, then the tip, forced and pointing the way the connector
    /// arrives at `dst`. Where a routed connector finds no path, nothing is
    /// staged.
    pub open spec fn draw_arrow(self, mode: PathMode, src: Pos, dst: Pos) -> GridView {
        match mode {
            PathMode::Routed => match self.path_approach(src, dst) {
                Some(last) => {
                    let drawn = self.draw_path(src, dst);
                    drawn.stage(true, dst, drawn.arrow_tip(last, dst))
                },
                None => self,
            },
            _ => {
                let mid = self.bend(mode, src, dst);
                if mid != dst {
                    let drawn = self.draw_line(src, mid).draw_line(mid, dst);
                    drawn.stage(true, dst, drawn.arrow_tip(mid, dst))
                } else {
                    let drawn = self.draw_line(src, dst);
                    drawn.stage(true, dst, drawn.arrow_tip(src, dst))
                }
            },
        }
    }

    /// The committed and pending cells in the rectangle that `a` and `b`
    /// span that are not white space.
    pub open spec fn visible_cells(self, a: Pos, b: Pos) -> Seq<Cell> {
        let shown = self.viewport(top_left(a, b), extent(a, b));
        ink_upto(shown, shown.len() as int)
    }
}

/// Every one of `cells` lies within the addressable grid.
pub open spec fn cells_in_range(cells: Seq<Cell>) -> bool {
    forall|i: int| 0 <= i < cells.len() ==> (#[trigger] cells[i]).pos.in_range()
}

impl Buffer {
    /// Draw the outline of the box with the opposite corners `src` and
    /// `dst`.
    pub fn draw_box(&mut self, src: Pos, dst: Pos)
        requires
            old(self).wf(),
            src.in_range(),
            dst.in_range(),
        ensures
            final(self)@ == old(self)@.draw_box(src, dst),
            final(self).wf(),
    {
        let left = if src.x < dst.x { src.x } else { dst.x };
        let right = if src.x < dst.x { dst.x } else { src.x };
        let top = if src.y < dst.y { src.y } else { dst.y };
        let bottom = if src.y < dst.y { dst.y } else { src.y };
        let tl = Pos { x: left, y: top };
        let tr = Pos { x: right, y: top };
        let br = Pos { x: right, y: bottom };
        let bl = Pos { x: left, y: bottom };
        self.draw_line(tl, tr);
        self.draw_line(tr, br);
        self.draw_line(br, bl);
        self.draw_line(bl, tl);
    }

    /// Returns the bend of a snapped connector from `src` to `dst`.
    pub fn bend(&self, mode: PathMode, src: Pos, dst: Pos) -> (mid: Pos)
        requires
            src.in_range(),
            dst.in_range(),
        ensures
            mid == self@.bend(mode, src, dst),
            mid.in_range(),
    {
        match mode {
            PathMode::Snap90 => self.snap90(src, dst),
            _ => self.snap45(src, dst),
        }
    }

    /// Draw a connector from `src` to `dst`.
    pub fn draw_connector(&mut self, mode: PathMode, src: Pos, dst: Pos)
        requires
            old(self).wf(),
            src.in_range(),
            dst.in_range(),
        ensures
            final(self)@ == old(self)@.draw_connector(mode, src, dst),
            final(self).wf(),
    {
        match mode {
            PathMode::Routed => {
                self.draw_path(src, dst);
            },
            _ => {
                let mid = self.bend(mode, src, dst);
                self.draw_line(src, mid);
                self.draw_line(mid, dst);
            },
        }
    }

    /// Draw an arrow from `src` to `dst`.
    pub fn draw_arrow(&mut self, mode: PathMode, src: Pos, dst: Pos)
        requires
            old(self).wf(),
            src.in_range(),
            dst.in_range(),
        ensures
            final(self)@ == old(self)@.draw_arrow(mode, src, dst),
            final(self).wf(),
    {
        match mode {
            PathMode::Routed => {
                if let Some(last) = self.draw_path(src, dst) {
                    self.draw_arrow_tip(last, dst);
                }
            },
            _ => {
                let mid = self.bend(mode, src, dst);
                if mid != dst {
                    self.draw_line(src, mid);
                    self.draw_line(mid, dst);
                    self.draw_arrow_tip(mid, dst);
                } else {
                    self.draw_line(src, dst);
                    self.draw_arrow_tip(src, dst);
                }
            },
        }
    }

    /// Returns the committed and pending cells in the rectangle that `a`
    /// and `b` span that are not white space.
    pub fn visible_cells(&self, a: Pos, b: Pos) -> (cells: Vec<Cell>)
        requires
            self.wf(),
            a.in_range(),
            b.in_range(),
        ensures
            cells@ == self@.visible_cells(a, b),
            cells_in_range(cells@),
    {
        let offset = Pos {
            x: if a.x < b.x { a.x } else { b.x },
            y: if a.y < b.y { a.y } else { b.y },
        };
        let size = Pos { x: diff(a.x, b.x) + 1, y: diff(a.y, b.y) + 1 };
        let shown = self.iter_within(offset, size);
        let mut cells: Vec<Cell> = Vec::new();
        let mut i: usize = 0;
        while i < shown.len()
            invariant
                i <= shown.len(),
                cells@ == ink_upto(shown@, i as int),
                cells_in_range(cells@),
                forall|j: int| 0 <= j < shown@.len() ==> (#[trigger] shown@[j]).cell().pos.in_range(),
            decreases shown.len() - i,
        {
            let tagged = shown[i];
            assert(shown@[i as int].cell().pos.in_range());
            match tagged {
                Char::Clean(cell) => {
                    if !cell.is_whitespace() {
                        cells.push(cell);
                    }
                },
                Char::Dirty(cell) => {
                    if !cell.is_whitespace() {
                        cells.push(cell);
                    }
                },
                Char::Cursor(_) => {},
            }
            i += 1;
        }
        cells
    }

    /// Stage every one of `cells`, with force.
    pub fn set_cells(&mut self, cells: &Vec<Cell>)
        requires
            old(self).wf(),
            cells_in_range(cells@),
        ensures
            final(self)@ == old(self)@.force_all(cells@),
            final(self).wf(),
    {
        let mut i: usize = 0;
        assert(old(self)@.edits + cells@.take(0) =~= old(self)@.edits);
        while i < cells.len()
            invariant
                i <= cells.len(),
                self.wf(),
                cells_in_range(cells@),
                self@ == old(self)@.force_all(cells@.take(i as int)),
            decreases cells.len() - i,
        {
            let cell = cells[i];
            assert(cells@[i as int].pos.in_range());
            self.setv(true, cell.pos, cell.c);
            assert(old(self)@.edits + cells@.take(i + 1) =~= (old(self)@.edits + cells@.take(
                i as int,
            )).push(cell));
            i += 1;
        }
        assert(cells@.take(cells@.len() as int) =~= cells@);
    }

    /// Stage a space, with force, at every one of `cells`.
    pub fn erase_cells(&mut self, cells: &Vec<Cell>)
        requires
            old(self).wf(),
            cells_in_range(cells@),
        ensures
            final(self)@ == old(self)@.force_all(blanked(cells@)),
            final(self).wf(),
    {
        let mut i: usize = 0;
        assert(old(self)@.edits + blanked(cells@).take(0) =~= old(self)@.edits);
        while i < cells.len()
            invariant
                i <= cells.len(),
                self.wf(),
                cells_in_range(cells@),
                self@ == old(self)@.force_all(blanked(cells@).take(i as int)),
            decreases cells.len() - i,
        {
            let cell = cells[i];
            assert(cells@[i as int].pos.in_range());
            self.setv(true, cell.pos, SP);
            assert(old(self)@.edits + blanked(cells@).take(i + 1) =~= (old(self)@.edits + blanked(
                cells@,
            ).take(i as int)).push(Cell { pos: cell.pos, c: SP }));
            i += 1;
        }
        assert(blanked(cells@).take(cells@.len() as int) =~= blanked(cells@));
    }

    /// Stage every one of `cells`, with force, `dx` columns and `dy` rows
    /// from where it is.
    pub fn move_cells(&mut self, cells: &Vec<Cell>, dx: isize, dy: isize)
        requires
            old(self).wf(),
            cells_in_range(cells@),
        ensures
            final(self)@ == old(self)@.force_all(shifted(cells@, dx as int, dy as int)),
            final(self).wf(),
    {
        let ghost target = shifted(cells@, dx as int, dy as int);
        let mut i: usize = 0;
        assert(old(self)@.edits + target.take(0) =~= old(self)@.edits);
        while i < cells.len()
            invariant
                i <= cells.len(),
                self.wf(),
                cells_in_range(cells@),
                target == shifted(cells@, dx as int, dy as int),
                self@ == old(self)@.force_all(target.take(i as int)),
            decreases cells.len() - i,
        {
            let cell = cells[i];
            assert(cells@[i as int].pos.in_range());
            let to = cell.translate(dx, dy).pos;
            self.setv(true, to, cell.c);
            assert(old(self)@.edits + target.take(i + 1) =~= (old(self)@.edits + target.take(
                i as int,
            )).push(Cell { pos: to, c: cell.c }));
            i += 1;
        }
        assert(target.take(cells@.len() as int) =~= target);
    }
}

} // verus!
