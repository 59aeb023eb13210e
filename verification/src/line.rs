//! Straight lines: the cells between two points, and the glyph each of them
//! gets from the direction of the line at that cell.

use vstd::prelude::*;
use line_drawing::Bresenham;
use crate::geometry::{line_slope, Pos};
use crate::glyph::{rank, DASH, DIAG, GAID, PIPE, PLUS};
use crate::grid::{Buffer, Cell, GridView};

verus! {

/// The glyph of a line that advances by `(dx, dy)`: `|` where it does not
/// move sideways, `-` where it moves sideways only, `\` where both
/// coordinates grow or both shrink, `/` where one grows and one shrinks.
pub open spec fn segment_glyph(dx: int, dy: int) -> char {
    if dx == 0 {
        PIPE
    } else if dy == 0 {
        DASH
    } else if (dx > 0) == (dy > 0) {
        GAID
    } else {
        DIAG
    }
}

/// The glyph of the `i`-th step of a line, from `s` to `e`: the first step
/// is the line's origin and a `+`.
pub open spec fn step_glyph(i: int, s: Pos, e: Pos) -> char {
    if i == 0 {
        PLUS
    } else {
        segment_glyph(e.x - s.x, e.y - s.y)
    }
}

/// `p` lies in the smallest rectangle that holds `a` and `b`.
pub open spec fn in_box(p: Pos, a: Pos, b: Pos) -> bool {
    &&& a.x <= p.x <= b.x || b.x <= p.x <= a.x
    &&& a.y <= p.y <= b.y || b.y <= p.y <= a.y
}

/// The steps of Bresenham's line from `src` to `dst`: each cell of the line
/// but the last, paired with the cell that follows it.
pub uninterp spec fn line_steps(src: Pos, dst: Pos) -> Seq<(Pos, Pos)>;

/// `Bresenham::new(src, dst).steps()` of `line_drawing`, collected.
///
/// The line depends on its end points alone. It includes both of them and
/// moves each coordinate from the start's towards the end's only, so every
/// cell lies in the box of the two; a line of one cell has no step, any other
/// line starts its first step at `src`.
#[verifier::external_body]
fn bresenham_steps(src: Pos, dst: Pos) -> (steps: Vec<(Pos, Pos)>)
    requires
        src.in_range(),
        dst.in_range(),
    ensures
        steps@ == line_steps(src, dst),
        src == dst ==> steps@.len() == 0,
        src != dst ==> steps@.len() > 0 && steps@[0].0 == src,
        forall|i: int|
            0 <= i < steps@.len() ==> in_box((#[trigger] steps@[i]).0, src, dst) && in_box(
                steps@[i].1,
                src,
                dst,
            ),
{
    let mut steps = Vec::new();
    let line = Bresenham::new((src.x as isize, src.y as isize), (dst.x as isize, dst.y as isize));
    for (s, e) in line.steps() {
        steps.push(
            (Pos { x: s.0 as usize, y: s.1 as usize }, Pos { x: e.0 as usize, y: e.1 as usize }),
        );
    }
    steps
}

/// Returns the glyph of a line that runs from `s` to `e`.
pub fn glyph_between(s: Pos, e: Pos) -> (c: char)
    requires
        s.in_range(),
        e.in_range(),
    ensures
        c == segment_glyph(e.x - s.x, e.y - s.y),
{
    let slope = line_slope(s, e);
    if slope.0 == 0 {
        PIPE
    } else if slope.1 == 0 {
        DASH
    } else if (slope.0 > 0) == (slope.1 > 0) {
        GAID
    } else {
        DIAG
    }
}

impl GridView {
    /// The buffer after the first `n` of `steps` were staged, each at its
    /// starting cell and without force.
    pub open spec fn stage_steps(self, steps: Seq<(Pos, Pos)>, n: int) -> GridView
        decreases n,
    {
        if n <= 0 || n > steps.len() {
            self
        } else {
            let (s, e) = steps[n - 1];
            self.stage_steps(steps, n - 1).stage(false, s, step_glyph(n - 1, s, e))
        }
    }

    /// The buffer after a line of `steps` that ends at `dst` was staged: the
    /// steps in order, then a `+` at `dst`, all without force.
    pub open spec fn draw_steps(self, steps: Seq<(Pos, Pos)>, dst: Pos) -> GridView {
        self.stage_steps(steps, steps.len() as int).stage(false, dst, PLUS)
    }

    /// The buffer after the line from `src` to `dst` was staged.
    pub open spec fn draw_line(self, src: Pos, dst: Pos) -> GridView {
        self.draw_steps(line_steps(src, dst), dst)
    }
}

/// Nothing outranks a `+`.
pub proof fn lemma_plus_is_never_blocked(g: GridView, pos: Pos)
    ensures
        !g.blocked(pos, PLUS),
        g.stage(false, pos, PLUS).edits == g.edits.push(Cell { pos, c: PLUS }),
{
    assert forall|c: char| #[trigger] rank(c) <= 5 by {}
}

/// Staging leaves the edits that were pending in place and adds at most one.
pub proof fn lemma_stage_extends(g: GridView, force: bool, pos: Pos, c: char)
    ensures
        g.stage(force, pos, c).rows == g.rows,
        g.stage(force, pos, c).cursor == g.cursor,
        g.edits.len() <= g.stage(force, pos, c).edits.len() <= g.edits.len() + 1,
        g.stage(force, pos, c).edits.take(g.edits.len() as int) == g.edits,
{
    assert(g.stage(force, pos, c).edits.take(g.edits.len() as int) =~= g.edits);
}

/// Staging the steps of a line leaves the edits that were pending in place.
pub proof fn lemma_stage_steps_extends(g: GridView, steps: Seq<(Pos, Pos)>, n: int)
    ensures
        g.stage_steps(steps, n).rows == g.rows,
        g.stage_steps(steps, n).cursor == g.cursor,
        g.edits.len() <= g.stage_steps(steps, n).edits.len(),
        g.stage_steps(steps, n).edits.take(g.edits.len() as int) == g.edits,
    decreases n,
{
    if 0 < n <= steps.len() {
        lemma_stage_steps_extends(g, steps, n - 1);
        let before = g.stage_steps(steps, n - 1);
        let (s, e) = steps[n - 1];
        lemma_stage_extends(before, false, s, step_glyph(n - 1, s, e));
        let after = g.stage_steps(steps, n);
        assert(after.edits.take(g.edits.len() as int) =~= before.edits.take(
            g.edits.len() as int,
        ));
    } else {
        assert(g.edits.take(g.edits.len() as int) =~= g.edits);
    }
}

impl Buffer {
    /// Draw a line from `src` to `dst`.
    ///
    /// The line starts with a `+` at its origin, which is `src` unless the
    /// line is a single cell, and ends with a `+` at `dst`.
    pub fn draw_line(&mut self, src: Pos, dst: Pos)
        requires
            old(self).wf(),
            src.in_range(),
            dst.in_range(),
        ensures
            final(self)@ == old(self)@.draw_line(src, dst),
            final(self).wf(),
            final(self)@.rows == old(self)@.rows,
            final(self)@.cursor == old(self)@.cursor,
            final(self)@.edits.len() > old(self)@.edits.len(),
            final(self)@.edits.take(old(self)@.edits.len() as int) == old(self)@.edits,
            final(self)@.edits.last() == (Cell { pos: dst, c: PLUS }),
            src != dst ==> final(self)@.edits[old(self)@.edits.len() as int] == (Cell {
                pos: src,
                c: PLUS,
            }),
            src == dst ==> final(self)@.edits == old(self)@.edits.push(Cell { pos: dst, c: PLUS }),
    {
        let steps = bresenham_steps(src, dst);
        let mut i: usize = 0;
        while i < steps.len()
            invariant
                i <= steps.len(),
                self.wf(),
                src.in_range(),
                dst.in_range(),
                forall|j: int|
                    0 <= j < steps@.len() ==> in_box((#[trigger] steps@[j]).0, src, dst) && in_box(
                        steps@[j].1,
                        src,
                        dst,
                    ),
                self@ == old(self)@.stage_steps(steps@, i as int),
            decreases steps.len() - i,
        {
            let (s, e) = steps[i];
            assert(steps@[i as int] == (s, e));
            let c = if i == 0 {
                PLUS
            } else {
                glyph_between(s, e)
            };
            self.setv(false, s, c);
            i += 1;
        }
        proof {
            let g = old(self)@;
            let n = steps@.len() as int;
            lemma_stage_steps_extends(g, steps@, n);
            lemma_plus_is_never_blocked(g.stage_steps(steps@, n), dst);
            if src != dst {
                lemma_stage_steps_extends(g, steps@, 1);
                lemma_plus_is_never_blocked(g, src);
                let first = g.stage_steps(steps@, 1);
                assert(g.stage_steps(steps@, 0) == g);
                assert(first.edits == g.edits.push(Cell { pos: src, c: PLUS }));
                lemma_stage_steps_from(g, steps@, 1, n);
            }
        }
        self.setv(false, dst, PLUS);
        proof {
            let g = old(self)@;
            let all = g.stage_steps(steps@, steps@.len() as int);
            assert(self@.edits.take(g.edits.len() as int) =~= all.edits.take(g.edits.len() as int));
            if src != dst {
                let first = g.stage_steps(steps@, 1);
                let k = g.edits.len() as int;
                assert(all.edits.take(first.edits.len() as int)[k] == first.edits[k]);
            }
        }
    }
}

/// Staging further steps of a line leaves the edits staged by its first steps
/// in place.
pub proof fn lemma_stage_steps_from(g: GridView, steps: Seq<(Pos, Pos)>, m: int, n: int)
    requires
        0 <= m <= n <= steps.len(),
    ensures
        g.stage_steps(steps, m).edits.len() <= g.stage_steps(steps, n).edits.len(),
        g.stage_steps(steps, n).edits.take(g.stage_steps(steps, m).edits.len() as int)
            == g.stage_steps(steps, m).edits,
    decreases n,
{
    let base = g.stage_steps(steps, m);
    if m < n {
        lemma_stage_steps_from(g, steps, m, n - 1);
        let before = g.stage_steps(steps, n - 1);
        let (s, e) = steps[n - 1];
        lemma_stage_extends(before, false, s, step_glyph(n - 1, s, e));
        assert(g.stage_steps(steps, n).edits.take(base.edits.len() as int) =~= before.edits.take(
            base.edits.len() as int,
        ));
    } else {
        assert(base.edits.take(base.edits.len() as int) =~= base.edits);
    }
}

} // verus!
