//! How far to scroll the view and how much canvas to keep for the diagram,
//! one axis at a time. Sums stop at the largest `usize`.

use vstd::prelude::*;
use crate::geometry::abs_diff;

verus! {

/// `v`, or the largest `usize` where `v` exceeds it.
pub open spec fn capped(v: int) -> int {
    if v > usize::MAX {
        usize::MAX as int
    } else {
        v
    }
}

/// The larger of `a` and `b`.
pub open spec fn larger(a: int, b: int) -> int {
    if a < b {
        b
    } else {
        a
    }
}

/// The smaller of `a` and `b`.
pub open spec fn smaller(a: int, b: int) -> int {
    if a < b {
        a
    } else {
        b
    }
}

/// The offset `x` after the pointer dragged the view from `old` to `new`:
/// the view follows the pointer, so the offset moves the other way, and not
/// below zero.
pub open spec fn dragged(x: int, new: int, old: int) -> int {
    if new > old {
        larger(x - (new - old), 0)
    } else {
        capped(x + (old - new))
    }
}

/// The offset of a view that shows `offset ..= far` after it scrolled to
/// show `pos`: moved by at least `step` towards `pos` where `pos` lies at or
/// beyond an edge, but not below zero.
pub open spec fn scrolled(offset: int, far: int, pos: int, step: int) -> int {
    if pos >= far {
        capped(offset + larger(step, pos - far))
    } else if pos <= offset {
        offset - larger(smaller(step, offset), offset - pos)
    } else {
        offset
    }
}

/// The canvas after it grew to hold `pos`: by at least `step` where `pos`
/// lies at or beyond its edge.
pub open spec fn reserved(canvas: int, pos: int, step: int) -> int {
    if pos + 1 >= canvas {
        capped(canvas + larger(step, pos + 1 - canvas))
    } else {
        canvas
    }
}

/// The canvas after the pointer panned the view from `old` to `pos`: grown
/// by the distance panned where the pointer moved towards the origin and the
/// far edge of the view, `far`, lies within four times that distance and
/// four of the end of the content, `inner`.
pub open spec fn panned(canvas: int, pos: int, old: int, far: int, inner: int, reach: int) -> int {
    if pos < old && abs_diff(far, inner) <= (old - pos + 1) * reach {
        capped(canvas + (old - pos))
    } else {
        canvas
    }
}

/// Returns `a + b`, or the largest `usize` where the sum exceeds it.
fn add_capped(a: usize, b: usize) -> (r: usize)
    ensures
        r == capped(a + b),
{
    if b > usize::MAX - a {
        usize::MAX
    } else {
        a + b
    }
}

/// Returns the offset `x` after the pointer dragged the view from `old` to
/// `new`.
pub fn drag(x: usize, new: usize, old: usize) -> (r: usize)
    ensures
        r == dragged(x as int, new as int, old as int),
{
    if new > old {
        if new - old > x {
            0
        } else {
            x - (new - old)
        }
    } else {
        add_capped(x, old - new)
    }
}

/// Returns the offset of a view that shows `offset ..= far` after it
/// scrolled to show `pos`, moving at least `step` if it moves.
pub fn scroll_axis(offset: usize, far: usize, pos: usize, step: usize) -> (r: usize)
    ensures
        r == scrolled(offset as int, far as int, pos as int, step as int),
{
    if pos >= far {
        let by = if step < pos - far { pos - far } else { step };
        add_capped(offset, by)
    } else if pos <= offset {
        let least = if step < offset { step } else { offset };
        let by = if least < offset - pos { offset - pos } else { least };
        offset - by
    } else {
        offset
    }
}

/// Returns the canvas after it grew to hold `pos`, by at least `step` if it
/// grows.
pub fn reserve_axis(canvas: usize, pos: usize, step: usize) -> (r: usize)
    ensures
        r == reserved(canvas as int, pos as int, step as int),
{
    if pos >= canvas || pos + 1 >= canvas {
        let over = if pos >= canvas { add_capped(pos - canvas, 1) } else { 0 };
        let by = if step < over { over } else { step };
        let grown = add_capped(canvas, by);
        assert(grown == capped(canvas + larger(step as int, pos + 1 - canvas)));
        grown
    } else {
        canvas
    }
}

/// Returns the canvas after the pointer panned the view from `old` to
/// `pos`, with `reach` for the factor: four along columns, two along rows.
pub fn pan_axis(canvas: usize, pos: usize, old: usize, far: usize, inner: usize, reach: u8) -> (r:
    usize)
    ensures
        r == panned(
            canvas as int,
            pos as int,
            old as int,
            far as int,
            inner as int,
            reach as int,
        ),
{
    if pos < old {
        let moved = old - pos;
        let gap = if far >= inner { far - inner } else { inner - far };
        assert((moved + 1) * reach <= 0x1_0000_0000_0000_0000 * 255) by (nonlinear_arith)
            requires
                0 <= moved + 1 <= 0x1_0000_0000_0000_0000,
                0 <= reach <= 255,
        ;
        if gap as u128 <= (moved as u128 + 1) * (reach as u128) {
            add_capped(canvas, moved)
        } else {
            canvas
        }
    } else {
        canvas
    }
}

} // verus!
