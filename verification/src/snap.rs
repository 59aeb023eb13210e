//! Bend points: where a connector of two straight legs turns.

use vstd::prelude::*;
use crate::geometry::{abs_diff, diff, line_slope, Pos};
use crate::glyph::DASH;
use crate::grid::{Buffer, GridView};

verus! {

/// The bend of a connector that leaves `src` along an axis and reaches `dst`
/// along a diagonal: `dst` moved towards `src` along both axes by the
/// shorter of their two distances. Where the points share a row or a column
/// there is no bend, and the result is `src`.
pub open spec fn snap45_of(src: Pos, dst: Pos) -> Pos {
    let dx = dst.x - src.x;
    let dy = dst.y - src.y;
    let delta = if abs_diff(src.y as int, dst.y as int) < abs_diff(src.x as int, dst.x as int) {
        abs_diff(src.y as int, dst.y as int)
    } else {
        abs_diff(src.x as int, dst.x as int)
    };
    if dx < 0 && dy < 0 {
        Pos { x: (dst.x + delta) as usize, y: (dst.y + delta) as usize }
    } else if dx > 0 && dy < 0 {
        Pos { x: (dst.x - delta) as usize, y: (dst.y + delta) as usize }
    } else if dx < 0 && dy > 0 {
        Pos { x: (dst.x + delta) as usize, y: (dst.y - delta) as usize }
    } else if dx > 0 && dy > 0 {
        Pos { x: (dst.x - delta) as usize, y: (dst.y - delta) as usize }
    } else {
        src
    }
}

impl GridView {
    /// The bend of an axis-aligned connector from `src` to `dst`: in the
    /// row of `src` where `dst` already holds a `-`, so that the second leg
    /// continues that run; in the column of `src` otherwise.
    pub open spec fn snap90(self, src: Pos, dst: Pos) -> Pos {
        if self.get(dst) == Some(DASH) {
            Pos { x: dst.x, y: src.y }
        } else {
            Pos { x: src.x, y: dst.y }
        }
    }
}

impl Buffer {
    /// Returns the bend point of a connector from `src` to `dst` whose
    /// second leg runs at 45 degrees.
    pub fn snap45(&self, src: Pos, dst: Pos) -> (mid: Pos)
        requires
            src.in_range(),
            dst.in_range(),
        ensures
            mid == snap45_of(src, dst),
            mid.in_range(),
    {
        let dy = diff(src.y, dst.y);
        let dx = diff(src.x, dst.x);
        let delta = if dy < dx { dy } else { dx };
        let slope = line_slope(src, dst);
        if slope.0 < 0 && slope.1 < 0 {
            Pos { x: dst.x + delta, y: dst.y + delta }
        } else if slope.0 > 0 && slope.1 < 0 {
            Pos { x: dst.x - delta, y: dst.y + delta }
        } else if slope.0 < 0 && slope.1 > 0 {
            Pos { x: dst.x + delta, y: dst.y - delta }
        } else if slope.0 > 0 && slope.1 > 0 {
            Pos { x: dst.x - delta, y: dst.y - delta }
        } else {
            src
        }
    }

    /// Returns the bend point of a connector from `src` to `dst` whose legs
    /// run along the axes.
    pub fn snap90(&self, src: Pos, dst: Pos) -> (mid: Pos)
        ensures
            mid == self@.snap90(src, dst),
            src.in_range() && dst.in_range() ==> mid.in_range(),
    {
        match self.getv(dst) {
            Some(c) if c == DASH => Pos { x: dst.x, y: src.y },
            _ => Pos { x: src.x, y: dst.y },
        }
    }
}

} // verus!
