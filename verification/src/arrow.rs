//! Arrow tips: the glyph that ends an arrow, chosen from the direction of
//! its last leg and from what is drawn around its end.

use vstd::prelude::*;
use crate::geometry::{line_slope, Pos};
use crate::glyph::{PLUS, TIP_E, TIP_N, TIP_S, TIP_W};
use crate::grid::{Buffer, GridView};

verus! {

impl GridView {
    /// The committed cell above `pos` is visible.
    pub open spec fn ink_north(self, pos: Pos) -> bool {
        pos.y > 0 && self.visible(pos.north())
    }

    /// The committed cell right of `pos` is visible.
    pub open spec fn ink_east(self, pos: Pos) -> bool {
        self.visible(pos.east())
    }

    /// The committed cell below `pos` is visible.
    pub open spec fn ink_south(self, pos: Pos) -> bool {
        self.visible(pos.south())
    }

    /// The committed cell left of `pos` is visible.
    pub open spec fn ink_west(self, pos: Pos) -> bool {
        pos.x > 0 && self.visible(pos.west())
    }

    /// The tip of an arrow whose last leg runs from `src` to `dst`.
    ///
    /// Along an axis the tip points ahead; it turns sideways where only one
    /// side of `dst` is drawn on and the cell ahead is not. On a diagonal it
    /// points sideways where the cell on that side is drawn on, and up or
    /// down otherwise. An arrow of no length ends in a `+`.
    pub open spec fn arrow_tip(self, src: Pos, dst: Pos) -> char {
        let dx = dst.x - src.x;
        let dy = dst.y - src.y;
        let north = self.ink_north(dst);
        let east = self.ink_east(dst);
        let south = self.ink_south(dst);
        let west = self.ink_west(dst);
        if dx == 0 && dy < 0 {
            if north || (west && east) {
                TIP_N
            } else if west {
                TIP_W
            } else if east {
                TIP_E
            } else {
                TIP_N
            }
        } else if dy == 0 && dx > 0 {
            if east || (north && south) {
                TIP_E
            } else if north {
                TIP_N
            } else if south {
                TIP_S
            } else {
                TIP_E
            }
        } else if dx == 0 && dy > 0 {
            if south || (east && west) {
                TIP_S
            } else if east {
                TIP_E
            } else if west {
                TIP_W
            } else {
                TIP_S
            }
        } else if dy == 0 && dx < 0 {
            if west || (south && north) {
                TIP_W
            } else if south {
                TIP_S
            } else if north {
                TIP_N
            } else {
                TIP_W
            }
        } else if dx > 0 && dy > 0 {
            if east {
                TIP_E
            } else {
                TIP_S
            }
        } else if dx > 0 && dy < 0 {
            if east {
                TIP_E
            } else {
                TIP_N
            }
        } else if dx < 0 && dy > 0 {
            if west {
                TIP_W
            } else {
                TIP_S
            }
        } else if dx < 0 && dy < 0 {
            if west {
                TIP_W
            } else {
                TIP_N
            }
        } else {
            PLUS
        }
    }
}

impl Buffer {
    /// Returns the tip for an arrow from `src` to `dst`.
    pub fn arrow_tip(&self, src: Pos, dst: Pos) -> (tip: char)
        requires
            src.in_range(),
            dst.in_range(),
        ensures
            tip == self@.arrow_tip(src, dst),
    {
        let north = dst.y > 0 && self.visible(Pos { x: dst.x, y: dst.y - 1 });
        let east = self.visible(Pos { x: dst.x + 1, y: dst.y });
        let south = self.visible(Pos { x: dst.x, y: dst.y + 1 });
        let west = dst.x > 0 && self.visible(Pos { x: dst.x - 1, y: dst.y });
        let slope = line_slope(src, dst);
        if slope.0 == 0 && slope.1 == -1 {
            if north || (west && east) {
                TIP_N
            } else if west {
                TIP_W
            } else if east {
                TIP_E
            } else {
                TIP_N
            }
        } else if slope.0 == 1 && slope.1 == 0 {
            if east || (north && south) {
                TIP_E
            } else if north {
                TIP_N
            } else if south {
                TIP_S
            } else {
                TIP_E
            }
        } else if slope.0 == 0 && slope.1 == 1 {
            if south || (east && west) {
                TIP_S
            } else if east {
                TIP_E
            } else if west {
                TIP_W
            } else {
                TIP_S
            }
        } else if slope.0 == -1 && slope.1 == 0 {
            if west || (south && north) {
                TIP_W
            } else if south {
                TIP_S
            } else if north {
                TIP_N
            } else {
                TIP_W
            }
        } else if slope.0 > 0 && slope.1 > 0 {
            if east {
                TIP_E
            } else {
                TIP_S
            }
        } else if slope.0 > 0 && slope.1 < 0 {
            if east {
                TIP_E
            } else {
                TIP_N
            }
        } else if slope.0 < 0 && slope.1 > 0 {
            if dst.x == 0 {
                TIP_S
            } else if west {
                TIP_W
            } else {
                TIP_S
            }
        } else if slope.0 < 0 && slope.1 < 0 {
            if dst.x == 0 {
                TIP_N
            } else if west {
                TIP_W
            } else {
                TIP_N
            }
        } else {
            PLUS
        }
    }

    /// Draw an arrow tip for an arrow from `src` to `dst`. The tip is
    /// forced, so it replaces whatever `dst` holds.
    pub fn draw_arrow_tip(&mut self, src: Pos, dst: Pos)
        requires
            old(self).wf(),
            src.in_range(),
            dst.in_range(),
        ensures
            final(self)@ == old(self)@.stage(true, dst, old(self)@.arrow_tip(src, dst)),
            final(self).wf(),
    {
        let tip = self.arrow_tip(src, dst);
        self.setv(true, dst, tip);
    }
}

} // verus!
