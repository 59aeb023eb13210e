//! Grid positions and the integer geometry the drawing engine is built on.

use vstd::prelude::*;

verus! {

/// Largest coordinate the engine addresses.
///
/// Every sum or difference of two coordinates within this bound fits `isize`
/// and `usize` on 32-bit and 64-bit targets alike.
pub const MAX_COORD: usize = 0x3fff_ffff;

/// A cell position: column `x`, row `y`.
#[derive(Clone, Copy, Debug, PartialEq, Eq, Hash, Structural)]
pub struct Pos {
    pub x: usize,
    pub y: usize,
}

impl Pos {
    /// Both coordinates are at most [`MAX_COORD`].
    pub open spec fn in_range(self) -> bool {
        self.x <= MAX_COORD && self.y <= MAX_COORD
    }

    /// The cell above this one.
    pub open spec fn north(self) -> Pos {
        Pos { x: self.x, y: (self.y - 1) as usize }
    }

    /// The cell below this one.
    pub open spec fn south(self) -> Pos {
        Pos { x: self.x, y: (self.y + 1) as usize }
    }

    /// The cell left of this one.
    pub open spec fn west(self) -> Pos {
        Pos { x: (self.x - 1) as usize, y: self.y }
    }

    /// The cell right of this one.
    pub open spec fn east(self) -> Pos {
        Pos { x: (self.x + 1) as usize, y: self.y }
    }

    /// This cell moved by `dx` columns and `dy` rows, but not beyond the
    /// edges of the grid.
    pub open spec fn moved(self, dx: int, dy: int) -> Pos {
        Pos { x: clamp(self.x + dx) as usize, y: clamp(self.y + dy) as usize }
    }

    /// Returns the position in column `x` of row `y`.
    pub fn new(x: usize, y: usize) -> (p: Pos)
        ensures
            p == (Pos { x, y }),
    {
        Pos { x, y }
    }

    /// Returns this cell moved by `dx` columns and `dy` rows, but not beyond
    /// the edges of the grid.
    pub fn translate(self, dx: isize, dy: isize) -> (p: Pos)
        requires
            self.in_range(),
        ensures
            p == self.moved(dx as int, dy as int),
            p.in_range(),
    {
        Pos { x: shift(self.x, dx), y: shift(self.y, dy) }
    }

    /// Returns this cell moved right by `dx` columns and down by `dy` rows,
    /// but not beyond the edges of the grid.
    pub fn offset(self, dx: usize, dy: usize) -> (p: Pos)
        requires
            self.in_range(),
        ensures
            p == self.moved(dx as int, dy as int),
            p.in_range(),
    {
        Pos {
            x: if dx > MAX_COORD - self.x { MAX_COORD } else { self.x + dx },
            y: if dy > MAX_COORD - self.y { MAX_COORD } else { self.y + dy },
        }
    }

    /// Tells whether both coordinates are at most [`MAX_COORD`].
    pub fn is_in_range(&self) -> (b: bool)
        ensures
            b == self.in_range(),
    {
        self.x <= MAX_COORD && self.y <= MAX_COORD
    }
}

/// `v`, or the nearest coordinate of the grid where `v` is none.
pub open spec fn clamp(v: int) -> int {
    if v < 0 {
        0
    } else if v > MAX_COORD {
        MAX_COORD as int
    } else {
        v
    }
}

/// Returns `v + d`, or the nearest coordinate of the grid where that is
/// none.
pub fn shift(v: usize, d: isize) -> (r: usize)
    requires
        v <= MAX_COORD,
    ensures
        r == clamp(v + d),
{
    if d >= 0 {
        if d > (MAX_COORD - v) as isize {
            MAX_COORD
        } else {
            v + d as usize
        }
    } else if d < -(v as isize) {
        0
    } else {
        v - ((-d) as usize)
    }
}

/// Distance between `a` and `b` on one axis.
pub open spec fn abs_diff(a: int, b: int) -> int {
    if a >= b {
        a - b
    } else {
        b - a
    }
}

/// `-1`, `0` or `1` as `v` is negative, zero or positive.
pub open spec fn signum(v: int) -> int {
    if v > 0 {
        1
    } else if v < 0 {
        -1
    } else {
        0
    }
}

/// The product `a * b`, named so that quantifiers can match on it.
pub open spec fn times(a: int, b: int) -> int {
    a * b
}

/// `n` is a multiple of `d`.
pub open spec fn divides(d: int, n: int) -> bool {
    exists|k: int| n == #[trigger] times(d, k)
}

/// `g` is the greatest common divisor of `a` and `b`: a non-negative common
/// divisor that every common divisor divides. For `a == b == 0` it is `0`.
pub open spec fn is_gcd(g: int, a: int, b: int) -> bool {
    &&& g >= 0
    &&& divides(g, a)
    &&& divides(g, b)
    &&& forall|d: int| #[trigger] divides(d, a) && divides(d, b) ==> divides(d, g)
}

/// `r` is the step from one point to another, `(dx, dy)`, in lowest terms.
pub open spec fn is_slope(r: (int, int), dx: int, dy: int) -> bool {
    exists|g: int|
        {
            &&& #[trigger] is_gcd(g, dx, dy)
            &&& dx == g * r.0
            &&& dy == g * r.1
            &&& g == 0 ==> r == (0int, 0int)
        }
}

/// Returns the absolute difference between `a` and `b`.
pub fn diff(a: usize, b: usize) -> (d: usize)
    ensures
        d == abs_diff(a as int, b as int),
{
    if a >= b {
        a - b
    } else {
        b - a
    }
}

/// Returns `true` if `a` is within `w` of `b` (inclusive).
pub fn within(w: usize, a: usize, b: usize) -> (r: bool)
    ensures
        r == (abs_diff(a as int, b as int) <= w),
{
    diff(a, b) <= w
}

/// Everything divides zero.
proof fn lemma_divides_zero(d: int)
    ensures
        divides(d, 0),
{
    assert(0 == times(d, 0));
}

/// A number divides itself and its negation.
proof fn lemma_divides_self(d: int)
    ensures
        divides(d, d),
        divides(d, -d),
{
    assert(d == times(d, 1));
    assert(-d == times(d, -1));
}

/// A divisor of a number divides its negation.
proof fn lemma_divides_negate(d: int, n: int)
    requires
        divides(d, n),
    ensures
        divides(d, -n),
{
    let k = choose|k: int| n == #[trigger] times(d, k);
    assert(-n == times(d, -k)) by (nonlinear_arith)
        requires
            n == d * k,
    {
    }
}

/// `d` divides `x + q * y` whenever it divides `x` and `y`.
proof fn lemma_divides_combine(d: int, x: int, y: int, q: int)
    requires
        divides(d, x),
        divides(d, y),
    ensures
        divides(d, x + q * y),
{
    let kx = choose|k: int| x == #[trigger] times(d, k);
    let ky = choose|k: int| y == #[trigger] times(d, k);
    assert(x + q * y == times(d, kx + q * ky)) by (nonlinear_arith)
        requires
            x == d * kx,
            y == d * ky,
    {
    }
}

/// One step of Euclid's algorithm keeps the common divisors.
proof fn lemma_euclid_step(x: int, y: int, d: int)
    requires
        x >= 0,
        y > 0,
    ensures
        (divides(d, x) && divides(d, y)) <==> (divides(d, y) && divides(d, x % y)),
{
    let q = x / y;
    let r = x % y;
    assert(x == q * y + r) by (nonlinear_arith)
        requires
            y > 0,
            q == x / y,
            r == x % y,
    {
    }
    if divides(d, x) && divides(d, y) {
        lemma_divides_combine(d, x, y, -q);
        assert(x + (-q) * y == r) by (nonlinear_arith)
            requires
                x == q * y + r,
        {
        }
    }
    if divides(d, y) && divides(d, r) {
        lemma_divides_combine(d, r, y, q);
    }
}

/// Returns the greatest common divisor of `a` and `b`.
pub fn gcd(a: isize, b: isize) -> (g: isize)
    requires
        a > isize::MIN,
        b > isize::MIN,
    ensures
        is_gcd(g as int, a as int, b as int),
        a == 0 ==> g == abs_diff(b as int, 0),
        b == 0 ==> g == abs_diff(a as int, 0),
{
    let mut x: isize = if a < 0 { -a } else { a };
    let mut y: isize = if b < 0 { -b } else { b };
    proof {
        assert forall|d: int|
            (#[trigger] divides(d, x as int) && divides(d, y as int)) <==> (divides(d, a as int)
                && divides(d, b as int)) by {
            if divides(d, x as int) {
                lemma_divides_negate(d, x as int);
            }
            if divides(d, y as int) {
                lemma_divides_negate(d, y as int);
            }
            if divides(d, a as int) {
                lemma_divides_negate(d, a as int);
            }
            if divides(d, b as int) {
                lemma_divides_negate(d, b as int);
            }
        }
    }
    while y != 0
        invariant
            x >= 0,
            y >= 0,
            forall|d: int|
                (#[trigger] divides(d, x as int) && divides(d, y as int)) <==> (divides(d, a as int)
                    && divides(d, b as int)),
            b == 0 ==> y == 0 && x == abs_diff(a as int, 0),
            a == 0 ==> (x == 0 && y == abs_diff(b as int, 0)) || (y == 0 && x == abs_diff(
                b as int,
                0,
            )),
        decreases y,
    {
        let ghost (x0, y0) = (x as int, y as int);
        let t = y;
        y = x % y;
        x = t;
        proof {
            assert(x0 == 0 ==> x0 % y0 == 0) by (nonlinear_arith)
                requires
                    y0 > 0,
            {
            }
            assert forall|d: int|
                (#[trigger] divides(d, x as int) && divides(d, y as int)) <==> (divides(
                    d,
                    a as int,
                ) && divides(d, b as int)) by {
                lemma_euclid_step(x0, y0, d);
                assert(divides(d, x0) && divides(d, y0) <==> divides(d, a as int) && divides(
                    d,
                    b as int,
                ));
            }
        }
    }
    proof {
        lemma_divides_self(x as int);
        lemma_divides_zero(x as int);
        assert forall|d: int| #[trigger]
            divides(d, a as int) && divides(d, b as int) implies divides(d, x as int) by {
            lemma_divides_zero(d);
        }
    }
    x
}

/// Divides a multiple of `g` by `g`.
fn exact_div(n: isize, g: isize) -> (q: isize)
    requires
        g > 0,
        divides(g as int, n as int),
        n > isize::MIN,
    ensures
        n == g * q,
        signum(q as int) == signum(n as int),
        abs_diff(n as int, 0) == g ==> q == signum(n as int),
{
    let q = n / g;
    proof {
        let k = choose|k: int| n as int == #[trigger] times(g as int, k);
        assert(q == k && signum(k) == signum(n as int) && (abs_diff(n as int, 0) == g ==> k
            == signum(n as int))) by (nonlinear_arith)
            requires
                g > 0,
                n == g * k,
                n >= 0 ==> q == n as int / g as int,
                n < 0 ==> q == -((-(n as int)) / g as int),
        {
        }
    }
    q
}

/// Returns the slope between points at `src` and `dst`, reduced to its
/// simplest terms.
pub fn line_slope(src: Pos, dst: Pos) -> (r: (isize, isize))
    requires
        src.in_range(),
        dst.in_range(),
    ensures
        is_slope((r.0 as int, r.1 as int), dst.x - src.x, dst.y - src.y),
        signum(r.0 as int) == signum(dst.x - src.x),
        signum(r.1 as int) == signum(dst.y - src.y),
        dst.x == src.x ==> r.1 == signum(dst.y - src.y),
        dst.y == src.y ==> r.0 == signum(dst.x - src.x),
{
    let dx: isize = dst.x as isize - src.x as isize;
    let dy: isize = dst.y as isize - src.y as isize;
    let g = gcd(dx, dy);
    if g == 0 {
        proof {
            let k = choose|k: int| dx as int == #[trigger] times(0, k);
            let l = choose|k: int| dy as int == #[trigger] times(0, k);
            assert(is_gcd(0, dx as int, dy as int));
        }
        (dx, dy)
    } else {
        let r = (exact_div(dx, g), exact_div(dy, g));
        proof {
            assert(is_gcd(g as int, dx as int, dy as int));
        }
        r
    }
}

} // verus!
