//! The glyphs the engine draws with and the rule that settles which of two
//! glyphs keeps a cell.

use vstd::prelude::*;

verus! {

/// Blank cell; rows are padded with it.
pub const SP: char = ' ';

/// Horizontal run.
pub const DASH: char = '-';

/// Vertical run.
pub const PIPE: char = '|';

/// Rising diagonal.
pub const DIAG: char = '/';

/// Falling diagonal.
pub const GAID: char = '\\';

/// Corner, joint or crossing.
pub const PLUS: char = '+';

/// Marks the cursor cell of a text entry.
pub const CURS: char = '_';

/// Arrow tip pointing up.
pub const TIP_N: char = '^';

/// Arrow tip pointing down.
pub const TIP_S: char = 'v';

/// Arrow tip pointing left.
pub const TIP_W: char = '<';

/// Arrow tip pointing right.
pub const TIP_E: char = '>';

/// Rank of a glyph when two drawn lines meet in one cell:
/// `+` over `-` over `|` over `\` over `/` over everything else.
pub open spec fn rank(c: char) -> nat {
    if c == PLUS {
        5
    } else if c == DASH {
        4
    } else if c == PIPE {
        3
    } else if c == GAID {
        2
    } else if c == DIAG {
        1
    } else {
        0
    }
}

/// A cell holding `existing` refuses an unforced write of `candidate`.
pub open spec fn outranks(existing: char, candidate: char) -> bool {
    rank(existing) > rank(candidate)
}

/// Returns the overlap precedence of `c`.
pub fn precedence(c: char) -> (r: usize)
    ensures
        r == rank(c),
{
    if c == PLUS {
        5
    } else if c == DASH {
        4
    } else if c == PIPE {
        3
    } else if c == GAID {
        2
    } else if c == DIAG {
        1
    } else {
        0
    }
}

/// Whether `c` has Unicode's `White_Space` property.
pub uninterp spec fn white_space(c: char) -> bool;

/// `char::is_whitespace`: the answer depends on the character alone.
#[verifier::external_body]
pub(crate) fn is_whitespace(c: char) -> (b: bool)
    ensures
        b == white_space(c),
{
    c.is_whitespace()
}

} // verus!
