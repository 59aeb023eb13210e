//! Rows of characters: copying, comparing, and trimming white space from
//! their margins.

use vstd::prelude::*;
use crate::glyph::{is_whitespace, white_space};

verus! {

/// The rows of `chars` as sequences.
pub open spec fn rows_view(chars: Seq<Vec<char>>) -> Seq<Seq<char>> {
    Seq::new(chars.len(), |y: int| chars[y]@)
}

/// There are at most `bound` rows, of at most `bound` cells each.
pub open spec fn fits(rows: Seq<Seq<char>>, bound: int) -> bool {
    &&& rows.len() <= bound
    &&& forall|y: int| 0 <= y < rows.len() ==> (#[trigger] rows[y]).len() <= bound
}

/// Every cell of `row` is white space.
pub open spec fn blank(row: Seq<char>) -> bool {
    forall|i: int| 0 <= i < row.len() ==> white_space(#[trigger] row[i])
}

/// Index of the first cell at or after `i` that is not white space, or the
/// row's length if there is none.
pub open spec fn indent_from(row: Seq<char>, i: int) -> int
    decreases row.len() - i,
{
    if 0 <= i < row.len() && white_space(row[i]) {
        indent_from(row, i + 1)
    } else {
        i
    }
}

/// Number of white-space cells `row` begins with.
pub open spec fn indent(row: Seq<char>) -> int {
    indent_from(row, 0)
}

/// Length of the first `n` cells of `row` without the white space they end in.
pub open spec fn trimmed_len(row: Seq<char>, n: int) -> int
    decreases n,
{
    if 0 < n <= row.len() && white_space(row[n - 1]) {
        trimmed_len(row, n - 1)
    } else {
        n
    }
}

/// `row` without its trailing white space.
pub open spec fn trim_end(row: Seq<char>) -> Seq<char> {
    row.take(trimmed_len(row, row.len() as int))
}

/// Index of the first row at or after `y` that is not blank, or the number
/// of rows if there is none.
pub open spec fn ink_from(rows: Seq<Seq<char>>, y: int) -> int
    decreases rows.len() - y,
{
    if 0 <= y < rows.len() && blank(rows[y]) {
        ink_from(rows, y + 1)
    } else {
        y
    }
}

/// Number of the first `n` rows that are left when the blank rows they end
/// in are dropped.
pub open spec fn ink_len(rows: Seq<Seq<char>>, n: int) -> int
    decreases n,
{
    if 0 < n <= rows.len() && blank(rows[n - 1]) {
        ink_len(rows, n - 1)
    } else {
        n
    }
}

/// `rows` without the blank rows at its top and bottom.
pub open spec fn trim_rows(rows: Seq<Seq<char>>) -> Seq<Seq<char>> {
    let rest = rows.skip(ink_from(rows, 0));
    rest.take(ink_len(rest, rest.len() as int))
}

/// The smallest indent among the first `n` rows that are not blank.
pub open spec fn margin_upto(rows: Seq<Seq<char>>, n: int) -> Option<int>
    decreases n,
{
    if n <= 0 || n > rows.len() {
        None
    } else {
        let row = rows[n - 1];
        match margin_upto(rows, n - 1) {
            _ if blank(row) => margin_upto(rows, n - 1),
            None => Some(indent(row)),
            Some(m) => Some(if indent(row) < m { indent(row) } else { m }),
        }
    }
}

/// The smallest indent among the rows that are not blank.
pub open spec fn margin(rows: Seq<Seq<char>>) -> Option<int> {
    margin_upto(rows, rows.len() as int)
}

/// `row` without its first `m` cells, but never without its last one.
pub open spec fn shift_left(row: Seq<char>, m: int) -> Seq<char> {
    if row.len() == 0 {
        row
    } else if m < row.len() - 1 {
        row.skip(m)
    } else {
        row.skip(row.len() - 1)
    }
}

/// `rows` with the common left margin removed.
pub open spec fn strip_left(rows: Seq<Seq<char>>) -> Seq<Seq<char>> {
    match margin(rows) {
        Some(m) => rows.map_values(|row: Seq<char>| shift_left(row, m)),
        None => rows,
    }
}

/// `rows` with the trailing white space of each row removed.
pub open spec fn strip_trailing(rows: Seq<Seq<char>>) -> Seq<Seq<char>> {
    rows.map_values(|row: Seq<char>| trim_end(row))
}

/// `rows` without blank rows at the top and bottom, without the common left
/// margin, and without trailing white space.
pub open spec fn strip_margins(rows: Seq<Seq<char>>) -> Seq<Seq<char>> {
    strip_trailing(strip_left(trim_rows(rows)))
}

/// Trimming a row never lengthens it.
pub proof fn lemma_trimmed_len_bounds(row: Seq<char>, n: int)
    requires
        0 <= n <= row.len(),
    ensures
        0 <= trimmed_len(row, n) <= n,
    decreases n,
{
    if 0 < n && white_space(row[n - 1]) {
        lemma_trimmed_len_bounds(row, n - 1);
    }
}

/// The first inked row lies at or after the start of the search, and within
/// the rows or just past them.
pub proof fn lemma_ink_from_bounds(rows: Seq<Seq<char>>, y: int)
    requires
        0 <= y <= rows.len(),
    ensures
        y <= ink_from(rows, y) <= rows.len(),
    decreases rows.len() - y,
{
    if y < rows.len() && blank(rows[y]) {
        lemma_ink_from_bounds(rows, y + 1);
    }
}

/// Dropping blank rows from the end never adds rows.
pub proof fn lemma_ink_len_bounds(rows: Seq<Seq<char>>, n: int)
    requires
        0 <= n <= rows.len(),
    ensures
        0 <= ink_len(rows, n) <= n,
    decreases n,
{
    if 0 < n && blank(rows[n - 1]) {
        lemma_ink_len_bounds(rows, n - 1);
    }
}

/// The first inked cell lies at or after the start of the search, and within
/// the row or just past it.
pub proof fn lemma_indent_from_bounds(row: Seq<char>, i: int)
    requires
        0 <= i <= row.len(),
    ensures
        i <= indent_from(row, i) <= row.len(),
    decreases row.len() - i,
{
    if i < row.len() && white_space(row[i]) {
        lemma_indent_from_bounds(row, i + 1);
    }
}

/// The left margin is never negative.
pub proof fn lemma_margin_bounds(rows: Seq<Seq<char>>, n: int)
    ensures
        margin_upto(rows, n) matches Some(m) ==> 0 <= m,
    decreases n,
{
    if 0 < n <= rows.len() {
        lemma_margin_bounds(rows, n - 1);
        lemma_indent_from_bounds(rows[n - 1], 0);
    }
}

/// Stripping trailing white space keeps a grid within any bound it was in.
pub proof fn lemma_strip_trailing_fits(rows: Seq<Seq<char>>, bound: int)
    requires
        fits(rows, bound),
    ensures
        fits(strip_trailing(rows), bound),
{
    assert forall|y: int| 0 <= y < rows.len() implies (#[trigger] strip_trailing(rows)[y]).len()
        <= bound by {
        lemma_trimmed_len_bounds(rows[y], rows[y].len() as int);
    }
}

/// Stripping the margins keeps a grid within any bound it was in.
pub proof fn lemma_strip_margins_fits(rows: Seq<Seq<char>>, bound: int)
    requires
        fits(rows, bound),
    ensures
        fits(strip_margins(rows), bound),
{
    lemma_ink_from_bounds(rows, 0);
    let rest = rows.skip(ink_from(rows, 0));
    lemma_ink_len_bounds(rest, rest.len() as int);
    let inked = trim_rows(rows);
    assert(fits(inked, bound));
    let left = strip_left(inked);
    lemma_margin_bounds(inked, inked.len() as int);
    assert forall|y: int| 0 <= y < left.len() implies (#[trigger] left[y]).len() <= bound by {
        assert(inked[y].len() <= bound);
    }
    assert(fits(left, bound));
    lemma_strip_trailing_fits(left, bound);
}

/// Returns the character in column `x` of `row`.
pub fn char_at(row: &Vec<char>, x: usize) -> (c: char)
    requires
        x < row.len(),
    ensures
        c == row@[x as int],
{
    row[x]
}

/// Returns a copy of `rows`.
pub fn copy_rows(rows: &Vec<Vec<char>>) -> (r: Vec<Vec<char>>)
    ensures
        rows_view(r@) == rows_view(rows@),
{
    let mut out: Vec<Vec<char>> = Vec::new();
    let mut y: usize = 0;
    while y < rows.len()
        invariant
            y <= rows.len(),
            out@.len() == y,
            forall|j: int| 0 <= j < y ==> (#[trigger] out@[j])@ == rows@[j]@,
        decreases rows.len() - y,
    {
        let row = rows[y].clone();
        assert(row@ =~= rows@[y as int]@);
        out.push(row);
        y += 1;
    }
    assert(rows_view(out@) =~~= rows_view(rows@));
    out
}

/// Tells whether two rows hold the same characters.
pub fn row_equal(a: &Vec<char>, b: &Vec<char>) -> (eq: bool)
    ensures
        eq == (a@ == b@),
{
    if a.len() != b.len() {
        return false;
    }
    let mut x: usize = 0;
    while x < a.len()
        invariant
            a.len() == b.len(),
            x <= a.len(),
            forall|j: int| 0 <= j < x ==> a@[j] == b@[j],
        decreases a.len() - x,
    {
        if a[x] != b[x] {
            return false;
        }
        x += 1;
    }
    assert(a@ =~= b@);
    true
}

/// Tells whether two grids hold the same rows.
pub fn rows_equal(a: &Vec<Vec<char>>, b: &Vec<Vec<char>>) -> (eq: bool)
    ensures
        eq == (rows_view(a@) == rows_view(b@)),
{
    if a.len() != b.len() {
        assert(rows_view(a@).len() != rows_view(b@).len());
        return false;
    }
    let mut y: usize = 0;
    while y < a.len()
        invariant
            a.len() == b.len(),
            y <= a.len(),
            forall|j: int| 0 <= j < y ==> (#[trigger] a@[j])@ == b@[j]@,
        decreases a.len() - y,
    {
        if !row_equal(&a[y], &b[y]) {
            assert(rows_view(a@)[y as int] != rows_view(b@)[y as int]);
            return false;
        }
        y += 1;
    }
    assert(rows_view(a@) =~~= rows_view(b@));
    true
}

/// Tells whether every cell of `row` is white space.
pub fn is_blank(row: &Vec<char>) -> (b: bool)
    ensures
        b == blank(row@),
{
    let mut x: usize = 0;
    while x < row.len()
        invariant
            x <= row.len(),
            forall|j: int| 0 <= j < x ==> white_space(#[trigger] row@[j]),
        decreases row.len() - x,
    {
        if !is_whitespace(row[x]) {
            return false;
        }
        x += 1;
    }
    true
}

/// Strip trailing whitespace from every row.
pub fn strip_trailing_whitespace(rows: &mut Vec<Vec<char>>)
    ensures
        rows_view(final(rows)@) == strip_trailing(rows_view(old(rows)@)),
        forall|bound: int| #[trigger]
            fits(rows_view(old(rows)@), bound) ==> fits(rows_view(final(rows)@), bound),
{
    let mut y: usize = 0;
    while y < rows.len()
        invariant
            y <= rows.len(),
            rows@.len() == old(rows)@.len(),
            forall|j: int| 0 <= j < y ==> (#[trigger] rows@[j])@ == trim_end(old(rows)@[j]@),
            forall|j: int| y <= j < rows@.len() ==> (#[trigger] rows@[j])@ == old(rows)@[j]@,
        decreases rows.len() - y,
    {
        let row = &mut rows[y];
        let mut n: usize = row.len();
        while n > 0 && is_whitespace(row[n - 1])
            invariant
                n <= row.len(),
                trimmed_len(row@, row@.len() as int) == trimmed_len(row@, n as int),
            decreases n,
        {
            n -= 1;
        }
        row.truncate(n);
        y += 1;
    }
    assert(rows_view(rows@) =~~= strip_trailing(rows_view(old(rows)@)));
    assert forall|bound: int| #[trigger] fits(rows_view(old(rows)@), bound) implies fits(
        rows_view(rows@),
        bound,
    ) by {
        lemma_strip_trailing_fits(rows_view(old(rows)@), bound);
    }
}

/// Returns the index of the first cell of `row` that is not white space, or
/// the row's length if there is none.
pub fn first_ink(row: &Vec<char>) -> (x: usize)
    ensures
        x == indent(row@),
{
    let mut x: usize = 0;
    while x < row.len() && is_whitespace(row[x])
        invariant
            x <= row.len(),
            indent(row@) == indent_from(row@, x as int),
        decreases row.len() - x,
    {
        x += 1;
    }
    x
}

/// Returns the smallest indent among the rows that are not blank.
pub fn left_margin(rows: &Vec<Vec<char>>) -> (m: Option<usize>)
    ensures
        match m {
            Some(v) => margin(rows_view(rows@)) == Some(v as int),
            None => margin(rows_view(rows@)) is None,
        },
{
    let mut found: Option<usize> = None;
    let mut y: usize = 0;
    while y < rows.len()
        invariant
            y <= rows.len(),
            match found {
                Some(v) => margin_upto(rows_view(rows@), y as int) == Some(v as int),
                None => margin_upto(rows_view(rows@), y as int) is None,
            },
        decreases rows.len() - y,
    {
        assert(rows_view(rows@)[y as int] == rows@[y as int]@);
        if !is_blank(&rows[y]) {
            let here = first_ink(&rows[y]);
            found = match found {
                Some(m) => Some(if here < m { here } else { m }),
                None => Some(here),
            };
        }
        y += 1;
    }
    found
}

/// Strip margin whitespace: blank rows at the top and bottom, the white
/// space that every inked row begins with, and trailing white space.
pub fn strip_margin_whitespace(rows: &mut Vec<Vec<char>>)
    ensures
        rows_view(final(rows)@) == strip_margins(rows_view(old(rows)@)),
        forall|bound: int| #[trigger]
            fits(rows_view(old(rows)@), bound) ==> fits(rows_view(final(rows)@), bound),
{
    let ghost before = rows_view(rows@);
    // upper margin
    let mut top: usize = 0;
    while top < rows.len() && is_blank(&rows[top])
        invariant
            top <= rows.len(),
            before == rows_view(rows@),
            ink_from(before, 0) == ink_from(before, top as int),
        decreases rows.len() - top,
    {
        assert(before[top as int] == rows@[top as int]@);
        top += 1;
    }
    assert(top < rows.len() ==> before[top as int] == rows@[top as int]@);
    let rest = rows.split_off(top);
    *rows = rest;
    let ghost below = rows_view(rows@);
    assert(below =~~= before.skip(top as int));

    // lower margin
    let mut n: usize = rows.len();
    while n > 0 && is_blank(&rows[n - 1])
        invariant
            n <= rows.len(),
            below == rows_view(rows@),
            ink_len(below, below.len() as int) == ink_len(below, n as int),
        decreases n,
    {
        assert(below[n - 1] == rows@[n - 1]@);
        n -= 1;
    }
    assert(n > 0 ==> below[n - 1] == rows@[n - 1]@);
    rows.truncate(n);
    let ghost inked = rows_view(rows@);
    assert(inked =~~= trim_rows(before));

    // left margin
    if let Some(m) = left_margin(rows) {
        let mut y: usize = 0;
        while y < rows.len()
            invariant
                y <= rows.len(),
                rows@.len() == inked.len(),
                forall|j: int| 0 <= j < y ==> (#[trigger] rows@[j])@ == shift_left(inked[j], m as int),
                forall|j: int| y <= j < rows@.len() ==> (#[trigger] rows@[j])@ == inked[j],
            decreases rows.len() - y,
        {
            let row = &mut rows[y];
            if row.len() > 0 {
                let idx = if row.len() - 1 < m { row.len() - 1 } else { m };
                let kept = row.split_off(idx);
                *row = kept;
            }
            assert(row@ =~= shift_left(inked[y as int], m as int));
            y += 1;
        }
        assert(rows_view(rows@) =~~= strip_left(inked));
    }
    // right margin
    strip_trailing_whitespace(rows);
    assert forall|bound: int| #[trigger] fits(rows_view(old(rows)@), bound) implies fits(
        rows_view(rows@),
        bound,
    ) by {
        lemma_strip_margins_fits(rows_view(old(rows)@), bound);
    }
}

} // verus!
