//! The diagram buffer: committed rows of characters, the overlay of pending
//! edits on top of them, and the cursor marker.

use vstd::prelude::*;
use crate::geometry::{Pos, MAX_COORD};
use crate::glyph::{is_whitespace, outranks, precedence, rank, white_space, CURS, SP};
use crate::rows::{char_at, copy_rows, fits, rows_equal, rows_view, strip_margins, strip_trailing};

verus! {

/// A glyph at a position.
#[derive(Clone, Copy, Debug, PartialEq, Eq, Structural)]
pub struct Cell {
    pub pos: Pos,
    pub c: char,
}

/// A cell of a viewport, tagged by where it comes from. Later tags are drawn
/// over earlier ones.
#[derive(Clone, Copy, Debug, PartialEq, Eq, Structural)]
pub enum Char {
    /// Committed content.
    Clean(Cell),
    /// A pending edit.
    Dirty(Cell),
    /// The cursor.
    Cursor(Cell),
}

/// What a [`Buffer`] holds.
pub ghost struct GridView {
    /// Committed rows, top to bottom. Rows differ in length; a position
    /// beyond them reads as absent.
    pub rows: Seq<Seq<char>>,
    /// Pending edits, oldest first.
    pub edits: Seq<Cell>,
    /// The highlighted position, if any.
    pub cursor: Option<Pos>,
}

/// `row`, padded with spaces to at least `len` cells.
pub open spec fn pad_row(row: Seq<char>, len: int) -> Seq<char> {
    if row.len() >= len {
        row
    } else {
        row + Seq::new((len - row.len()) as nat, |i: int| SP)
    }
}

/// `rows`, extended with empty rows to at least `len` rows.
pub open spec fn pad_rows(rows: Seq<Seq<char>>, len: int) -> Seq<Seq<char>> {
    if rows.len() >= len {
        rows
    } else {
        rows + Seq::new((len - rows.len()) as nat, |i: int| Seq::<char>::empty())
    }
}

/// `rows` with `c` written at `pos`, grown as far as needed to hold it.
pub open spec fn put(rows: Seq<Seq<char>>, pos: Pos, c: char) -> Seq<Seq<char>> {
    let grown = pad_rows(rows, pos.y + 1);
    grown.update(pos.y as int, pad_row(grown[pos.y as int], pos.x + 1).update(pos.x as int, c))
}

/// `rows` after the `edits` were written in order, so that a later edit of a
/// cell overwrites an earlier one.
pub open spec fn put_all(rows: Seq<Seq<char>>, edits: Seq<Cell>) -> Seq<Seq<char>>
    decreases edits.len(),
{
    if edits.len() == 0 {
        rows
    } else {
        put(put_all(rows, edits.drop_last()), edits.last().pos, edits.last().c)
    }
}

/// The glyph that `rows` hold at `pos`, if `pos` lies within them.
pub open spec fn glyph_at(rows: Seq<Seq<char>>, pos: Pos) -> Option<char> {
    if pos.y < rows.len() && pos.x < rows[pos.y as int].len() {
        Some(rows[pos.y as int][pos.x as int])
    } else {
        None
    }
}

/// The glyph of the newest of `edits` at `pos`, if any of them is at `pos`.
pub open spec fn newest(edits: Seq<Cell>, pos: Pos) -> Option<char>
    decreases edits.len(),
{
    if edits.len() == 0 {
        None
    } else if edits.last().pos == pos {
        Some(edits.last().c)
    } else {
        newest(edits.drop_last(), pos)
    }
}

impl GridView {
    /// The buffer with no content at all.
    pub open spec fn empty() -> GridView {
        GridView { rows: Seq::empty(), edits: Seq::empty(), cursor: None }
    }

    /// Rows, edits and cursor all lie within the addressable grid.
    pub open spec fn wf(self) -> bool {
        &&& fits(self.rows, MAX_COORD + 1)
        &&& forall|i: int| 0 <= i < self.edits.len() ==> (#[trigger] self.edits[i]).pos.in_range()
        &&& self.cursor matches Some(p) ==> p.in_range()
    }

    /// The committed glyph at `pos`, if `pos` lies within the committed rows.
    pub open spec fn get(self, pos: Pos) -> Option<char> {
        glyph_at(self.rows, pos)
    }

    /// The committed glyph at `pos` exists and is not white space.
    pub open spec fn visible(self, pos: Pos) -> bool {
        match self.get(pos) {
            Some(c) => !white_space(c),
            None => false,
        }
    }

    /// Some pending edit of `pos` holds a glyph that outranks `c`.
    pub open spec fn staged_outranks(self, pos: Pos, c: char) -> bool {
        exists|i: int|
            0 <= i < self.edits.len() && (#[trigger] self.edits[i]).pos == pos && outranks(
                self.edits[i].c,
                c,
            )
    }

    /// A glyph already at `pos`, committed or pending, outranks `c`.
    pub open spec fn blocked(self, pos: Pos, c: char) -> bool {
        (self.get(pos) matches Some(e) && outranks(e, c)) || self.staged_outranks(pos, c)
    }

    /// The buffer after `c` was staged at `pos`: appended to the pending
    /// edits if `force` is set or nothing at `pos` outranks it, dropped
    /// otherwise.
    pub open spec fn stage(self, force: bool, pos: Pos, c: char) -> GridView {
        if force || !self.blocked(pos, c) {
            GridView { edits: self.edits.push(Cell { pos, c }), ..self }
        } else {
            self
        }
    }

    /// The buffer after the pending edits were written into the rows.
    pub open spec fn flush(self) -> GridView {
        GridView { rows: put_all(self.rows, self.edits), edits: Seq::empty(), ..self }
    }

    /// The buffer without its pending edits.
    pub open spec fn discard(self) -> GridView {
        GridView { edits: Seq::empty(), ..self }
    }

    /// The committed rows alone: no pending edit, no cursor.
    pub open spec fn snapshot(self) -> GridView {
        GridView { rows: self.rows, edits: Seq::empty(), cursor: None }
    }
}

/// `pos` lies in the rectangle of `size` cells whose top left corner is
/// `offset`.
pub open spec fn in_view(pos: Pos, offset: Pos, size: Pos) -> bool {
    in_rect(pos.x as int, pos.y as int, offset, size)
}

/// Column `x` of row `y` lies in the rectangle of `size` cells whose top
/// left corner is `offset`.
pub open spec fn in_rect(x: int, y: int, offset: Pos, size: Pos) -> bool {
    &&& offset.x <= x < offset.x + size.x
    &&& offset.y <= y < offset.y + size.y
}

/// Those of the first `n` cells of row `y` that lie in the viewport, left to
/// right.
pub open spec fn row_upto(row: Seq<char>, y: int, offset: Pos, size: Pos, n: int) -> Seq<Char>
    decreases n,
{
    if n <= 0 || n > row.len() {
        Seq::empty()
    } else if in_rect(n - 1, y, offset, size) {
        row_upto(row, y, offset, size, n - 1).push(
            Char::Clean(Cell { pos: Pos { x: (n - 1) as usize, y: y as usize }, c: row[n - 1] }),
        )
    } else {
        row_upto(row, y, offset, size, n - 1)
    }
}

/// The cells of the first `n` rows that lie in the viewport, row by row.
pub open spec fn clean_upto(rows: Seq<Seq<char>>, offset: Pos, size: Pos, n: int) -> Seq<Char>
    decreases n,
{
    if n <= 0 || n > rows.len() {
        Seq::empty()
    } else {
        clean_upto(rows, offset, size, n - 1) + row_upto(
            rows[n - 1],
            n - 1,
            offset,
            size,
            rows[n - 1].len() as int,
        )
    }
}

/// Those of the first `n` edits that lie in the viewport, oldest first.
pub open spec fn dirty_upto(edits: Seq<Cell>, offset: Pos, size: Pos, n: int) -> Seq<Char>
    decreases n,
{
    if n <= 0 || n > edits.len() {
        Seq::empty()
    } else if in_view(edits[n - 1].pos, offset, size) {
        dirty_upto(edits, offset, size, n - 1).push(Char::Dirty(edits[n - 1]))
    } else {
        dirty_upto(edits, offset, size, n - 1)
    }
}

/// The first `n` rows as text: before each row the `prefix`, after it a
/// line feed.
pub open spec fn text_upto(rows: Seq<Seq<char>>, prefix: Seq<char>, n: int) -> Seq<char>
    decreases n,
{
    if n <= 0 || n > rows.len() {
        Seq::empty()
    } else {
        text_upto(rows, prefix, n - 1) + prefix + rows[n - 1] + seq!['\n']
    }
}

impl GridView {
    /// A viewport of `size` shows every committed row in full, every pending
    /// edit and the cursor.
    pub open spec fn covers(self, size: Pos) -> bool {
        &&& self.rows.len() <= size.y
        &&& forall|y: int| 0 <= y < self.rows.len() ==> (#[trigger] self.rows[y]).len() <= size.x
        &&& forall|i: int|
            0 <= i < self.edits.len() ==> (#[trigger] self.edits[i]).pos.x < size.x
                && self.edits[i].pos.y < size.y
        &&& self.cursor matches Some(p) ==> p.x < size.x && p.y < size.y
    }

    /// Some row, edit or the cursor ends exactly at column `w`.
    pub open spec fn reaches_x(self, w: int) -> bool {
        ||| exists|y: int| 0 <= y < self.rows.len() && (#[trigger] self.rows[y]).len() == w
        ||| exists|i: int| 0 <= i < self.edits.len() && (#[trigger] self.edits[i]).pos.x + 1 == w
        ||| self.cursor matches Some(p) && p.x + 1 == w
    }

    /// The rows, some edit or the cursor end exactly at row `h`.
    pub open spec fn reaches_y(self, h: int) -> bool {
        ||| self.rows.len() == h
        ||| exists|i: int| 0 <= i < self.edits.len() && (#[trigger] self.edits[i]).pos.y + 1 == h
        ||| self.cursor matches Some(p) && p.y + 1 == h
    }

    /// What a viewport shows: the committed cells within it, then the pending
    /// edits within it, then the cursor.
    pub open spec fn viewport(self, offset: Pos, size: Pos) -> Seq<Char> {
        clean_upto(self.rows, offset, size, self.rows.len() as int) + dirty_upto(
            self.edits,
            offset,
            size,
            self.edits.len() as int,
        ) + match self.cursor {
            Some(pos) => seq![Char::Cursor(Cell { pos, c: CURS })],
            None => Seq::empty(),
        }
    }

    /// The committed rows as text.
    pub open spec fn text(self, prefix: Seq<char>) -> Seq<char> {
        text_upto(self.rows, prefix, self.rows.len() as int)
    }
}

/// The diagram buffer.
pub struct Buffer {
    chars: Vec<Vec<char>>,
    edits: Vec<Cell>,
    cursor: Option<Pos>,
}

impl View for Buffer {
    type V = GridView;

    closed spec fn view(&self) -> GridView {
        GridView { rows: rows_view(self.chars@), edits: self.edits@, cursor: self.cursor }
    }
}

impl Char {
    /// The cell, whatever its tag.
    pub open spec fn cell(self) -> Cell {
        match self {
            Char::Clean(cell) => cell,
            Char::Dirty(cell) => cell,
            Char::Cursor(cell) => cell,
        }
    }
}

impl Cell {
    /// Returns the position of the cell.
    pub fn pos(&self) -> (p: Pos)
        ensures
            p == self.pos,
    {
        self.pos
    }

    /// Returns the glyph of the cell.
    pub fn c(&self) -> (c: char)
        ensures
            c == self.c,
    {
        self.c
    }

    /// Tells whether the glyph of the cell is white space.
    pub fn is_whitespace(&self) -> (b: bool)
        ensures
            b == white_space(self.c),
    {
        is_whitespace(self.c)
    }

    /// Returns this cell moved by `dx` columns and `dy` rows, but not beyond
    /// the edges of the grid.
    pub fn translate(self, dx: isize, dy: isize) -> (moved: Cell)
        requires
            self.pos.in_range(),
        ensures
            moved == (Cell { pos: self.pos.moved(dx as int, dy as int), c: self.c }),
            moved.pos.in_range(),
    {
        Cell { pos: self.pos.translate(dx, dy), c: self.c }
    }
}

impl Buffer {
    /// Rows, edits and cursor all lie within the addressable grid.
    pub open spec fn wf(&self) -> bool {
        self@.wf()
    }

    /// Returns an empty buffer.
    pub fn new() -> (b: Buffer)
        ensures
            b@ == GridView::empty(),
            b.wf(),
    {
        let b = Buffer { chars: Vec::new(), edits: Vec::new(), cursor: None };
        assert(b@.rows =~= Seq::empty());
        b
    }

    /// Get the cell at `pos`, if it exists.
    ///
    /// Does not consider any pending edits.
    pub fn getv(&self, pos: Pos) -> (r: Option<char>)
        ensures
            r == self@.get(pos),
    {
        if pos.y < self.chars.len() && pos.x < self.chars[pos.y].len() {
            Some(self.chars[pos.y][pos.x])
        } else {
            None
        }
    }

    /// Returns `true` iff the cell at `pos` exists and contains a
    /// non-whitespace character.
    ///
    /// Does not consider any pending edits.
    pub fn visible(&self, pos: Pos) -> (r: bool)
        ensures
            r == self@.visible(pos),
    {
        match self.getv(pos) {
            Some(c) => !is_whitespace(c),
            None => false,
        }
    }

    /// Set the cell at `pos` to `c`.
    ///
    /// Unless `force` is set, the write is dropped where a glyph already at
    /// `pos`, committed or pending, outranks `c`.
    pub fn setv(&mut self, force: bool, pos: Pos, c: char)
        requires
            old(self).wf(),
            pos.in_range(),
        ensures
            final(self)@ == old(self)@.stage(force, pos, c),
            final(self).wf(),
    {
        if force {
            self.edits.push(Cell { pos, c });
            return ;
        }
        let max_prec = precedence(c);
        let mut overridden = false;
        if let Some(e) = self.getv(pos) {
            overridden = precedence(e) > max_prec;
        }
        let mut i: usize = 0;
        while i < self.edits.len()
            invariant
                *self == *old(self),
                i <= self.edits.len(),
                max_prec == rank(c),
                overridden == ((self@.get(pos) matches Some(e) && outranks(e, c)) || exists|j: int|
                    0 <= j < i && (#[trigger] self@.edits[j]).pos == pos && outranks(
                        self@.edits[j].c,
                        c,
                    )),
            decreases self.edits.len() - i,
        {
            let cell = self.edits[i];
            assert(self@.edits[i as int] == cell);
            if cell.pos == pos && precedence(cell.c) > max_prec {
                overridden = true;
            }
            i += 1;
        }
        if !overridden {
            self.edits.push(Cell { pos, c });
        }
    }

    /// Set the cell at `(x, y)` to `c`.
    pub fn set(&mut self, force: bool, x: usize, y: usize, c: char)
        requires
            old(self).wf(),
            x <= MAX_COORD,
            y <= MAX_COORD,
        ensures
            final(self)@ == old(self)@.stage(force, Pos { x, y }, c),
            final(self).wf(),
    {
        self.setv(force, Pos { x, y }, c)
    }

    /// Discard any pending edits.
    pub fn discard_edits(&mut self)
        ensures
            final(self)@ == old(self)@.discard(),
            old(self).wf() ==> final(self).wf(),
    {
        self.edits.clear();
    }

    /// Set the cursor position to `pos`.
    pub fn set_cursor(&mut self, pos: Pos)
        requires
            pos.in_range(),
        ensures
            final(self)@ == (GridView { cursor: Some(pos), ..old(self)@ }),
            old(self).wf() ==> final(self).wf(),
    {
        self.cursor = Some(pos);
    }

    /// Disable the cursor.
    pub fn drop_cursor(&mut self)
        ensures
            final(self)@ == (GridView { cursor: None, ..old(self)@ }),
            old(self).wf() ==> final(self).wf(),
    {
        self.cursor = None;
    }

    /// Clears all content in the buffer.
    pub fn clear(&mut self)
        ensures
            final(self)@ == GridView::empty(),
            final(self).wf(),
    {
        self.chars.clear();
        self.edits.clear();
        self.cursor = None;
        assert(self@.rows =~= Seq::empty());
    }
}

/// Writes `c` at `pos`, growing `rows` with empty rows and the row with
/// spaces as far as needed.
fn write_cell(rows: &mut Vec<Vec<char>>, pos: Pos, c: char)
    requires
        pos.in_range(),
    ensures
        rows_view(final(rows)@) == put(rows_view(old(rows)@), pos, c),
{
    while rows.len() <= pos.y
        invariant
            pos.in_range(),
            rows@.len() >= old(rows)@.len(),
            rows@.len() <= old(rows)@.len() || rows@.len() <= pos.y + 1,
            rows_view(rows@) =~~= pad_rows(rows_view(old(rows)@), rows@.len() as int),
        decreases pos.y + 1 - rows.len(),
    {
        let ghost prev = rows@;
        rows.push(Vec::new());
        proof {
            let a = rows_view(rows@);
            let b = pad_rows(rows_view(old(rows)@), rows@.len() as int);
            assert(a.len() == b.len());
            assert forall|y: int| 0 <= y < a.len() implies a[y] =~= b[y] by {
                if y < prev.len() {
                    assert(rows@[y] == prev[y]);
                    assert(rows_view(prev)[y] == prev[y]@);
                }
            }
        }
    }
    assert(rows_view(rows@) =~~= pad_rows(rows_view(old(rows)@), pos.y + 1));
    let ghost grown = rows_view(rows@);
    let row = &mut rows[pos.y];
    let ghost row0 = row@;
    while row.len() <= pos.x
        invariant
            pos.in_range(),
            row@ =~= pad_row(row0, row@.len() as int),
            row@.len() >= row0.len(),
            row@.len() <= row0.len() || row@.len() <= pos.x + 1,
        decreases pos.x + 1 - row.len(),
    {
        row.push(SP);
    }
    assert(row@ =~= pad_row(row0, pos.x + 1));
    row[pos.x] = c;
    assert(rows_view(rows@) =~~= put(rows_view(old(rows)@), pos, c));
}

impl Buffer {
    /// Flush any pending edits to the committed rows, growing them as
    /// necessary.
    pub fn flush_edits(&mut self)
        requires
            old(self).wf(),
        ensures
            final(self)@ == old(self)@.flush(),
            final(self).wf(),
    {
        let n = self.edits.len();
        let mut i: usize = 0;
        assert(old(self)@.edits.take(0) =~= Seq::empty());
        while i < n
            invariant
                self.edits == old(self).edits,
                self.cursor == old(self).cursor,
                n == self.edits.len(),
                i <= n,
                old(self).wf(),
                rows_view(self.chars@) == put_all(old(self)@.rows, old(self)@.edits.take(i as int)),
                self@.wf(),
            decreases n - i,
        {
            let cell = self.edits[i];
            proof {
                let next = old(self)@.edits.take(i + 1);
                assert(next.drop_last() =~= old(self)@.edits.take(i as int));
                assert(next.last() == cell);
                assert(old(self)@.edits[i as int].pos.in_range());
            }
            write_cell(&mut self.chars, cell.pos, cell.c);
            i += 1;
        }
        assert(old(self)@.edits.take(n as int) =~= old(self)@.edits);
        self.edits.clear();
    }
}

impl Buffer {
    /// Returns a buffer holding `rows` as its committed content, or `None`
    /// if there are more rows, or more cells in a row, than the grid
    /// addresses.
    pub fn from_rows(rows: Vec<Vec<char>>) -> (r: Option<Buffer>)
        ensures
            r is Some <==> fits(rows_view(rows@), MAX_COORD + 1),
            r matches Some(b) ==> b.wf() && b@ == (GridView {
                rows: rows_view(rows@),
                edits: Seq::empty(),
                cursor: None,
            }),
    {
        if rows.len() > MAX_COORD + 1 {
            return None;
        }
        let mut y: usize = 0;
        while y < rows.len()
            invariant
                y <= rows.len(),
                forall|j: int| 0 <= j < y ==> (#[trigger] rows_view(rows@)[j]).len() <= MAX_COORD + 1,
            decreases rows.len() - y,
        {
            if rows[y].len() > MAX_COORD + 1 {
                assert(rows_view(rows@)[y as int].len() > MAX_COORD + 1);
                return None;
            }
            y += 1;
        }
        Some(Buffer { chars: rows, edits: Vec::new(), cursor: None })
    }

    /// Returns a copy of this buffer without any pending edits and without
    /// the cursor.
    pub fn snapshot(&self) -> (b: Buffer)
        ensures
            b@ == self@.snapshot(),
            self.wf() ==> b.wf(),
    {
        Buffer { chars: copy_rows(&self.chars), edits: Vec::new(), cursor: None }
    }

    /// Returns a copy of this buffer.
    pub fn duplicate(&self) -> (b: Buffer)
        ensures
            b@ == self@,
            self.wf() ==> b.wf(),
    {
        let edits = self.edits.clone();
        assert(edits@ =~= self.edits@);
        Buffer { chars: copy_rows(&self.chars), edits, cursor: self.cursor }
    }

    /// Tells whether both buffers hold the same committed rows.
    pub fn same_rows(&self, other: &Buffer) -> (eq: bool)
        ensures
            eq == (self@.rows == other@.rows),
    {
        rows_equal(&self.chars, &other.chars)
    }

    /// Returns a copy of the committed rows.
    pub fn rows(&self) -> (r: Vec<Vec<char>>)
        ensures
            rows_view(r@) == self@.rows,
    {
        copy_rows(&self.chars)
    }

    /// Returns a copy of the pending edits, oldest first.
    pub fn edits(&self) -> (r: Vec<Cell>)
        ensures
            r@ == self@.edits,
    {
        let edits = self.edits.clone();
        assert(edits@ =~= self.edits@);
        edits
    }

    /// Returns the cursor position, if the cursor is set.
    pub fn cursor(&self) -> (r: Option<Pos>)
        ensures
            r == self@.cursor,
    {
        self.cursor
    }

    /// Strip margin whitespace from the committed rows.
    pub fn strip_margin_whitespace(&mut self)
        ensures
            final(self)@ == (GridView { rows: strip_margins(old(self)@.rows), ..old(self)@ }),
            old(self).wf() ==> final(self).wf(),
    {
        crate::rows::strip_margin_whitespace(&mut self.chars);
    }

    /// Strip trailing whitespace from the committed rows.
    pub fn strip_trailing_whitespace(&mut self)
        ensures
            final(self)@ == (GridView { rows: strip_trailing(old(self)@.rows), ..old(self)@ }),
            old(self).wf() ==> final(self).wf(),
    {
        crate::rows::strip_trailing_whitespace(&mut self.chars);
    }

    /// Returns the committed rows as text: each row after `prefix` and
    /// before a line feed.
    pub fn iter(&self, prefix: &Vec<char>) -> (text: Vec<char>)
        ensures
            text@ == self@.text(prefix@),
    {
        let mut out: Vec<char> = Vec::new();
        let mut y: usize = 0;
        while y < self.chars.len()
            invariant
                y <= self.chars.len(),
                out@ == text_upto(self@.rows, prefix@, y as int),
            decreases self.chars.len() - y,
        {
            let ghost start = out@;
            let mut i: usize = 0;
            while i < prefix.len()
                invariant
                    i <= prefix.len(),
                    out@ == start + prefix@.take(i as int),
                decreases prefix.len() - i,
            {
                out.push(prefix[i]);
                assert(prefix@.take(i + 1) =~= prefix@.take(i as int).push(prefix@[i as int]));
                i += 1;
            }
            assert(prefix@.take(prefix@.len() as int) =~= prefix@);
            let row = &self.chars[y];
            let ghost mid = out@;
            let mut x: usize = 0;
            while x < row.len()
                invariant
                    x <= row.len(),
                    out@ == mid + row@.take(x as int),
                decreases row.len() - x,
            {
                out.push(row[x]);
                assert(row@.take(x + 1) =~= row@.take(x as int).push(row@[x as int]));
                x += 1;
            }
            assert(row@.take(row@.len() as int) =~= row@);
            out.push('\n');
            assert(out@ =~= start + prefix@ + row@ + seq!['\n']);
            assert(self@.rows[y as int] == row@);
            y += 1;
        }
        out
    }
}

impl Buffer {
    /// Returns the viewport size required to display all content within the
    /// buffer: the smallest size that covers the committed rows, the pending
    /// edits and the cursor.
    pub fn bounds(&self) -> (b: Pos)
        requires
            self.wf(),
        ensures
            self@.covers(b),
            forall|s: Pos| self@.covers(s) ==> b.x <= s.x && b.y <= s.y,
    {
        let mut w: usize = 0;
        let mut y: usize = 0;
        while y < self.chars.len()
            invariant
                y <= self.chars.len(),
                forall|j: int| 0 <= j < y ==> (#[trigger] self@.rows[j]).len() <= w,
                w == 0 || exists|j: int| 0 <= j < y && (#[trigger] self@.rows[j]).len() == w,
            decreases self.chars.len() - y,
        {
            assert(self@.rows[y as int] == self.chars@[y as int]@);
            if self.chars[y].len() > w {
                w = self.chars[y].len();
            }
            y += 1;
        }
        let mut h: usize = self.chars.len();
        let mut i: usize = 0;
        while i < self.edits.len()
            invariant
                self.wf(),
                i <= self.edits.len(),
                self@.rows.len() <= h,
                forall|j: int| 0 <= j < self@.rows.len() ==> (#[trigger] self@.rows[j]).len() <= w,
                forall|j: int|
                    0 <= j < i ==> (#[trigger] self@.edits[j]).pos.x < w && self@.edits[j].pos.y
                        < h,
                w == 0 || (exists|j: int|
                    0 <= j < self@.rows.len() && (#[trigger] self@.rows[j]).len() == w) || (
                exists|j: int| 0 <= j < i && (#[trigger] self@.edits[j]).pos.x + 1 == w),
                self@.rows.len() == h || (exists|j: int|
                    0 <= j < i && (#[trigger] self@.edits[j]).pos.y + 1 == h),
            decreases self.edits.len() - i,
        {
            let pos = self.edits[i].pos;
            assert(self@.edits[i as int].pos == pos);
            if pos.x + 1 > w {
                w = pos.x + 1;
            }
            if pos.y + 1 > h {
                h = pos.y + 1;
            }
            i += 1;
        }
        if let Some(pos) = self.cursor {
            if pos.x + 1 > w {
                w = pos.x + 1;
            }
            if pos.y + 1 > h {
                h = pos.y + 1;
            }
        }
        let b = Pos { x: w, y: h };
        assert(w == 0 || self@.reaches_x(w as int));
        assert(self@.reaches_y(h as int));
        b
    }
}

/// Cells left of the viewport, and cells of a row above or below it, show
/// nothing.
pub proof fn lemma_row_outside(row: Seq<char>, y: int, offset: Pos, size: Pos, n: int)
    requires
        n <= offset.x || y < offset.y || offset.y + size.y <= y,
    ensures
        row_upto(row, y, offset, size, n) == Seq::<Char>::empty(),
    decreases n,
{
    if 0 < n <= row.len() {
        lemma_row_outside(row, y, offset, size, n - 1);
    }
}

/// Cells right of the viewport show nothing.
pub proof fn lemma_row_right(row: Seq<char>, y: int, offset: Pos, size: Pos, m: int, n: int)
    requires
        0 <= m <= n <= row.len(),
        offset.x + size.x <= m,
    ensures
        row_upto(row, y, offset, size, n) == row_upto(row, y, offset, size, m),
    decreases n,
{
    if m < n {
        lemma_row_right(row, y, offset, size, m, n - 1);
    }
}

/// Rows above the viewport show nothing.
pub proof fn lemma_clean_above(rows: Seq<Seq<char>>, offset: Pos, size: Pos, n: int)
    requires
        n <= offset.y,
    ensures
        clean_upto(rows, offset, size, n) == Seq::<Char>::empty(),
    decreases n,
{
    if 0 < n <= rows.len() {
        lemma_clean_above(rows, offset, size, n - 1);
        lemma_row_outside(rows[n - 1], n - 1, offset, size, rows[n - 1].len() as int);
        assert(clean_upto(rows, offset, size, n) =~= Seq::<Char>::empty());
    }
}

/// Rows below the viewport show nothing.
pub proof fn lemma_clean_below(rows: Seq<Seq<char>>, offset: Pos, size: Pos, m: int, n: int)
    requires
        0 <= m <= n <= rows.len(),
        offset.y + size.y <= m,
    ensures
        clean_upto(rows, offset, size, n) == clean_upto(rows, offset, size, m),
    decreases n,
{
    if m < n {
        lemma_clean_below(rows, offset, size, m, n - 1);
        lemma_row_outside(rows[n - 1], n - 1, offset, size, rows[n - 1].len() as int);
        assert(clean_upto(rows, offset, size, n) =~= clean_upto(rows, offset, size, n - 1));
    }
}

/// Appends to `out` the cells of row `y` that lie in the viewport.
fn push_row(out: &mut Vec<Char>, row: &Vec<char>, y: usize, offset: Pos, size: Pos)
    requires
        offset.y <= y < offset.y + size.y,
    ensures
        final(out)@ == old(out)@ + row_upto(row@, y as int, offset, size, row@.len() as int),
        forall|i: int|
            old(out)@.len() <= i < final(out)@.len() ==> (#[trigger] final(out)@[i]).cell().pos.x
                < row@.len() && final(out)@[i].cell().pos.y == y,
{
    let len = row.len();
    let left = if offset.x < len { offset.x } else { len };
    let right = if size.x < len - left { left + size.x } else { len };
    proof {
        lemma_row_outside(row@, y as int, offset, size, left as int);
        assert(out@ =~= old(out)@ + row_upto(row@, y as int, offset, size, left as int));
    }
    let mut x: usize = left;
    while x < right
        invariant
            left <= x <= right <= len,
            len == row.len(),
            left == offset.x || left == len,
            right <= offset.x + size.x,
            offset.y <= y < offset.y + size.y,
            out@ == old(out)@ + row_upto(row@, y as int, offset, size, x as int),
            forall|i: int|
                old(out)@.len() <= i < out@.len() ==> (#[trigger] out@[i]).cell().pos.x < row@.len()
                    && out@[i].cell().pos.y == y,
        decreases right - x,
    {
        let ghost seen = row_upto(row@, y as int, offset, size, x as int);
        let cell = Char::Clean(Cell { pos: Pos { x, y }, c: char_at(row, x) });
        out.push(cell);
        assert(out@ =~= old(out)@ + seen.push(cell));
        x += 1;
    }
    proof {
        if right < len {
            lemma_row_right(row@, y as int, offset, size, right as int, len as int);
        }
    }
}

impl Buffer {
    /// Returns all characters within the viewport formed by `offset` and
    /// `size`: the committed cells row by row, then the pending edits, then
    /// the cursor.
    pub fn iter_within(&self, offset: Pos, size: Pos) -> (cells: Vec<Char>)
        ensures
            cells@ == self@.viewport(offset, size),
            self.wf() ==> forall|i: int|
                0 <= i < cells@.len() ==> (#[trigger] cells@[i]).cell().pos.in_range(),
    {
        let mut out: Vec<Char> = Vec::new();
        let rows = self.chars.len();
        let first = if offset.y < rows { offset.y } else { rows };
        let last = if size.y < rows - first { first + size.y } else { rows };
        proof {
            lemma_clean_above(self@.rows, offset, size, first as int);
        }
        let mut y: usize = first;
        while y < last
            invariant
                first <= y <= last <= rows,
                rows == self.chars.len(),
                first == offset.y || first == rows,
                last <= offset.y + size.y,
                out@ == clean_upto(self@.rows, offset, size, y as int),
                self.wf() ==> forall|i: int|
                    0 <= i < out@.len() ==> (#[trigger] out@[i]).cell().pos.in_range(),
            decreases last - y,
        {
            assert(self@.rows[y as int] == self.chars@[y as int]@);
            push_row(&mut out, &self.chars[y], y, offset, size);
            y += 1;
        }
        proof {
            if last < rows {
                lemma_clean_below(self@.rows, offset, size, last as int, rows as int);
            }
        }
        let ghost clean = out@;
        let mut i: usize = 0;
        while i < self.edits.len()
            invariant
                i <= self.edits.len(),
                out@ == clean + dirty_upto(self@.edits, offset, size, i as int),
                self.wf() ==> forall|i: int|
                    0 <= i < out@.len() ==> (#[trigger] out@[i]).cell().pos.in_range(),
            decreases self.edits.len() - i,
        {
            let cell = self.edits[i];
            assert(self@.edits[i as int] == cell);
            if cell.pos.x >= offset.x && cell.pos.x - offset.x < size.x && cell.pos.y >= offset.y
                && cell.pos.y - offset.y < size.y {
                out.push(Char::Dirty(cell));
            }
            i += 1;
        }
        if let Some(pos) = self.cursor {
            out.push(Char::Cursor(Cell { pos, c: CURS }));
        }
        assert(out@ =~= self@.viewport(offset, size));
        out
    }
}

} // verus!
