//! The text tool: lines of text typed at a place on the grid, with a cursor
//! that the arrow keys move through them.

use vstd::prelude::*;
use crate::geometry::Pos;
use crate::grid::{Buffer, Cell, GridView};
use crate::rows::{char_at, rows_view};
use crate::tools::{Gesture, Key};

verus! {

/// What a [`TextTool`] holds.
pub ghost struct TextView {
    /// Where the text starts on the grid; `None` before the first press.
    pub src: Option<Pos>,
    /// Keys are taken only once the button that placed the text went up.
    pub ready: bool,
    /// The lines typed so far.
    pub lines: Seq<Seq<char>>,
    /// The cursor: a column and a line of the text.
    pub cursor: Pos,
}

/// The smaller of `a` and `b`.
pub open spec fn least(a: int, b: int) -> int {
    if a < b {
        a
    } else {
        b
    }
}

/// The first `n` characters of line `y`, each a cell at its place on the
/// grid when the text starts at `src`.
pub open spec fn line_cells(line: Seq<char>, y: int, src: Pos, n: int) -> Seq<Cell>
    decreases n,
{
    if n <= 0 || n > line.len() {
        Seq::empty()
    } else {
        line_cells(line, y, src, n - 1).push(Cell { pos: src.moved(n - 1, y), c: line[n - 1] })
    }
}

/// The characters of the first `n` lines, line by line, each a cell at its
/// place on the grid when the text starts at `src`.
pub open spec fn text_cells(lines: Seq<Seq<char>>, src: Pos, n: int) -> Seq<Cell>
    decreases n,
{
    if n <= 0 || n > lines.len() {
        Seq::empty()
    } else {
        text_cells(lines, src, n - 1) + line_cells(
            lines[n - 1],
            n - 1,
            src,
            lines[n - 1].len() as int,
        )
    }
}

impl TextView {
    /// No text placed.
    pub open spec fn idle() -> TextView {
        TextView { src: None, ready: false, lines: Seq::empty(), cursor: Pos { x: 0, y: 0 } }
    }

    /// The cursor lies in a line of the text, at one of its characters or
    /// just past the last; text that takes keys has a line.
    pub open spec fn wf(self) -> bool {
        &&& self.ready ==> self.lines.len() > 0
        &&& self.lines.len() > 0 ==> self.cursor.y < self.lines.len() && self.cursor.x
            <= self.lines[self.cursor.y as int].len()
    }

    /// The line the cursor is in.
    pub open spec fn line(self) -> Seq<char> {
        self.lines[self.cursor.y as int]
    }

    /// The text after the button went down at `pos`: one empty line there.
    pub open spec fn pressed(self, pos: Pos) -> TextView {
        TextView {
            src: Some(pos),
            ready: false,
            lines: seq![Seq::<char>::empty()],
            cursor: Pos { x: 0, y: 0 },
        }
    }

    /// The text after the button went up: it takes keys from now on, if it
    /// was placed.
    pub open spec fn released(self) -> TextView {
        if self.lines.len() > 0 {
            TextView { ready: true, ..self }
        } else {
            self
        }
    }

    /// The text after `c` was typed at the cursor.
    pub open spec fn typed(self, c: char) -> TextView {
        TextView {
            lines: self.lines.update(
                self.cursor.y as int,
                self.line().insert(self.cursor.x as int, c),
            ),
            cursor: Pos { x: (self.cursor.x + 1) as usize, y: self.cursor.y },
            ..self
        }
    }

    /// The text with the cursor in line `y`, in its column or at the end of
    /// the line where that is shorter.
    pub open spec fn at_line(self, y: int) -> TextView {
        TextView {
            cursor: Pos {
                x: least(self.lines[y].len() as int, self.cursor.x as int) as usize,
                y: y as usize,
            },
            ..self
        }
    }

    /// The text after the cursor moved up a line.
    pub open spec fn up(self) -> TextView {
        self.at_line(if self.cursor.y > 0 { self.cursor.y - 1 } else { 0 })
    }

    /// The text after the cursor moved down a line.
    pub open spec fn down(self) -> TextView {
        self.at_line(least(self.lines.len() - 1, self.cursor.y + 1))
    }

    /// The text after the cursor moved left.
    pub open spec fn left(self) -> TextView {
        TextView {
            cursor: Pos {
                x: if self.cursor.x > 0 { (self.cursor.x - 1) as usize } else { 0 },
                y: self.cursor.y,
            },
            ..self
        }
    }

    /// The text after the cursor moved right.
    pub open spec fn right(self) -> TextView {
        TextView {
            cursor: Pos {
                x: least(self.line().len() as int, self.cursor.x + 1) as usize,
                y: self.cursor.y,
            },
            ..self
        }
    }

    /// The text after the line was broken at the cursor.
    pub open spec fn broken(self) -> TextView {
        let y = self.cursor.y as int;
        let x = self.cursor.x as int;
        TextView {
            lines: self.lines.update(y, self.line().take(x)).insert(y + 1, self.line().skip(x)),
            cursor: Pos { x: 0, y: (y + 1) as usize },
            ..self
        }
    }

    /// The text after the character before the cursor was deleted, or, at
    /// the start of a line, the line was joined to the one above.
    pub open spec fn deleted(self) -> TextView {
        let y = self.cursor.y as int;
        let x = self.cursor.x as int;
        if x > 0 {
            TextView {
                lines: self.lines.update(y, self.line().remove(x - 1)),
                cursor: Pos { x: (x - 1) as usize, y: self.cursor.y },
                ..self
            }
        } else if y > 0 {
            TextView {
                lines: self.lines.remove(y).update(y - 1, self.lines[y - 1] + self.lines[y]),
                cursor: Pos { x: self.lines[y - 1].len() as usize, y: (y - 1) as usize },
                ..self
            }
        } else {
            self
        }
    }

    /// The text after `key`, which changes it only once it takes keys.
    pub open spec fn keyed(self, key: Key) -> TextView {
        if !self.ready {
            self
        } else {
            match key {
                Key::Char(c) => self.typed(c),
                Key::Up => self.up(),
                Key::Down => self.down(),
                Key::Left => self.left(),
                Key::Right => self.right(),
                Key::Enter => self.broken(),
                Key::Backspace => self.deleted(),
                Key::Del => self.deleted(),
                Key::Esc => self,
            }
        }
    }

    /// What the tool stages on `g`: every character of the text, forced, and
    /// the cursor.
    pub open spec fn rendered(self, g: GridView) -> GridView {
        match self.src {
            Some(src) if src.in_range() => GridView {
                cursor: Some(src.moved(self.cursor.x as int, self.cursor.y as int)),
                ..g.force_all(text_cells(self.lines, src, self.lines.len() as int))
            },
            _ => g,
        }
    }
}

/// The text tool.
pub struct TextTool {
    src: Option<Pos>,
    ready: bool,
    buffer: Vec<Vec<char>>,
    cursor: Pos,
}

impl View for TextTool {
    type V = TextView;

    closed spec fn view(&self) -> TextView {
        TextView {
            src: self.src,
            ready: self.ready,
            lines: rows_view(self.buffer@),
            cursor: self.cursor,
        }
    }
}

impl TextTool {
    /// The cursor lies in the text.
    pub open spec fn wf(&self) -> bool {
        self@.wf()
    }

    /// Returns a tool with no text placed.
    pub fn new() -> (t: TextTool)
        ensures
            t@ == TextView::idle(),
            t.wf(),
    {
        let t = TextTool { src: None, ready: false, buffer: Vec::new(), cursor: Pos { x: 0, y: 0 } };
        assert(t@.lines =~~= Seq::empty());
        t
    }

    /// Forget the text.
    pub fn reset(&mut self)
        ensures
            final(self)@ == TextView::idle(),
            final(self).wf(),
    {
        self.src = None;
        self.ready = false;
        self.buffer.clear();
        self.cursor = Pos { x: 0, y: 0 };
        assert(self@.lines =~~= Seq::empty());
    }

    /// Returns where the text starts on the grid.
    pub fn src(&self) -> (r: Option<Pos>)
        ensures
            r == self@.src,
    {
        self.src
    }

    /// The button went down at `pos`: new text starts there.
    pub fn on_press(&mut self, pos: Pos) -> (g: Gesture)
        ensures
            final(self)@ == old(self)@.pressed(pos),
            final(self).wf(),
            g == Gesture::Preview,
    {
        self.src = Some(pos);
        self.ready = false;
        self.buffer.clear();
        self.buffer.push(Vec::new());
        self.cursor = Pos { x: 0, y: 0 };
        assert(self@.lines =~~= seq![Seq::<char>::empty()]);
        Gesture::Preview
    }

    /// The button went up: the text takes keys from now on.
    pub fn on_release(&mut self) -> (g: Gesture)
        requires
            old(self).wf(),
        ensures
            final(self)@ == old(self)@.released(),
            final(self).wf(),
            g == Gesture::Preview,
    {
        if self.buffer.len() > 0 {
            self.ready = true;
        }
        Gesture::Preview
    }

    /// A key went down. `Esc` asks to commit the text; any other key edits
    /// it or moves the cursor. Before the text takes keys, all are ignored.
    pub fn on_key(&mut self, key: Key) -> (g: Gesture)
        requires
            old(self).wf(),
        ensures
            final(self)@ == old(self)@.keyed(key),
            final(self).wf(),
            g == (if !old(self)@.ready {
                Gesture::Ignored
            } else if key == Key::Esc {
                Gesture::Commit
            } else {
                Gesture::Preview
            }),
    {
        if !self.ready {
            return Gesture::Ignored;
        }
        let x = self.cursor.x;
        let y = self.cursor.y;
        let ghost before = self@;
        assert(before.line() == self.buffer@[y as int]@);
        match key {
            Key::Char(c) => {
                let line = &mut self.buffer[y];
                line.insert(x, c);
                proof {
                    before.line().insert_ensures(x as int, c);
                }
                let len = line.len();
                assert(x < len);
                self.cursor.x = x + 1;
                assert(self@.lines =~~= before.typed(c).lines);
            },
            Key::Up => {
                let to = if y > 0 { y - 1 } else { 0 };
                self.move_to_line(to);
            },
            Key::Down => {
                let to = if self.buffer.len() - 1 < y + 1 { self.buffer.len() - 1 } else { y + 1 };
                self.move_to_line(to);
            },
            Key::Left => {
                self.cursor.x = if x > 0 { x - 1 } else { 0 };
            },
            Key::Right => {
                let len = self.buffer[y].len();
                self.cursor.x = if x < len { x + 1 } else { len };
            },
            Key::Enter => {
                let count = self.buffer.len();
                assert(y < count);
                let line = &mut self.buffer[y];
                let next = line.split_off(x);
                self.buffer.insert(y + 1, next);
                self.cursor.x = 0;
                self.cursor.y = y + 1;
                proof {
                    let kept = before.lines.update(y as int, before.line().take(x as int));
                    kept.insert_ensures(y + 1, before.line().skip(x as int));
                    assert(self@.lines =~~= before.broken().lines);
                }
            },
            Key::Backspace | Key::Del => {
                self.delete_back();
            },
            Key::Esc => {
                return Gesture::Commit;
            },
        }
        Gesture::Preview
    }

    /// Puts the cursor in line `to`, in its column or at the end of the line
    /// where that is shorter.
    fn move_to_line(&mut self, to: usize)
        requires
            old(self).wf(),
            to < old(self)@.lines.len(),
        ensures
            final(self)@ == old(self)@.at_line(to as int),
            final(self).wf(),
    {
        assert(self@.lines[to as int] == self.buffer@[to as int]@);
        let len = self.buffer[to].len();
        self.cursor.y = to;
        if len < self.cursor.x {
            self.cursor.x = len;
        }
    }

    /// Deletes the character before the cursor, or joins the line to the
    /// one above.
    fn delete_back(&mut self)
        requires
            old(self).wf(),
            old(self)@.lines.len() > 0,
        ensures
            final(self)@ == old(self)@.deleted(),
            final(self).wf(),
    {
        let x = self.cursor.x;
        let y = self.cursor.y;
        let ghost before = self@;
        assert(before.line() == self.buffer@[y as int]@);
        if x > 0 {
            let line = &mut self.buffer[y];
            line.remove(x - 1);
            proof {
                before.line().remove_ensures(x - 1);
            }
            self.cursor.x = x - 1;
            assert(self@.lines =~~= before.deleted().lines);
        } else if y > 0 {
            assert(before.lines[y - 1] == self.buffer@[y - 1]@);
            let mut next = self.buffer.remove(y);
            let above = &mut self.buffer[y - 1];
            let len = above.len();
            above.append(&mut next);
            self.cursor.y = y - 1;
            self.cursor.x = len;
            proof {
                before.lines.remove_ensures(y as int);
                assert(self@.lines =~~= before.deleted().lines);
            }
        }
    }

    /// Stage the text and put the cursor where the next character goes.
    pub fn render(&self, buf: &mut Buffer)
        requires
            old(buf).wf(),
        ensures
            final(buf)@ == self@.rendered(old(buf)@),
            final(buf).wf(),
    {
        let src = match self.src {
            Some(src) => src,
            None => {
                return ;
            },
        };
        if !src.is_in_range() {
            return ;
        }
        let ghost start = buf@;
        let mut y: usize = 0;
        assert(start.force_all(Seq::empty()) == start) by {
            assert(start.edits + Seq::<Cell>::empty() =~= start.edits);
        }
        while y < self.buffer.len()
            invariant
                y <= self.buffer.len(),
                src.in_range(),
                buf.wf(),
                buf@ == start.force_all(text_cells(self@.lines, src, y as int)),
            decreases self.buffer.len() - y,
        {
            let line = &self.buffer[y];
            assert(self@.lines[y as int] == line@);
            let ghost above = text_cells(self@.lines, src, y as int);
            let mut x: usize = 0;
            assert(start.edits + (above + line_cells(line@, y as int, src, 0)) =~= start.edits
                + above);
            while x < line.len()
                invariant
                    x <= line.len(),
                    src.in_range(),
                    buf.wf(),
                    buf@ == start.force_all(above + line_cells(line@, y as int, src, x as int)),
                decreases line.len() - x,
            {
                let c = char_at(line, x);
                let pos = src.offset(x, y);
                buf.setv(true, pos, c);
                assert(start.edits + (above + line_cells(line@, y as int, src, x + 1)) =~= (
                start.edits + (above + line_cells(line@, y as int, src, x as int))).push(
                    Cell { pos, c },
                ));
                x += 1;
            }
            y += 1;
        }
        buf.set_cursor(src.offset(self.cursor.x, self.cursor.y));
    }
}

} // verus!
