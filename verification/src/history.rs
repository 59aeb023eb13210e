//! The editor: the live buffer, the tool at work on it, and the snapshots
//! that undo and redo move between.

use vstd::prelude::*;
use crate::geometry::Pos;
use crate::grid::{Buffer, GridView};
use crate::rows::{strip_margins, strip_trailing};
use crate::toolbox::{Tool, ToolView};
use crate::tools::{next_mode, Drag, Gesture, Key, Options};

verus! {

/// What an [`Editor`] holds.
pub ghost struct EditorView {
    pub opts: Options,
    /// The live buffer.
    pub buffer: GridView,
    /// A snapshot of the buffer as it was last saved or loaded.
    pub saved: GridView,
    /// The buffer was modified since it was last saved.
    pub dirty: bool,
    /// Snapshots to go back to, oldest first.
    pub undo: Seq<GridView>,
    /// Buffers that an undo displaced, oldest first.
    pub redo: Seq<GridView>,
    /// The active tool.
    pub tool: ToolView,
    /// The size the view keeps reserved for the diagram.
    pub canvas: Pos,
}

/// The views of a stack of buffers.
pub open spec fn stack_view(stack: Seq<Buffer>) -> Seq<GridView> {
    Seq::new(stack.len(), |i: int| stack[i]@)
}

/// Every buffer of a stack is well formed.
pub open spec fn stack_wf(stack: Seq<GridView>) -> bool {
    forall|i: int| 0 <= i < stack.len() ==> (#[trigger] stack[i]).wf()
}

/// The text without its last character, if that is a line feed.
pub open spec fn without_final_newline(text: Seq<char>) -> Seq<char> {
    if text.len() > 0 && text.last() == '\n' {
        text.drop_last()
    } else {
        text
    }
}

/// The larger of `a` and `b`.
pub open spec fn most(a: int, b: int) -> int {
    if a < b {
        b
    } else {
        a
    }
}

impl EditorView {
    /// Buffers, snapshots and tool are all well formed.
    pub open spec fn wf(self) -> bool {
        &&& self.buffer.wf()
        &&& self.saved.wf()
        &&& stack_wf(self.undo)
        &&& stack_wf(self.redo)
        &&& self.tool.wf()
    }

    /// The editor with a snapshot of the buffer on the undo stack and the
    /// pending edits discarded: the state in which a mutation begins.
    pub open spec fn begin(self) -> EditorView {
        EditorView {
            undo: self.undo.push(self.buffer.snapshot()),
            buffer: self.buffer.discard(),
            ..self
        }
    }

    /// The editor after a mutation: dirty if the committed rows differ from
    /// the newest snapshot, and without that snapshot if they do not.
    pub open spec fn end(self) -> EditorView {
        if self.undo.len() == 0 {
            self
        } else if self.undo.last().rows == self.buffer.rows {
            EditorView { undo: self.undo.drop_last(), ..self }
        } else {
            EditorView { dirty: true, ..self }
        }
    }

    /// The editor with `buffer` for its live buffer.
    pub open spec fn with_buffer(self, buffer: GridView) -> EditorView {
        EditorView { buffer, ..self }
    }

    /// The editor after the last modification was undone: unchanged if
    /// there is none.
    pub open spec fn undo(self) -> EditorView {
        if self.undo.len() == 0 {
            self
        } else {
            EditorView {
                buffer: self.undo.last(),
                undo: self.undo.drop_last(),
                redo: self.redo.push(self.buffer),
                dirty: self.undo.last().rows != self.saved.rows,
                ..self
            }
        }
    }

    /// The editor after the last undone modification was redone: unchanged
    /// if there is none.
    pub open spec fn redo(self) -> EditorView {
        if self.redo.len() == 0 {
            self
        } else {
            EditorView {
                buffer: self.redo.last(),
                redo: self.redo.drop_last(),
                undo: self.undo.push(self.buffer),
                dirty: self.redo.last().rows != self.saved.rows,
                ..self
            }
        }
    }

    /// The editor after the active tool staged its drawing as a preview.
    pub open spec fn preview(self) -> EditorView {
        self.with_buffer(self.tool.rendered(self.buffer.discard()))
    }

    /// The editor after the active tool's drawing was written into the
    /// document as one modification.
    pub open spec fn clobber(self) -> EditorView {
        let begun = self.begin();
        let drawn = GridView { cursor: None, ..begun.tool.rendered(begun.buffer).flush() };
        begun.with_buffer(drawn).end()
    }

    /// The editor after the margins were trimmed as one modification.
    pub open spec fn trim_margins(self) -> EditorView {
        let begun = self.begin();
        EditorView {
            canvas: Pos { x: 0, y: 0 },
            buffer: GridView { rows: strip_margins(begun.buffer.rows), ..begun.buffer },
            ..begun
        }.end()
    }

    /// The rows as they are written on save: without margins where the
    /// options say so, else without trailing white space unless the options
    /// keep it.
    pub open spec fn rows_to_save(self) -> Seq<Seq<char>> {
        if self.opts.strip_margin_ws {
            strip_margins(self.buffer.rows)
        } else if !self.opts.keep_trailing_ws {
            strip_trailing(self.buffer.rows)
        } else {
            self.buffer.rows
        }
    }

    /// The editor made ready for saving: the white space cleaned up as one
    /// modification.
    pub open spec fn prepare_save(self) -> EditorView {
        let begun = EditorView { canvas: Pos { x: 0, y: 0 }, ..self }.begin();
        begun.with_buffer(GridView { rows: self.rows_to_save(), ..begun.buffer }).end()
    }

    /// The editor after the buffer was saved.
    pub open spec fn mark_saved(self) -> EditorView {
        EditorView { saved: self.buffer.snapshot(), dirty: false, ..self }
    }

    /// The editor with a blank diagram and no history.
    pub open spec fn clear(self) -> EditorView {
        EditorView {
            buffer: GridView::empty(),
            saved: GridView::empty(),
            dirty: false,
            undo: Seq::empty(),
            redo: Seq::empty(),
            canvas: Pos { x: 0, y: 0 },
            ..self
        }
    }

    /// The editor after an event with the gesture `g`: a preview or a
    /// commit of what the tool draws, after which the tool rests.
    pub open spec fn act(self, g: Gesture) -> EditorView {
        match g {
            Gesture::Ignored => self,
            Gesture::Preview => self.preview(),
            Gesture::Commit => {
                let done = self.clobber();
                EditorView { tool: done.tool.idle(), ..done }
            },
        }
    }
}

/// The editor.
pub struct Editor {
    opts: Options,
    buffer: Buffer,
    lsave: Buffer,
    dirty: bool,
    undo_history: Vec<Buffer>,
    redo_history: Vec<Buffer>,
    active_tool: Tool,
    canvas: Pos,
}

impl View for Editor {
    type V = EditorView;

    closed spec fn view(&self) -> EditorView {
        EditorView {
            opts: self.opts,
            buffer: self.buffer@,
            saved: self.lsave@,
            dirty: self.dirty,
            undo: stack_view(self.undo_history@),
            redo: stack_view(self.redo_history@),
            tool: self.active_tool@,
            canvas: self.canvas,
        }
    }
}

impl Editor {
    /// Buffers, snapshots and tool are all well formed.
    pub open spec fn wf(&self) -> bool {
        self@.wf()
    }

    /// Returns an editor with a blank diagram and the box tool.
    pub fn new(opts: Options) -> (e: Editor)
        ensures
            e.wf(),
            e@ == (EditorView {
                opts,
                buffer: GridView::empty(),
                saved: GridView::empty(),
                dirty: false,
                undo: Seq::empty(),
                redo: Seq::empty(),
                tool: ToolView::Box(Drag::idle()),
                canvas: Pos { x: 0, y: 0 },
            }),
    {
        let e = Editor {
            opts,
            buffer: Buffer::new(),
            lsave: Buffer::new(),
            dirty: false,
            undo_history: Vec::new(),
            redo_history: Vec::new(),
            active_tool: Tool::Box(Drag::new()),
            canvas: Pos { x: 0, y: 0 },
        };
        assert(e@.undo =~= Seq::empty());
        assert(e@.redo =~= Seq::empty());
        e
    }

    /// Returns the options.
    pub fn opts(&self) -> (o: Options)
        ensures
            o == self@.opts,
    {
        self.opts
    }

    /// Replace the options, and hand them to the active tool.
    pub fn set_opts(&mut self, opts: Options)
        ensures
            final(self)@ == (EditorView { opts, tool: old(self)@.tool.with_opts(opts), ..old(self)@ }),
            old(self).wf() ==> final(self).wf(),
    {
        self.opts = opts;
        self.active_tool.load_opts(&opts);
    }

    /// Switch to the next path mode, and hand it to the active tool.
    pub fn cycle_path_mode(&mut self)
        ensures
            final(self)@ == ({
                let opts = Options { path_mode: next_mode(old(self)@.opts.path_mode), ..old(self)@.opts };
                EditorView { opts, tool: old(self)@.tool.with_opts(opts), ..old(self)@ }
            }),
            old(self).wf() ==> final(self).wf(),
    {
        let mut opts = self.opts;
        opts.cycle_path_mode();
        self.set_opts(opts);
    }

    /// Returns `true` if the buffer has been modified since the last save.
    pub fn is_dirty(&self) -> (d: bool)
        ensures
            d == self@.dirty,
    {
        self.dirty
    }

    /// Returns the live buffer.
    pub fn buffer(&self) -> (b: &Buffer)
        ensures
            b@ == self@.buffer,
    {
        &self.buffer
    }

    /// Returns the active tool.
    pub fn active_tool(&self) -> (t: &Tool)
        ensures
            t@ == self@.tool,
    {
        &self.active_tool
    }

    /// Returns the number of modifications that can be undone.
    pub fn undo_depth(&self) -> (n: usize)
        ensures
            n == self@.undo.len(),
    {
        self.undo_history.len()
    }

    /// Returns the number of modifications that can be redone.
    pub fn redo_depth(&self) -> (n: usize)
        ensures
            n == self@.redo.len(),
    {
        self.redo_history.len()
    }

    /// Set the active tool. Pending edits and the cursor of the tool it
    /// replaces are dropped.
    pub fn set_tool(&mut self, tool: Tool)
        ensures
            final(self)@ == (EditorView {
                buffer: GridView { cursor: None, ..old(self)@.buffer.discard() },
                tool: tool@.with_opts(old(self)@.opts),
                ..old(self)@
            }),
            old(self).wf() && tool.wf() ==> final(self).wf(),
    {
        let mut tool = tool;
        self.buffer.discard_edits();
        self.buffer.drop_cursor();
        tool.load_opts(&self.opts);
        self.active_tool = tool;
    }

    /// Clear all buffer state and begin a blank diagram.
    pub fn clear(&mut self)
        ensures
            final(self)@ == old(self)@.clear(),
            old(self).wf() ==> final(self).wf(),
    {
        self.buffer.clear();
        self.lsave.clear();
        self.dirty = false;
        self.undo_history.clear();
        self.redo_history.clear();
        self.canvas = Pos { x: 0, y: 0 };
        assert(self@.undo =~= Seq::empty());
        assert(self@.redo =~= Seq::empty());
    }

    /// Begin with the diagram of a file: `loaded` is its content, or `None`
    /// for a file that does not exist yet. Unsaved changes and the history
    /// are discarded.
    pub fn load(&mut self, loaded: Option<Buffer>)
        requires
            loaded matches Some(b) ==> b.wf(),
        ensures
            final(self)@ == (match loaded {
                Some(b) => EditorView { buffer: b@, saved: b@.snapshot(), ..old(self)@.clear() },
                None => old(self)@.clear(),
            }),
            old(self).wf() ==> final(self).wf(),
    {
        self.clear();
        if let Some(buf) = loaded {
            self.lsave = buf.snapshot();
            self.buffer = buf;
        }
    }

    /// Take a snapshot of the buffer and discard any pending edits: the
    /// start of a modification that [`Editor::end_snapshot`] ends.
    pub fn begin_snapshot(&mut self)
        requires
            old(self).wf(),
        ensures
            final(self)@ == old(self)@.begin(),
            final(self).wf(),
    {
        let snapshot = self.buffer.snapshot();
        self.undo_history.push(snapshot);
        self.buffer.discard_edits();
        assert(self@.undo =~= old(self)@.undo.push(old(self)@.buffer.snapshot()));
    }

    /// End a modification: mark the buffer dirty if its committed rows
    /// differ from the newest snapshot, and remove that snapshot if they do
    /// not. Without a snapshot nothing happens.
    pub fn end_snapshot(&mut self)
        requires
            old(self).wf(),
        ensures
            final(self)@ == old(self)@.end(),
            final(self).wf(),
    {
        let n = self.undo_history.len();
        if n == 0 {
            return ;
        }
        assert(self@.undo.last() == self.undo_history@[n - 1]@);
        if self.undo_history[n - 1].same_rows(&self.buffer) {
            self.undo_history.pop();
            assert(self@.undo =~= old(self)@.undo.drop_last());
        } else {
            self.dirty = true;
        }
    }

    /// Undo the last buffer modification.
    ///
    /// Returns `false` if there was nothing to undo.
    pub fn undo(&mut self) -> (undone: bool)
        requires
            old(self).wf(),
        ensures
            final(self)@ == old(self)@.undo(),
            undone == (old(self)@.undo.len() > 0),
            final(self).wf(),
    {
        match self.undo_history.pop() {
            Some(buffer) => {
                let mut displaced = buffer;
                assert(displaced@ == old(self)@.undo.last());
                std::mem::swap(&mut self.buffer, &mut displaced);
                self.redo_history.push(displaced);
                self.dirty = !self.buffer.same_rows(&self.lsave);
                assert(self@.undo =~= old(self)@.undo.drop_last());
                assert(self@.redo =~= old(self)@.redo.push(old(self)@.buffer));
                true
            },
            None => false,
        }
    }

    /// Redo the last undone buffer modification.
    ///
    /// Returns `false` if there was nothing to redo.
    pub fn redo(&mut self) -> (redone: bool)
        requires
            old(self).wf(),
        ensures
            final(self)@ == old(self)@.redo(),
            redone == (old(self)@.redo.len() > 0),
            final(self).wf(),
    {
        match self.redo_history.pop() {
            Some(buffer) => {
                let mut displaced = buffer;
                assert(displaced@ == old(self)@.redo.last());
                std::mem::swap(&mut self.buffer, &mut displaced);
                self.undo_history.push(displaced);
                self.dirty = !self.buffer.same_rows(&self.lsave);
                assert(self@.redo =~= old(self)@.redo.drop_last());
                assert(self@.undo =~= old(self)@.undo.push(old(self)@.buffer));
                true
            },
            None => false,
        }
    }

    /// Show what the active tool draws, without flushing any changes.
    pub fn preview(&mut self)
        requires
            old(self).wf(),
        ensures
            final(self)@ == old(self)@.preview(),
            final(self).wf(),
    {
        self.buffer.discard_edits();
        self.active_tool.render(&mut self.buffer);
    }

    /// Write what the active tool draws into the buffer, saving a snapshot
    /// of the buffer's prior state in the undo history.
    pub fn clobber(&mut self)
        requires
            old(self).wf(),
        ensures
            final(self)@ == old(self)@.clobber(),
            final(self)@.buffer.edits.len() == 0,
            final(self)@.buffer.cursor is None,
            final(self).wf(),
    {
        self.begin_snapshot();
        self.active_tool.render(&mut self.buffer);
        self.buffer.flush_edits();
        self.buffer.drop_cursor();
        self.end_snapshot();
    }

    /// Trim all whitespace from margins.
    pub fn trim_margins(&mut self)
        requires
            old(self).wf(),
        ensures
            final(self)@ == old(self)@.trim_margins(),
            final(self).wf(),
    {
        self.begin_snapshot();
        self.canvas = Pos { x: 0, y: 0 };
        self.buffer.strip_margin_whitespace();
        self.end_snapshot();
    }

    /// Clean up white space as the options ask for, and return the text to
    /// write: every row followed by a line feed.
    pub fn prepare_save(&mut self) -> (text: Vec<char>)
        requires
            old(self).wf(),
        ensures
            final(self)@ == old(self)@.prepare_save(),
            text@ == final(self)@.buffer.text(Seq::empty()),
            final(self).wf(),
    {
        self.canvas = Pos { x: 0, y: 0 };
        self.begin_snapshot();
        if self.opts.strip_margin_ws {
            self.buffer.strip_margin_whitespace();
        } else if !self.opts.keep_trailing_ws {
            self.buffer.strip_trailing_whitespace();
        }
        self.end_snapshot();
        let prefix: Vec<char> = Vec::new();
        self.buffer.iter(&prefix)
    }

    /// Record that the buffer was written to its file.
    pub fn mark_saved(&mut self)
        ensures
            final(self)@ == old(self)@.mark_saved(),
            old(self).wf() ==> final(self).wf(),
    {
        self.lsave = self.buffer.snapshot();
        self.dirty = false;
    }

    /// Returns the text for the clipboard: the rows without their margins,
    /// each after `prefix`, with line feeds between them. The buffer stays
    /// as it is.
    pub fn clipboard_text(&self, prefix: &Vec<char>) -> (text: Vec<char>)
        ensures
            text@ == without_final_newline(
                (GridView { rows: strip_margins(self@.buffer.rows), ..self@.buffer }).text(prefix@),
            ),
    {
        let mut buf = self.buffer.duplicate();
        buf.strip_margin_whitespace();
        let mut text = buf.iter(prefix);
        let n = text.len();
        if n > 0 && text[n - 1] == '\n' {
            text.pop();
        }
        text
    }

    /// The button went down at `pos`.
    pub fn on_press(&mut self, pos: Pos) -> (g: Gesture)
        requires
            old(self).wf(),
        ensures
            final(self)@ == old(self)@.with_tool(old(self)@.tool.pressed(pos)).act(g),
            g == Gesture::Preview,
            final(self).wf(),
    {
        let g = self.active_tool.on_press(pos);
        self.act(g);
        g
    }

    /// The pointer moved to `pos` with the button down.
    pub fn on_hold(&mut self, pos: Pos) -> (g: Gesture)
        requires
            old(self).wf(),
        ensures
            final(self)@ == old(self)@.with_tool(old(self)@.tool.held(pos)).act(g),
            g == old(self)@.tool.hold_gesture(),
            final(self).wf(),
    {
        let g = self.active_tool.on_hold(pos);
        self.act(g);
        g
    }

    /// The button went up at `pos`.
    pub fn on_release(&mut self, pos: Pos) -> (g: Gesture)
        requires
            old(self).wf(),
        ensures
            final(self)@ == old(self)@.with_tool(old(self)@.tool.released(pos)).act(g),
            g == old(self)@.tool.release_gesture(),
            final(self).wf(),
    {
        let g = self.active_tool.on_release(pos);
        self.act(g);
        g
    }

    /// `key` went down.
    pub fn on_key(&mut self, key: Key) -> (g: Gesture)
        requires
            old(self).wf(),
        ensures
            final(self)@ == old(self)@.with_tool(old(self)@.tool.keyed(key)).act(g),
            g == old(self)@.tool.key_gesture(key),
            final(self).wf(),
    {
        let g = self.active_tool.on_key(key);
        self.act(g);
        g
    }

    /// Do what the gesture `g` asks for: preview what the tool draws, or
    /// commit it and let the tool rest.
    pub fn act(&mut self, g: Gesture)
        requires
            old(self).wf(),
        ensures
            final(self)@ == old(self)@.act(g),
            final(self).wf(),
    {
        match g {
            Gesture::Ignored => {},
            Gesture::Preview => {
                self.preview();
            },
            Gesture::Commit => {
                self.clobber();
                self.active_tool.reset();
            },
        }
    }

    /// Returns the size the view keeps reserved for the diagram.
    pub fn canvas(&self) -> (c: Pos)
        ensures
            c == self@.canvas,
    {
        self.canvas
    }

    /// Reserve `canvas` for the diagram.
    pub fn set_canvas(&mut self, canvas: Pos)
        ensures
            final(self)@ == (EditorView { canvas, ..old(self)@ }),
            old(self).wf() ==> final(self).wf(),
    {
        self.canvas = canvas;
    }

    /// Grow the canvas to hold the buffer, and return the size the view
    /// needs to show it in a window of `size`: the larger of the two on each
    /// axis.
    pub fn required_size(&mut self, size: Pos) -> (r: Pos)
        requires
            old(self).wf(),
        ensures
            final(self)@.buffer.covers(final(self)@.canvas),
            final(self)@.canvas.x >= old(self)@.canvas.x,
            final(self)@.canvas.y >= old(self)@.canvas.y,
            forall|s: Pos|
                old(self)@.buffer.covers(s) && s.x >= old(self)@.canvas.x && s.y >= old(
                    self,
                )@.canvas.y ==> final(self)@.canvas.x <= s.x && final(self)@.canvas.y <= s.y,
            final(self)@ == (EditorView { canvas: final(self)@.canvas, ..old(self)@ }),
            r.x == most(size.x as int, final(self)@.canvas.x as int),
            r.y == most(size.y as int, final(self)@.canvas.y as int),
            final(self).wf(),
    {
        let bounds = self.buffer.bounds();
        self.canvas = Pos {
            x: if bounds.x < self.canvas.x { self.canvas.x } else { bounds.x },
            y: if bounds.y < self.canvas.y { self.canvas.y } else { bounds.y },
        };
        Pos {
            x: if size.x < self.canvas.x { self.canvas.x } else { size.x },
            y: if size.y < self.canvas.y { self.canvas.y } else { size.y },
        }
    }
}

impl EditorView {
    /// The editor with `tool` for its active tool.
    pub open spec fn with_tool(self, tool: ToolView) -> EditorView {
        EditorView { tool, ..self }
    }
}

} // verus!
