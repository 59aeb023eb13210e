//! The drawing tools: what each remembers of a gesture in progress, how
//! pointer and key events change that, and what it draws.

use vstd::prelude::*;
use crate::geometry::Pos;
use crate::grid::{Buffer, GridView};
use crate::shapes::{blanked, bottom_right, shifted, top_left, PathMode};

verus! {

/// What the editor is to do with a tool after an event.
#[derive(Clone, Copy, Debug, PartialEq, Eq, Structural)]
pub enum Gesture {
    /// The event is not for this tool; nothing changed.
    Ignored,
    /// Show what the tool draws as pending edits only.
    Preview,
    /// Write what the tool draws into the document, recording an undo step.
    Commit,
}

/// A key event, as far as the tools tell keys apart.
#[derive(Clone, Copy, Debug, PartialEq, Eq, Structural)]
pub enum Key {
    Char(char),
    Up,
    Down,
    Left,
    Right,
    Enter,
    Backspace,
    Del,
    Esc,
}

/// Settings that outlive a tool.
#[derive(Clone, Copy, Debug, PartialEq, Eq, Structural)]
pub struct Options {
    /// How paths are routed.
    pub path_mode: PathMode,
    /// Keep trailing whitespace (on save).
    pub keep_trailing_ws: bool,
    /// Strip all margin whitespace (on save).
    pub strip_margin_ws: bool,
}

/// The mode that follows `mode` when the modes are cycled through.
pub open spec fn next_mode(mode: PathMode) -> PathMode {
    match mode {
        PathMode::Snap90 => PathMode::Snap45,
        PathMode::Snap45 => PathMode::Routed,
        PathMode::Routed => PathMode::Snap90,
    }
}

impl Options {
    /// Switch to the next path mode.
    pub fn cycle_path_mode(&mut self)
        ensures
            *final(self) == (Options { path_mode: next_mode(old(self).path_mode), ..*old(self) }),
    {
        self.path_mode = match self.path_mode {
            PathMode::Snap90 => PathMode::Snap45,
            PathMode::Snap45 => PathMode::Routed,
            PathMode::Routed => PathMode::Snap90,
        };
    }
}

/// The two ends of a drag with the pointer: where the button went down and
/// where the pointer is now.
#[derive(Clone, Copy, Debug, PartialEq, Eq, Structural)]
pub struct Drag {
    pub src: Option<Pos>,
    pub dst: Option<Pos>,
}

impl Drag {
    /// No drag in progress.
    pub open spec fn idle() -> Drag {
        Drag { src: None, dst: None }
    }

    /// Both ends of the drag, where both are set and lie within the grid.
    pub open spec fn ends(self) -> Option<(Pos, Pos)> {
        match (self.src, self.dst) {
            (Some(src), Some(dst)) if src.in_range() && dst.in_range() => Some((src, dst)),
            _ => None,
        }
    }

    /// Returns a drag with neither end set.
    pub fn new() -> (d: Drag)
        ensures
            d == Drag::idle(),
    {
        Drag { src: None, dst: None }
    }

    /// Returns both ends of the drag, where both are set and lie within the
    /// grid.
    pub fn get_ends(&self) -> (r: Option<(Pos, Pos)>)
        ensures
            r == self.ends(),
    {
        match (self.src, self.dst) {
            (Some(src), Some(dst)) => {
                if src.is_in_range() && dst.is_in_range() {
                    Some((src, dst))
                } else {
                    None
                }
            },
            _ => None,
        }
    }

    /// The button went down at `pos`: the drag starts there.
    pub fn on_press(&mut self, pos: Pos) -> (g: Gesture)
        ensures
            *final(self) == (Drag { src: Some(pos), dst: Some(pos) }),
            g == Gesture::Preview,
    {
        self.src = Some(pos);
        self.dst = Some(pos);
        Gesture::Preview
    }

    /// The pointer moved to `pos` with the button down.
    pub fn on_hold(&mut self, pos: Pos) -> (g: Gesture)
        ensures
            *final(self) == (Drag { src: old(self).src, dst: Some(pos) }),
            g == Gesture::Preview,
    {
        self.dst = Some(pos);
        Gesture::Preview
    }

    /// The button went up at `pos`: the drag ends there.
    pub fn on_release(&mut self, pos: Pos) -> (g: Gesture)
        ensures
            *final(self) == (Drag { src: old(self).src, dst: Some(pos) }),
            g == Gesture::Commit,
    {
        self.dst = Some(pos);
        Gesture::Commit
    }
}

/// Moves what is drawn in a selected area: a first drag selects the area, a
/// second drag that starts inside it carries its content along.
#[derive(Clone, Copy, Debug, PartialEq, Eq, Structural)]
pub struct MoveTool {
    /// The selected area.
    pub area: Drag,
    /// Where the content was grabbed.
    pub grab_src: Option<Pos>,
    /// Where the grabbed content is now.
    pub grab_dst: Option<Pos>,
}

impl MoveTool {
    /// Nothing selected, nothing grabbed.
    pub open spec fn idle() -> MoveTool {
        MoveTool { area: Drag::idle(), grab_src: None, grab_dst: None }
    }

    /// `pos` lies in the selected area.
    pub open spec fn selects(self, pos: Pos) -> bool {
        match (self.area.src, self.area.dst) {
            (Some(a), Some(b)) => {
                &&& top_left(a, b).x <= pos.x <= bottom_right(a, b).x
                &&& top_left(a, b).y <= pos.y <= bottom_right(a, b).y
            },
            _ => false,
        }
    }

    /// The tool after the button went down at `pos`: a press inside the
    /// area grabs its content, a press elsewhere starts a new area.
    pub open spec fn pressed(self, pos: Pos) -> MoveTool {
        if self.selects(pos) {
            MoveTool { grab_src: Some(pos), grab_dst: Some(pos), ..self }
        } else {
            MoveTool {
                area: Drag { src: Some(pos), dst: Some(pos) },
                grab_src: None,
                grab_dst: None,
            }
        }
    }

    /// The tool after the pointer moved to `pos`: the grabbed content
    /// follows, or else the area grows.
    pub open spec fn dragged(self, pos: Pos) -> MoveTool {
        if self.grab_src is Some {
            MoveTool { grab_dst: Some(pos), ..self }
        } else {
            MoveTool { area: Drag { src: self.area.src, dst: Some(pos) }, ..self }
        }
    }

    /// What the tool stages on `g`: the content of the area where it was
    /// grabbed to, with blanks where it came from; without a grab, the
    /// content of the area where it is.
    pub open spec fn rendered(self, g: GridView) -> GridView {
        match self.area.ends() {
            Some((a, b)) => {
                let cells = g.visible_cells(a, b);
                match (self.grab_src, self.grab_dst) {
                    (Some(from), Some(to)) if from.in_range() && to.in_range() => g.force_all(
                        blanked(cells),
                    ).force_all(shifted(cells, to.x - from.x, to.y - from.y)),
                    _ => g.force_all(cells),
                }
            },
            None => g,
        }
    }

    /// Returns a tool with nothing selected.
    pub fn new() -> (t: MoveTool)
        ensures
            t == MoveTool::idle(),
    {
        MoveTool { area: Drag::new(), grab_src: None, grab_dst: None }
    }

    /// Tells whether `pos` lies in the selected area.
    pub fn is_selected(&self, pos: Pos) -> (b: bool)
        ensures
            b == self.selects(pos),
    {
        match (self.area.src, self.area.dst) {
            (Some(a), Some(b)) => {
                let left = if a.x < b.x { a.x } else { b.x };
                let right = if a.x < b.x { b.x } else { a.x };
                let top = if a.y < b.y { a.y } else { b.y };
                let bottom = if a.y < b.y { b.y } else { a.y };
                left <= pos.x && pos.x <= right && top <= pos.y && pos.y <= bottom
            },
            _ => false,
        }
    }

    /// The button went down at `pos`.
    pub fn on_press(&mut self, pos: Pos) -> (g: Gesture)
        ensures
            *final(self) == old(self).pressed(pos),
            g == Gesture::Preview,
    {
        if self.is_selected(pos) {
            self.grab_src = Some(pos);
            self.grab_dst = Some(pos);
        } else {
            self.area.src = Some(pos);
            self.area.dst = Some(pos);
            self.grab_src = None;
            self.grab_dst = None;
        }
        Gesture::Preview
    }

    /// The pointer moved to `pos` with the button down.
    pub fn on_hold(&mut self, pos: Pos) -> (g: Gesture)
        ensures
            *final(self) == old(self).dragged(pos),
            g == Gesture::Preview,
    {
        if self.grab_src.is_some() {
            self.grab_dst = Some(pos);
        } else {
            self.area.dst = Some(pos);
        }
        Gesture::Preview
    }

    /// The button went up at `pos`: a grab ends and is to be committed, a
    /// selection stays a preview.
    pub fn on_release(&mut self, pos: Pos) -> (g: Gesture)
        ensures
            *final(self) == old(self).dragged(pos),
            g == (if old(self).grab_src is Some {
                Gesture::Commit
            } else {
                Gesture::Preview
            }),
    {
        if self.grab_src.is_some() {
            self.grab_dst = Some(pos);
            Gesture::Commit
        } else {
            self.area.dst = Some(pos);
            Gesture::Preview
        }
    }

    /// Stage what the tool shows.
    pub fn render(&self, buf: &mut Buffer)
        requires
            old(buf).wf(),
        ensures
            final(buf)@ == self.rendered(old(buf)@),
            final(buf).wf(),
    {
        if let Some((a, b)) = self.area.get_ends() {
            let cells = buf.visible_cells(a, b);
            match (self.grab_src, self.grab_dst) {
                (Some(from), Some(to)) => {
                    if from.is_in_range() && to.is_in_range() {
                        buf.erase_cells(&cells);
                        let dx = to.x as isize - from.x as isize;
                        let dy = to.y as isize - from.y as isize;
                        buf.move_cells(&cells, dx, dy);
                    } else {
                        buf.set_cells(&cells);
                    }
                },
                _ => {
                    buf.set_cells(&cells);
                },
            }
        }
    }
}

} // verus!
