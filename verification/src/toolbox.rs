//! The set of drawing tools, and the one place that tells them apart.

use vstd::prelude::*;
use crate::geometry::Pos;
use crate::grid::{Buffer, GridView};
use crate::shapes::{blanked, PathMode};
use crate::text::{TextTool, TextView};
use crate::tools::{Drag, Gesture, Key, MoveTool, Options};

verus! {

/// A drawing tool and what it remembers of the gesture in progress.
pub enum Tool {
    /// Draws the outline of a box between the ends of a drag.
    Box(Drag),
    /// Draws a connector between the ends of a drag.
    Line(Drag, PathMode),
    /// Draws a connector with a tip at its end.
    Arrow(Drag, PathMode),
    /// Writes text.
    Text(TextTool),
    /// Blanks what is drawn between the ends of a drag.
    Erase(Drag),
    /// Moves what is drawn in a selected area.
    Move(MoveTool),
}

/// What a [`Tool`] holds.
pub ghost enum ToolView {
    Box(Drag),
    Line(Drag, PathMode),
    Arrow(Drag, PathMode),
    Text(TextView),
    Erase(Drag),
    Move(MoveTool),
}

impl View for Tool {
    type V = ToolView;

    open spec fn view(&self) -> ToolView {
        match self {
            Tool::Box(drag) => ToolView::Box(*drag),
            Tool::Line(drag, mode) => ToolView::Line(*drag, *mode),
            Tool::Arrow(drag, mode) => ToolView::Arrow(*drag, *mode),
            Tool::Text(text) => ToolView::Text(text@),
            Tool::Erase(drag) => ToolView::Erase(*drag),
            Tool::Move(tool) => ToolView::Move(*tool),
        }
    }
}

impl ToolView {
    /// The tool's own state is consistent.
    pub open spec fn wf(self) -> bool {
        match self {
            ToolView::Text(text) => text.wf(),
            _ => true,
        }
    }

    /// The tool after the button went down at `pos`.
    pub open spec fn pressed(self, pos: Pos) -> ToolView {
        let both = Drag { src: Some(pos), dst: Some(pos) };
        match self {
            ToolView::Box(_) => ToolView::Box(both),
            ToolView::Line(_, mode) => ToolView::Line(both, mode),
            ToolView::Arrow(_, mode) => ToolView::Arrow(both, mode),
            ToolView::Text(text) => ToolView::Text(text.pressed(pos)),
            ToolView::Erase(_) => ToolView::Erase(both),
            ToolView::Move(tool) => ToolView::Move(tool.pressed(pos)),
        }
    }

    /// The tool after the pointer moved to `pos` with the button down.
    pub open spec fn held(self, pos: Pos) -> ToolView {
        match self {
            ToolView::Box(drag) => ToolView::Box(Drag { dst: Some(pos), ..drag }),
            ToolView::Line(drag, mode) => ToolView::Line(Drag { dst: Some(pos), ..drag }, mode),
            ToolView::Arrow(drag, mode) => ToolView::Arrow(Drag { dst: Some(pos), ..drag }, mode),
            ToolView::Text(text) => self,
            ToolView::Erase(drag) => ToolView::Erase(Drag { dst: Some(pos), ..drag }),
            ToolView::Move(tool) => ToolView::Move(tool.dragged(pos)),
        }
    }

    /// What the editor is to do after the pointer moved with the button
    /// down.
    pub open spec fn hold_gesture(self) -> Gesture {
        match self {
            ToolView::Text(_) => Gesture::Ignored,
            _ => Gesture::Preview,
        }
    }

    /// The tool after the button went up at `pos`.
    pub open spec fn released(self, pos: Pos) -> ToolView {
        match self {
            ToolView::Text(text) => ToolView::Text(text.released()),
            _ => self.held(pos),
        }
    }

    /// What the editor is to do after the button went up.
    pub open spec fn release_gesture(self) -> Gesture {
        match self {
            ToolView::Text(_) => Gesture::Preview,
            ToolView::Move(tool) => if tool.grab_src is Some {
                Gesture::Commit
            } else {
                Gesture::Preview
            },
            _ => Gesture::Commit,
        }
    }

    /// The tool after `key` went down.
    pub open spec fn keyed(self, key: Key) -> ToolView {
        match self {
            ToolView::Text(text) => ToolView::Text(text.keyed(key)),
            _ => self,
        }
    }

    /// What the editor is to do after `key` went down.
    pub open spec fn key_gesture(self, key: Key) -> Gesture {
        match self {
            ToolView::Text(text) => if !text.ready {
                Gesture::Ignored
            } else if key == Key::Esc {
                Gesture::Commit
            } else {
                Gesture::Preview
            },
            _ => Gesture::Ignored,
        }
    }

    /// The tool with no gesture in progress.
    pub open spec fn idle(self) -> ToolView {
        match self {
            ToolView::Box(_) => ToolView::Box(Drag::idle()),
            ToolView::Line(_, mode) => ToolView::Line(Drag::idle(), mode),
            ToolView::Arrow(_, mode) => ToolView::Arrow(Drag::idle(), mode),
            ToolView::Text(_) => ToolView::Text(TextView::idle()),
            ToolView::Erase(_) => ToolView::Erase(Drag::idle()),
            ToolView::Move(_) => ToolView::Move(MoveTool::idle()),
        }
    }

    /// The tool with the path mode of `opts`, if it draws paths.
    pub open spec fn with_opts(self, opts: Options) -> ToolView {
        match self {
            ToolView::Line(drag, _) => ToolView::Line(drag, opts.path_mode),
            ToolView::Arrow(drag, _) => ToolView::Arrow(drag, opts.path_mode),
            _ => self,
        }
    }

    /// What the tool stages on `g`. A drag tool stages nothing until both
    /// ends of the drag are set and lie within the grid.
    pub open spec fn rendered(self, g: GridView) -> GridView {
        match self {
            ToolView::Box(drag) => match drag.ends() {
                Some((src, dst)) => g.draw_box(src, dst),
                None => g,
            },
            ToolView::Line(drag, mode) => match drag.ends() {
                Some((src, dst)) => g.draw_connector(mode, src, dst),
                None => g,
            },
            ToolView::Arrow(drag, mode) => match drag.ends() {
                Some((src, dst)) => g.draw_arrow(mode, src, dst),
                None => g,
            },
            ToolView::Text(text) => text.rendered(g),
            ToolView::Erase(drag) => match drag.ends() {
                Some((src, dst)) => g.force_all(blanked(g.visible_cells(src, dst))),
                None => g,
            },
            ToolView::Move(tool) => tool.rendered(g),
        }
    }
}

impl Tool {
    /// The tool's own state is consistent.
    pub open spec fn wf(&self) -> bool {
        self@.wf()
    }

    /// The button went down at `pos`.
    pub fn on_press(&mut self, pos: Pos) -> (g: Gesture)
        ensures
            final(self)@ == old(self)@.pressed(pos),
            final(self).wf(),
            g == Gesture::Preview,
    {
        match self {
            Tool::Box(drag) => drag.on_press(pos),
            Tool::Line(drag, _) => drag.on_press(pos),
            Tool::Arrow(drag, _) => drag.on_press(pos),
            Tool::Text(text) => text.on_press(pos),
            Tool::Erase(drag) => drag.on_press(pos),
            Tool::Move(tool) => tool.on_press(pos),
        }
    }

    /// The pointer moved to `pos` with the button down.
    pub fn on_hold(&mut self, pos: Pos) -> (g: Gesture)
        requires
            old(self).wf(),
        ensures
            final(self)@ == old(self)@.held(pos),
            final(self).wf(),
            g == old(self)@.hold_gesture(),
    {
        match self {
            Tool::Box(drag) => drag.on_hold(pos),
            Tool::Line(drag, _) => drag.on_hold(pos),
            Tool::Arrow(drag, _) => drag.on_hold(pos),
            Tool::Text(_) => Gesture::Ignored,
            Tool::Erase(drag) => drag.on_hold(pos),
            Tool::Move(tool) => tool.on_hold(pos),
        }
    }

    /// The button went up at `pos`.
    pub fn on_release(&mut self, pos: Pos) -> (g: Gesture)
        requires
            old(self).wf(),
        ensures
            final(self)@ == old(self)@.released(pos),
            final(self).wf(),
            g == old(self)@.release_gesture(),
    {
        match self {
            Tool::Box(drag) => drag.on_release(pos),
            Tool::Line(drag, _) => drag.on_release(pos),
            Tool::Arrow(drag, _) => drag.on_release(pos),
            Tool::Text(text) => text.on_release(),
            Tool::Erase(drag) => drag.on_release(pos),
            Tool::Move(tool) => tool.on_release(pos),
        }
    }

    /// `key` went down.
    pub fn on_key(&mut self, key: Key) -> (g: Gesture)
        requires
            old(self).wf(),
        ensures
            final(self)@ == old(self)@.keyed(key),
            final(self).wf(),
            g == old(self)@.key_gesture(key),
    {
        match self {
            Tool::Text(text) => text.on_key(key),
            _ => Gesture::Ignored,
        }
    }

    /// Forget the gesture in progress.
    pub fn reset(&mut self)
        ensures
            final(self)@ == old(self)@.idle(),
            final(self).wf(),
    {
        match self {
            Tool::Box(drag) => {
                *drag = Drag::new();
            },
            Tool::Line(drag, _) => {
                *drag = Drag::new();
            },
            Tool::Arrow(drag, _) => {
                *drag = Drag::new();
            },
            Tool::Text(text) => {
                text.reset();
            },
            Tool::Erase(drag) => {
                *drag = Drag::new();
            },
            Tool::Move(tool) => {
                *tool = MoveTool::new();
            },
        }
    }

    /// Take the path mode from `opts`.
    pub fn load_opts(&mut self, opts: &Options)
        ensures
            final(self)@ == old(self)@.with_opts(*opts),
            old(self).wf() ==> final(self).wf(),
    {
        match self {
            Tool::Line(_, mode) => {
                *mode = opts.path_mode;
            },
            Tool::Arrow(_, mode) => {
                *mode = opts.path_mode;
            },
            _ => {},
        }
    }

    /// Stage what the tool draws.
    pub fn render(&self, buf: &mut Buffer)
        requires
            old(buf).wf(),
        ensures
            final(buf)@ == self@.rendered(old(buf)@),
            final(buf).wf(),
    {
        match self {
            Tool::Box(drag) => {
                if let Some((src, dst)) = drag.get_ends() {
                    buf.draw_box(src, dst);
                }
            },
            Tool::Line(drag, mode) => {
                if let Some((src, dst)) = drag.get_ends() {
                    buf.draw_connector(*mode, src, dst);
                }
            },
            Tool::Arrow(drag, mode) => {
                if let Some((src, dst)) = drag.get_ends() {
                    buf.draw_arrow(*mode, src, dst);
                }
            },
            Tool::Text(text) => {
                text.render(buf);
            },
            Tool::Erase(drag) => {
                if let Some((src, dst)) = drag.get_ends() {
                    let cells = buf.visible_cells(src, dst);
                    buf.erase_cells(&cells);
                }
            },
            Tool::Move(tool) => {
                tool.render(buf);
            },
        }
    }
}

} // verus!
