use askii::geometry::Pos;
use askii::grid::Buffer;
use askii::history::Editor;
use askii::shapes::PathMode;
use askii::toolbox::Tool;
use askii::tools::{Drag, Gesture, Key, MoveTool, Options};
use askii::text::TextTool;

fn pt(x: usize, y: usize) -> Pos {
    Pos::new(x, y)
}

fn options() -> Options {
    Options { path_mode: PathMode::Snap90, keep_trailing_ws: false, strip_margin_ws: false }
}

fn loaded(rows: &[&str]) -> Editor {
    let mut ed = Editor::new(options());
    ed.load(Some(Buffer::from_rows(rows.iter().map(|r| r.chars().collect()).collect()).unwrap()));
    ed
}

fn shown(ed: &Editor) -> Vec<String> {
    ed.buffer().rows().iter().map(|r| r.iter().collect()).collect()
}

fn drag(ed: &mut Editor, from: Pos, to: Pos) {
    assert_eq!(ed.on_press(from), Gesture::Preview);
    assert_eq!(ed.on_hold(to), Gesture::Preview);
    ed.on_release(to);
}

#[test]
fn new_editor_is_blank_and_clean() {
    let ed = Editor::new(options());
    assert!(!ed.is_dirty());
    assert!(ed.buffer().rows().is_empty());
    assert_eq!(ed.undo_depth(), 0);
    assert_eq!(ed.redo_depth(), 0);
    assert_eq!(ed.canvas(), pt(0, 0));
    assert!(matches!(ed.active_tool(), Tool::Box(_)));
    assert_eq!(ed.opts(), options());
}

#[test]
fn box_tool_draws_on_release() {
    let mut ed = Editor::new(options());
    assert_eq!(ed.on_press(pt(0, 0)), Gesture::Preview);
    assert_eq!(ed.buffer().edits().len(), 4);
    assert!(ed.buffer().rows().is_empty());
    assert_eq!(ed.on_hold(pt(3, 2)), Gesture::Preview);
    assert!(ed.buffer().rows().is_empty());
    assert!(!ed.buffer().edits().is_empty());
    assert_eq!(ed.undo_depth(), 0);
    assert_eq!(ed.on_release(pt(3, 2)), Gesture::Commit);
    assert_eq!(shown(&ed), vec!["+--+", "|  |", "+--+"]);
    assert!(ed.buffer().edits().is_empty());
    assert_eq!(ed.undo_depth(), 1);
    assert!(ed.is_dirty());
    assert!(matches!(ed.active_tool(), Tool::Box(d) if *d == Drag { src: None, dst: None }));
}

#[test]
fn preview_replaces_the_previous_preview() {
    let mut ed = Editor::new(options());
    ed.on_press(pt(0, 0));
    ed.on_hold(pt(5, 5));
    let wide = ed.buffer().edits();
    ed.on_hold(pt(1, 0));
    let narrow = ed.buffer().edits();
    assert!(narrow.len() < wide.len());
    assert!(narrow.iter().all(|c| c.pos.y == 0 && c.pos.x <= 1));
}

#[test]
fn undo_and_redo_step_through_two_boxes() {
    let mut ed = Editor::new(options());
    drag(&mut ed, pt(0, 0), pt(3, 2));
    let one = shown(&ed);
    drag(&mut ed, pt(5, 0), pt(8, 2));
    let two = shown(&ed);
    assert_eq!(one, vec!["+--+", "|  |", "+--+"]);
    assert_eq!(two, vec!["+--+ +--+", "|  | |  |", "+--+ +--+"]);
    assert_eq!(ed.undo_depth(), 2);

    assert!(ed.undo());
    assert_eq!(shown(&ed), one);
    assert_eq!((ed.undo_depth(), ed.redo_depth()), (1, 1));
    assert!(ed.redo());
    assert_eq!(shown(&ed), two);
    assert_eq!((ed.undo_depth(), ed.redo_depth()), (2, 0));

    assert!(ed.undo());
    assert!(ed.undo());
    assert!(ed.buffer().rows().is_empty());
    assert!(!ed.is_dirty());
    assert!(!ed.undo());
    assert!(ed.redo());
    assert_eq!(shown(&ed), one);
    assert!(ed.is_dirty());
    assert!(ed.redo());
    assert_eq!(shown(&ed), two);
    assert!(!ed.redo());
}

#[test]
fn undo_then_redo_and_redo_then_undo_restore_the_editor() {
    let mut ed = loaded(&["abc"]);
    drag(&mut ed, pt(0, 1), pt(2, 3));
    drag(&mut ed, pt(4, 1), pt(6, 3));
    ed.undo();
    let before = (shown(&ed), ed.undo_depth(), ed.redo_depth());
    assert!(ed.undo());
    assert!(ed.redo());
    assert_eq!((shown(&ed), ed.undo_depth(), ed.redo_depth()), before);
    assert!(ed.redo());
    assert!(ed.undo());
    assert_eq!((shown(&ed), ed.undo_depth(), ed.redo_depth()), before);
}

#[test]
fn undo_without_history_does_nothing() {
    let mut ed = loaded(&["abc"]);
    assert!(!ed.undo());
    assert!(!ed.redo());
    assert_eq!(shown(&ed), vec!["abc"]);
    assert!(!ed.is_dirty());
}

#[test]
fn edit_that_changes_nothing_leaves_no_undo_step() {
    let mut ed = Editor::new(options());
    drag(&mut ed, pt(0, 0), pt(3, 2));
    assert_eq!(ed.undo_depth(), 1);
    ed.mark_saved();
    drag(&mut ed, pt(0, 0), pt(3, 2));
    assert_eq!(ed.undo_depth(), 1);
    assert!(!ed.is_dirty());
    assert_eq!(shown(&ed), vec!["+--+", "|  |", "+--+"]);
    ed.trim_margins();
    assert_eq!(ed.undo_depth(), 1);
    assert!(!ed.is_dirty());
}

#[test]
fn snapshot_pair_brackets_any_mutation() {
    let mut ed = loaded(&["abc"]);
    ed.begin_snapshot();
    assert_eq!(ed.undo_depth(), 1);
    ed.end_snapshot();
    assert_eq!(ed.undo_depth(), 0);
    assert!(!ed.is_dirty());
    ed.end_snapshot();
    assert_eq!(ed.undo_depth(), 0);
}

#[test]
fn trim_margins_is_one_undo_step() {
    let mut ed = loaded(&["", "  ab  ", "   c", ""]);
    ed.set_canvas(pt(40, 20));
    ed.trim_margins();
    assert_eq!(shown(&ed), vec!["ab", " c"]);
    assert_eq!(ed.canvas(), pt(0, 0));
    assert!(ed.is_dirty());
    assert_eq!(ed.undo_depth(), 1);
    assert!(ed.undo());
    assert_eq!(shown(&ed), vec!["", "  ab  ", "   c", ""]);
    assert!(!ed.is_dirty());
}

#[test]
fn dirty_follows_the_saved_rows() {
    let mut ed = loaded(&["x"]);
    assert!(!ed.is_dirty());
    drag(&mut ed, pt(2, 0), pt(4, 0));
    assert!(ed.is_dirty());
    ed.mark_saved();
    assert!(!ed.is_dirty());
    ed.undo();
    assert!(ed.is_dirty());
    ed.redo();
    assert!(!ed.is_dirty());
}

#[test]
fn prepare_save_strips_trailing_whitespace_by_default() {
    let mut ed = loaded(&["  ab  ", "", " c "]);
    let text: String = ed.prepare_save().iter().collect();
    assert_eq!(text, "  ab\n\n c\n");
    assert_eq!(shown(&ed), vec!["  ab", "", " c"]);
    assert_eq!(ed.undo_depth(), 1);
    assert!(ed.is_dirty());
    ed.mark_saved();
    assert!(!ed.is_dirty());
    let again: String = ed.prepare_save().iter().collect();
    assert_eq!(again, text);
    assert_eq!(ed.undo_depth(), 1);
}

#[test]
fn prepare_save_follows_the_options() {
    let rows = ["", "  ab  ", " c "];
    let mut keep = loaded(&rows);
    keep.set_opts(Options { keep_trailing_ws: true, ..options() });
    assert_eq!(keep.prepare_save().iter().collect::<String>(), "\n  ab  \n c \n");
    assert_eq!(keep.undo_depth(), 0);
    let mut strip = loaded(&rows);
    strip.set_opts(Options { strip_margin_ws: true, keep_trailing_ws: true, ..options() });
    assert_eq!(strip.prepare_save().iter().collect::<String>(), " ab\nc\n");
    assert_eq!(strip.undo_depth(), 1);
}

#[test]
fn clipboard_text_trims_margins_and_the_last_newline() {
    let ed = loaded(&["", "  ab  ", "   c", ""]);
    let none: Vec<char> = Vec::new();
    assert_eq!(ed.clipboard_text(&none).iter().collect::<String>(), "ab\n c");
    let prefix: Vec<char> = "// ".chars().collect();
    assert_eq!(ed.clipboard_text(&prefix).iter().collect::<String>(), "// ab\n//  c");
    assert_eq!(shown(&ed), vec!["", "  ab  ", "   c", ""]);
    assert_eq!(Editor::new(options()).clipboard_text(&prefix), vec![]);
}

#[test]
fn load_replaces_everything() {
    let mut ed = Editor::new(options());
    drag(&mut ed, pt(0, 0), pt(3, 2));
    ed.set_canvas(pt(9, 9));
    ed.load(Some(Buffer::from_rows(vec![vec!['h', 'i']]).unwrap()));
    assert_eq!(shown(&ed), vec!["hi"]);
    assert!(!ed.is_dirty());
    assert_eq!((ed.undo_depth(), ed.redo_depth()), (0, 0));
    assert_eq!(ed.canvas(), pt(0, 0));
    drag(&mut ed, pt(0, 1), pt(1, 1));
    ed.load(None);
    assert!(ed.buffer().rows().is_empty());
    assert!(!ed.is_dirty());
    assert_eq!(ed.undo_depth(), 0);
}

#[test]
fn clear_starts_a_blank_diagram() {
    let mut ed = loaded(&["abc"]);
    drag(&mut ed, pt(0, 1), pt(3, 3));
    ed.undo();
    ed.clear();
    assert!(ed.buffer().rows().is_empty());
    assert!(!ed.is_dirty());
    assert_eq!((ed.undo_depth(), ed.redo_depth()), (0, 0));
}

#[test]
fn set_tool_drops_the_preview_and_takes_the_path_mode() {
    let mut ed = Editor::new(Options { path_mode: PathMode::Snap45, ..options() });
    ed.on_press(pt(1, 1));
    assert!(!ed.buffer().edits().is_empty());
    ed.set_tool(Tool::Line(Drag::new(), PathMode::Snap90));
    assert!(ed.buffer().edits().is_empty());
    assert!(matches!(ed.active_tool(), Tool::Line(_, PathMode::Snap45)));
    ed.cycle_path_mode();
    assert!(matches!(ed.active_tool(), Tool::Line(_, PathMode::Routed)));
    assert_eq!(ed.opts().path_mode, PathMode::Routed);
    ed.cycle_path_mode();
    assert_eq!(ed.opts().path_mode, PathMode::Snap90);
    ed.cycle_path_mode();
    assert_eq!(ed.opts().path_mode, PathMode::Snap45);
    ed.set_tool(Tool::Text(TextTool::new()));
    ed.on_press(pt(2, 2));
    assert_eq!(ed.buffer().cursor(), Some(pt(2, 2)));
    ed.set_tool(Tool::Move(MoveTool::new()));
    assert_eq!(ed.buffer().cursor(), None);
}

#[test]
fn line_tool_draws_in_each_mode() {
    let mut ed = Editor::new(options());
    ed.set_tool(Tool::Line(Drag::new(), PathMode::Snap90));
    drag(&mut ed, pt(0, 0), pt(3, 2));
    assert_eq!(shown(&ed), vec!["+", "|", "+--+"]);
    ed.clear();
    ed.set_opts(Options { path_mode: PathMode::Snap45, ..options() });
    drag(&mut ed, pt(0, 0), pt(5, 2));
    assert_eq!(shown(&ed), vec!["+--+", "    \\", "     +"]);
    ed.clear();
    ed.set_opts(Options { path_mode: PathMode::Routed, ..options() });
    drag(&mut ed, pt(0, 0), pt(4, 0));
    assert_eq!(shown(&ed), vec!["+---+"]);
}

#[test]
fn arrow_tool_draws_a_tip() {
    let mut ed = Editor::new(options());
    ed.set_tool(Tool::Arrow(Drag::new(), PathMode::Snap90));
    drag(&mut ed, pt(0, 1), pt(4, 1));
    assert_eq!(shown(&ed), vec!["", "+--->"]);
    drag(&mut ed, pt(2, 3), pt(2, 2));
    assert_eq!(shown(&ed), vec!["", "+--->", "  ^", "  +"]);
}

#[test]
fn erase_tool_blanks_what_is_drawn() {
    let mut ed = loaded(&["abcd", "efgh", "ijkl"]);
    ed.set_tool(Tool::Erase(Drag::new()));
    drag(&mut ed, pt(2, 1), pt(1, 0));
    assert_eq!(shown(&ed), vec!["a  d", "e  h", "ijkl"]);
    assert_eq!(ed.undo_depth(), 1);
    drag(&mut ed, pt(1, 0), pt(2, 1));
    assert_eq!(ed.undo_depth(), 1);
}

#[test]
fn move_tool_selects_then_carries() {
    let mut ed = loaded(&["ab", "cd", "", ""]);
    ed.set_tool(Tool::Move(MoveTool::new()));
    assert_eq!(ed.on_press(pt(0, 0)), Gesture::Preview);
    assert_eq!(ed.on_hold(pt(1, 1)), Gesture::Preview);
    assert_eq!(ed.on_release(pt(1, 1)), Gesture::Preview);
    assert_eq!(ed.undo_depth(), 0);
    assert_eq!(ed.buffer().edits().len(), 4);
    assert_eq!(ed.on_press(pt(1, 1)), Gesture::Preview);
    assert_eq!(ed.on_hold(pt(3, 2)), Gesture::Preview);
    assert_eq!(shown(&ed), vec!["ab", "cd", "", ""]);
    assert_eq!(ed.on_release(pt(4, 3)), Gesture::Commit);
    assert_eq!(shown(&ed), vec!["  ", "  ", "   ab", "   cd"]);
    assert_eq!(ed.undo_depth(), 1);
    assert!(matches!(ed.active_tool(), Tool::Move(m) if *m == MoveTool::new()));
}

#[test]
fn move_tool_press_outside_starts_a_new_selection() {
    let mut ed = loaded(&["ab", "cd"]);
    ed.set_tool(Tool::Move(MoveTool::new()));
    ed.on_press(pt(0, 0));
    ed.on_release(pt(0, 0));
    ed.on_press(pt(5, 5));
    assert!(matches!(ed.active_tool(), Tool::Move(m) if m.grab_src.is_none()
        && m.area == Drag { src: Some(pt(5, 5)), dst: Some(pt(5, 5)) }));
    assert_eq!(ed.on_release(pt(6, 6)), Gesture::Preview);
    assert!(ed.buffer().edits().is_empty());
}

#[test]
fn move_tool_stops_at_the_top_left_corner() {
    let mut ed = loaded(&["", " ab"]);
    ed.set_tool(Tool::Move(MoveTool::new()));
    ed.on_press(pt(1, 1));
    ed.on_release(pt(2, 1));
    ed.on_press(pt(2, 1));
    assert_eq!(ed.on_release(pt(1, 0)), Gesture::Commit);
    assert_eq!(shown(&ed), vec!["ab", "   "]);
    ed.on_press(pt(0, 0));
    ed.on_release(pt(1, 0));
    ed.on_press(pt(1, 0));
    assert_eq!(ed.on_release(pt(0, 0)), Gesture::Commit);
    assert_eq!(shown(&ed), vec!["b ", "   "]);
}

#[test]
fn text_tool_types_and_commits_on_escape() {
    let mut ed = Editor::new(options());
    ed.set_tool(Tool::Text(TextTool::new()));
    assert_eq!(ed.on_key(Key::Char('x')), Gesture::Ignored);
    assert_eq!(ed.on_press(pt(2, 1)), Gesture::Preview);
    assert_eq!(ed.on_key(Key::Char('x')), Gesture::Ignored);
    assert_eq!(ed.on_hold(pt(9, 9)), Gesture::Ignored);
    assert_eq!(ed.on_release(pt(2, 1)), Gesture::Preview);
    assert_eq!(ed.buffer().cursor(), Some(pt(2, 1)));
    for c in "hi".chars() {
        assert_eq!(ed.on_key(Key::Char(c)), Gesture::Preview);
    }
    assert_eq!(ed.buffer().cursor(), Some(pt(4, 1)));
    assert_eq!(ed.on_key(Key::Enter), Gesture::Preview);
    assert_eq!(ed.buffer().cursor(), Some(pt(2, 2)));
    ed.on_key(Key::Char('!'));
    assert!(ed.buffer().rows().is_empty());
    assert_eq!(ed.buffer().edits().len(), 3);
    assert_eq!(ed.on_key(Key::Esc), Gesture::Commit);
    assert_eq!(shown(&ed), vec!["", "  hi", "  !"]);
    assert_eq!(ed.buffer().cursor(), None);
    assert_eq!(ed.undo_depth(), 1);
    assert_eq!(ed.on_key(Key::Char('x')), Gesture::Ignored);
}

#[test]
fn text_tool_release_without_a_press_takes_no_keys() {
    let mut ed = Editor::new(options());
    ed.set_tool(Tool::Text(TextTool::new()));
    assert_eq!(ed.on_release(pt(2, 1)), Gesture::Preview);
    assert_eq!(ed.on_key(Key::Char('x')), Gesture::Ignored);
    assert!(ed.buffer().edits().is_empty());
}

#[test]
fn required_size_grows_the_canvas_to_the_buffer() {
    let mut ed = loaded(&["abc", "de"]);
    assert_eq!(ed.required_size(pt(2, 5)), pt(3, 5));
    assert_eq!(ed.canvas(), pt(3, 2));
    ed.set_canvas(pt(10, 1));
    assert_eq!(ed.required_size(pt(2, 5)), pt(10, 5));
    assert_eq!(ed.canvas(), pt(10, 2));
    ed.on_press(pt(20, 30));
    assert_eq!(ed.required_size(pt(0, 0)), pt(21, 31));
}

#[test]
fn act_ignores_previews_and_commits() {
    let mut ed = loaded(&["abc"]);
    ed.set_tool(Tool::Box(Drag { src: Some(pt(0, 1)), dst: Some(pt(2, 2)) }));
    ed.act(Gesture::Ignored);
    assert!(ed.buffer().edits().is_empty());
    ed.act(Gesture::Preview);
    assert!(!ed.buffer().edits().is_empty());
    assert_eq!(shown(&ed), vec!["abc"]);
    ed.act(Gesture::Commit);
    assert_eq!(shown(&ed), vec!["abc", "+-+", "+-+"]);
    assert!(matches!(ed.active_tool(), Tool::Box(d) if d.src.is_none() && d.dst.is_none()));
}
