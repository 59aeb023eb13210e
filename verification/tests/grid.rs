use askii::geometry::Pos;
use askii::grid::{Buffer, Cell, Char};

fn p(x: usize, y: usize) -> Pos {
    Pos::new(x, y)
}

fn text(rows: &[&str]) -> Buffer {
    Buffer::from_rows(rows.iter().map(|r| r.chars().collect()).collect()).unwrap()
}

fn lines(buf: &Buffer) -> Vec<String> {
    buf.rows().iter().map(|r| r.iter().collect()).collect()
}

#[test]
fn new_buffer_is_empty() {
    let buf = Buffer::new();
    assert!(buf.rows().is_empty());
    assert!(buf.edits().is_empty());
    assert_eq!(buf.cursor(), None);
    assert_eq!(buf.bounds(), p(0, 0));
}

#[test]
fn getv_reads_committed_cells_only() {
    let mut buf = text(&["ab", "", "c"]);
    assert_eq!(buf.getv(p(0, 0)), Some('a'));
    assert_eq!(buf.getv(p(1, 0)), Some('b'));
    assert_eq!(buf.getv(p(2, 0)), None);
    assert_eq!(buf.getv(p(0, 1)), None);
    assert_eq!(buf.getv(p(0, 2)), Some('c'));
    assert_eq!(buf.getv(p(0, 3)), None);
    buf.setv(true, p(2, 0), 'z');
    assert_eq!(buf.getv(p(2, 0)), None);
}

#[test]
fn visible_means_committed_and_not_whitespace() {
    let buf = text(&["a \t\u{a0}b"]);
    assert!(buf.visible(p(0, 0)));
    assert!(!buf.visible(p(1, 0)));
    assert!(!buf.visible(p(2, 0)));
    assert!(!buf.visible(p(3, 0)));
    assert!(buf.visible(p(4, 0)));
    assert!(!buf.visible(p(5, 0)));
    assert!(!buf.visible(p(0, 1)));
}

#[test]
fn forced_write_is_always_staged() {
    let mut buf = text(&["+"]);
    buf.setv(true, p(0, 0), '/');
    assert_eq!(buf.edits(), vec![Cell { pos: p(0, 0), c: '/' }]);
    buf.flush_edits();
    assert_eq!(lines(&buf), vec!["/"]);
}

#[test]
fn unforced_write_yields_to_a_stronger_committed_glyph() {
    let mut buf = text(&["+-|"]);
    buf.setv(false, p(0, 0), '-');
    buf.setv(false, p(1, 0), '|');
    buf.setv(false, p(2, 0), '/');
    assert!(buf.edits().is_empty());
    buf.setv(false, p(2, 0), '-');
    buf.setv(false, p(1, 0), '+');
    assert_eq!(buf.edits(), vec![Cell { pos: p(2, 0), c: '-' }, Cell { pos: p(1, 0), c: '+' }]);
}

#[test]
fn unforced_write_yields_to_a_stronger_staged_glyph() {
    let mut buf = Buffer::new();
    buf.setv(false, p(4, 1), '-');
    buf.setv(false, p(4, 1), '|');
    buf.setv(false, p(4, 2), '|');
    assert_eq!(buf.edits(), vec![Cell { pos: p(4, 1), c: '-' }, Cell { pos: p(4, 2), c: '|' }]);
}

#[test]
fn equal_rank_is_not_blocked() {
    let mut buf = text(&["a-"]);
    buf.setv(false, p(0, 0), 'b');
    buf.setv(false, p(1, 0), '-');
    assert_eq!(buf.edits(), vec![Cell { pos: p(0, 0), c: 'b' }, Cell { pos: p(1, 0), c: '-' }]);
}

#[test]
fn set_is_setv_with_coordinates() {
    let mut buf = Buffer::new();
    buf.set(false, 3, 1, 'x');
    assert_eq!(buf.edits(), vec![Cell { pos: p(3, 1), c: 'x' }]);
}

#[test]
fn higher_rank_wins_in_either_order() {
    let glyphs = ['+', '-', '|', '\\', '/', 'x'];
    for (i, a) in glyphs.iter().enumerate() {
        for b in glyphs[i + 1..].iter() {
            let mut buf = Buffer::new();
            buf.setv(false, p(2, 2), *b);
            buf.setv(false, p(2, 2), *a);
            buf.flush_edits();
            assert_eq!(buf.getv(p(2, 2)), Some(*a));

            let mut buf = Buffer::new();
            buf.setv(false, p(2, 2), *a);
            let staged = buf.edits();
            buf.setv(false, p(2, 2), *b);
            assert_eq!(buf.edits(), staged);
            buf.flush_edits();
            assert_eq!(buf.getv(p(2, 2)), Some(*a));
        }
    }
}

#[test]
fn flush_pads_with_spaces_and_empty_rows() {
    let mut buf = Buffer::new();
    buf.setv(true, p(3, 2), 'x');
    buf.flush_edits();
    assert_eq!(lines(&buf), vec!["", "", "   x"]);
    assert!(buf.edits().is_empty());
}

#[test]
fn flush_lets_the_last_edit_of_a_cell_win() {
    let mut buf = text(&["abc"]);
    buf.setv(true, p(1, 0), 'x');
    buf.setv(true, p(1, 0), 'y');
    buf.setv(true, p(4, 0), 'z');
    buf.flush_edits();
    assert_eq!(lines(&buf), vec!["ayc z"]);
}

#[test]
fn flush_of_an_empty_overlay_changes_nothing() {
    let mut buf = text(&["ab ", "", " c"]);
    buf.set_cursor(p(1, 1));
    buf.flush_edits();
    assert_eq!(lines(&buf), vec!["ab ", "", " c"]);
    assert_eq!(buf.cursor(), Some(p(1, 1)));
    buf.setv(true, p(0, 1), 'q');
    buf.flush_edits();
    let once = lines(&buf);
    buf.flush_edits();
    assert_eq!(lines(&buf), once);
}

#[test]
fn discard_drops_pending_edits_only() {
    let mut buf = text(&["ab"]);
    buf.setv(true, p(0, 0), 'x');
    buf.set_cursor(p(5, 5));
    buf.discard_edits();
    assert!(buf.edits().is_empty());
    assert_eq!(lines(&buf), vec!["ab"]);
    assert_eq!(buf.cursor(), Some(p(5, 5)));
    buf.drop_cursor();
    assert_eq!(buf.cursor(), None);
}

#[test]
fn clear_empties_the_buffer() {
    let mut buf = text(&["ab"]);
    buf.setv(true, p(0, 0), 'x');
    buf.set_cursor(p(1, 1));
    buf.clear();
    assert!(buf.rows().is_empty());
    assert!(buf.edits().is_empty());
    assert_eq!(buf.cursor(), None);
}

#[test]
fn snapshot_holds_the_committed_rows_alone() {
    let mut buf = text(&["ab", "c"]);
    buf.setv(true, p(0, 0), 'x');
    buf.set_cursor(p(1, 1));
    let snap = buf.snapshot();
    assert_eq!(lines(&snap), vec!["ab", "c"]);
    assert!(snap.edits().is_empty());
    assert_eq!(snap.cursor(), None);
    assert!(snap.same_rows(&buf));
    let copy = buf.duplicate();
    assert_eq!(copy.edits(), buf.edits());
    assert_eq!(copy.cursor(), buf.cursor());
    assert_eq!(lines(&copy), lines(&buf));
}

#[test]
fn same_rows_compares_every_cell() {
    assert!(text(&["ab", ""]).same_rows(&text(&["ab", ""])));
    assert!(!text(&["ab", ""]).same_rows(&text(&["ab"])));
    assert!(!text(&["ab"]).same_rows(&text(&["ab "])));
    assert!(!text(&["ab"]).same_rows(&text(&["aB"])));
    assert!(Buffer::new().same_rows(&text(&[])));
}

#[test]
fn bounds_cover_rows_edits_and_cursor() {
    let mut buf = text(&["abc", "", "de"]);
    assert_eq!(buf.bounds(), p(3, 3));
    buf.setv(true, p(6, 1), 'x');
    assert_eq!(buf.bounds(), p(7, 3));
    buf.setv(true, p(0, 9), 'y');
    assert_eq!(buf.bounds(), p(7, 10));
    buf.set_cursor(p(11, 10));
    assert_eq!(buf.bounds(), p(12, 11));
    buf.discard_edits();
    buf.drop_cursor();
    assert_eq!(buf.bounds(), p(3, 3));
}

#[test]
fn viewport_yields_clean_then_dirty_then_cursor() {
    let mut buf = text(&["abc", "def", "ghi"]);
    buf.setv(true, p(1, 1), 'X');
    buf.setv(true, p(0, 0), 'Y');
    buf.setv(true, p(2, 2), 'Z');
    buf.set_cursor(p(9, 9));
    let cell = |x, y, c| Cell { pos: p(x, y), c };
    assert_eq!(
        buf.iter_within(p(1, 1), p(2, 2)),
        vec![
            Char::Clean(cell(1, 1, 'e')),
            Char::Clean(cell(2, 1, 'f')),
            Char::Clean(cell(1, 2, 'h')),
            Char::Clean(cell(2, 2, 'i')),
            Char::Dirty(cell(1, 1, 'X')),
            Char::Dirty(cell(2, 2, 'Z')),
            Char::Cursor(cell(9, 9, '_')),
        ]
    );
}

#[test]
fn viewport_beyond_the_rows_is_empty() {
    let buf = text(&["abc", "d"]);
    assert!(buf.iter_within(p(3, 0), p(4, 4)).is_empty());
    assert!(buf.iter_within(p(0, 2), p(4, 4)).is_empty());
    assert!(buf.iter_within(p(0, 0), p(0, 4)).is_empty());
    assert!(buf.iter_within(p(0, 0), p(4, 0)).is_empty());
    assert_eq!(buf.iter_within(p(1, 1), p(usize::MAX, usize::MAX)), vec![]);
    assert_eq!(buf.iter_within(p(0, 0), p(usize::MAX, usize::MAX)).len(), 4);
}

#[test]
fn iter_renders_rows_with_prefix_and_newline() {
    let buf = text(&["ab", "", "c "]);
    let none: Vec<char> = Vec::new();
    assert_eq!(buf.iter(&none).iter().collect::<String>(), "ab\n\nc \n");
    let prefix: Vec<char> = "> ".chars().collect();
    assert_eq!(buf.iter(&prefix).iter().collect::<String>(), "> ab\n> \n> c \n");
    assert_eq!(Buffer::new().iter(&prefix), vec![]);
}

#[test]
fn strip_trailing_whitespace_trims_every_row() {
    let mut buf = text(&["ab  ", "   ", " c\t", ""]);
    buf.strip_trailing_whitespace();
    assert_eq!(lines(&buf), vec!["ab", "", " c", ""]);
}

#[test]
fn strip_margin_whitespace_trims_all_four_sides() {
    let mut buf = text(&["", "   ", "   ab  ", "  ", "    c ", "  d", " ", ""]);
    buf.strip_margin_whitespace();
    assert_eq!(lines(&buf), vec![" ab", "", "  c", "d"]);
}

#[test]
fn strip_margin_whitespace_of_blank_buffer_leaves_nothing() {
    let mut buf = text(&["", "   ", " "]);
    buf.strip_margin_whitespace();
    assert!(buf.rows().is_empty());
    let mut buf = Buffer::new();
    buf.strip_margin_whitespace();
    assert!(buf.rows().is_empty());
}

#[test]
fn strip_margin_whitespace_keeps_a_flush_left_diagram() {
    let mut buf = text(&["+--+", "|  |", "+--+"]);
    buf.strip_margin_whitespace();
    assert_eq!(lines(&buf), vec!["+--+", "|  |", "+--+"]);
}

#[test]
fn cell_accessors() {
    let cell = Cell { pos: p(1, 2), c: ' ' };
    assert_eq!(cell.pos(), p(1, 2));
    assert_eq!(cell.c(), ' ');
    assert!(cell.is_whitespace());
    assert!(!Cell { pos: p(0, 0), c: '+' }.is_whitespace());
}
