use askii::geometry::{Pos, MAX_COORD};
use askii::grid::{Buffer, Cell};
use askii::route::{heuristic, is_path_in_range, path_cells, DIAGONAL_STEP, OCCUPIED, STEP};
use askii::shapes::PathMode;

fn at(x: usize, y: usize) -> Pos {
    Pos::new(x, y)
}

fn grid(rows: &[&str]) -> Buffer {
    Buffer::from_rows(rows.iter().map(|r| r.chars().collect()).collect()).unwrap()
}

fn drawn(buf: &Buffer) -> Vec<String> {
    buf.rows().iter().map(|r| r.iter().collect()).collect()
}

fn step_cost(buf: &Buffer, from: Pos, to: Pos) -> u128 {
    direct_cost(buf, from, to).unwrap()
}

fn direct_cost(buf: &Buffer, from: Pos, to: Pos) -> Option<u128> {
    buf.neighbors((from.x, from.y)).into_iter().find(|(p, _)| *p == (to.x, to.y)).map(|(_, c)| c)
}

fn path_cost(buf: &Buffer, path: &[Pos]) -> u128 {
    path.windows(2).map(|w| step_cost(buf, w[0], w[1])).sum()
}

fn routed_cells(buf: &mut Buffer, src: Pos, dst: Pos) -> Vec<Pos> {
    assert!(buf.edits().is_empty());
    buf.draw_path(src, dst).unwrap();
    let mut cells: Vec<Pos> = buf.edits().iter().map(|c| c.pos).collect();
    cells.pop();
    buf.discard_edits();
    cells
}

#[test]
fn box_from_origin() {
    let mut buf = Buffer::new();
    buf.draw_box(at(0, 0), at(3, 2));
    buf.flush_edits();
    assert_eq!(drawn(&buf), vec!["+--+", "|  |", "+--+"]);
}

#[test]
fn box_from_any_pair_of_opposite_corners() {
    for (a, b) in [(at(1, 1), at(5, 3)), (at(5, 3), at(1, 1)), (at(5, 1), at(1, 3)), (at(1, 3), at(5, 1))] {
        let mut buf = Buffer::new();
        buf.draw_box(a, b);
        buf.flush_edits();
        assert_eq!(drawn(&buf), vec!["", " +---+", " |   |", " +---+"]);
    }
}

#[test]
fn box_of_one_cell_is_a_plus() {
    let mut buf = Buffer::new();
    buf.draw_box(at(2, 1), at(2, 1));
    buf.flush_edits();
    assert_eq!(drawn(&buf), vec!["", "  +"]);
}

#[test]
fn horizontal_line() {
    let mut buf = Buffer::new();
    buf.draw_line(at(1, 0), at(5, 0));
    assert_eq!(
        buf.edits(),
        vec![
            Cell { pos: at(1, 0), c: '+' },
            Cell { pos: at(2, 0), c: '-' },
            Cell { pos: at(3, 0), c: '-' },
            Cell { pos: at(4, 0), c: '-' },
            Cell { pos: at(5, 0), c: '+' },
        ]
    );
}

#[test]
fn vertical_line_upwards() {
    let mut buf = Buffer::new();
    buf.draw_line(at(0, 3), at(0, 0));
    buf.flush_edits();
    assert_eq!(drawn(&buf), vec!["+", "|", "|", "+"]);
}

#[test]
fn diagonal_lines() {
    let mut buf = Buffer::new();
    buf.draw_line(at(0, 0), at(3, 3));
    buf.flush_edits();
    assert_eq!(drawn(&buf), vec!["+", " \\", "  \\", "   +"]);

    let mut buf = Buffer::new();
    buf.draw_line(at(3, 0), at(0, 3));
    buf.flush_edits();
    assert_eq!(drawn(&buf), vec!["   +", "  /", " /", "+"]);
}

#[test]
fn slanted_line_mixes_glyphs_by_step() {
    let mut buf = Buffer::new();
    buf.draw_line(at(0, 0), at(6, 3));
    buf.flush_edits();
    assert_eq!(drawn(&buf), vec!["+\\", "  -\\", "    -\\", "      +"]);
}

#[test]
fn line_of_no_length_is_a_single_plus() {
    let mut buf = Buffer::new();
    buf.draw_line(at(2, 1), at(2, 1));
    assert_eq!(buf.edits(), vec![Cell { pos: at(2, 1), c: '+' }]);
}

#[test]
fn line_starts_and_ends_with_plus() {
    for (src, dst) in [(at(0, 0), at(7, 2)), (at(7, 2), at(0, 0)), (at(3, 9), at(4, 0)), (at(5, 5), at(5, 6))] {
        let mut buf = grid(&["----------", "||||||||||", "//////////"]);
        buf.draw_line(src, dst);
        let edits = buf.edits();
        assert_eq!(edits[0], Cell { pos: src, c: '+' });
        assert_eq!(edits[edits.len() - 1], Cell { pos: dst, c: '+' });
        buf.flush_edits();
        assert_eq!(buf.getv(src), Some('+'));
        assert_eq!(buf.getv(dst), Some('+'));
    }
}

#[test]
fn line_does_not_break_a_stronger_run() {
    let mut buf = grid(&["", "-----"]);
    buf.draw_line(at(2, 0), at(2, 3));
    buf.flush_edits();
    assert_eq!(drawn(&buf), vec!["  +", "-----", "  |", "  +"]);
}

#[test]
fn line_replaces_a_weaker_run() {
    let mut buf = grid(&["  |", "  |", "  |"]);
    buf.draw_line(at(0, 1), at(4, 1));
    buf.flush_edits();
    assert_eq!(drawn(&buf), vec!["  |", "+---+", "  |"]);
}

#[test]
fn snap90_line_then_line_makes_a_corner() {
    let mut buf = Buffer::new();
    buf.draw_connector(PathMode::Snap90, at(0, 0), at(3, 0));
    buf.flush_edits();
    buf.draw_connector(PathMode::Snap90, at(3, 0), at(3, 2));
    buf.flush_edits();
    assert_eq!(buf.getv(at(3, 0)), Some('+'));
    assert_eq!(drawn(&buf), vec!["+--+", "   |", "   +"]);
}

#[test]
fn snap90_bends_in_the_column_of_the_source() {
    let buf = Buffer::new();
    assert_eq!(buf.snap90(at(1, 1), at(5, 4)), at(1, 4));
    let mut buf = Buffer::new();
    buf.draw_connector(PathMode::Snap90, at(1, 0), at(4, 2));
    buf.flush_edits();
    assert_eq!(drawn(&buf), vec![" +", " |", " +--+"]);
}

#[test]
fn snap90_continues_a_horizontal_run() {
    let buf = grid(&["", "", "", "", "   ---"]);
    assert_eq!(buf.snap90(at(1, 1), at(5, 4)), at(5, 1));
    assert_eq!(buf.snap90(at(1, 1), at(2, 4)), at(1, 4));
    let buf = grid(&["", "", "", "", "   ||+"]);
    assert_eq!(buf.snap90(at(1, 1), at(4, 4)), at(1, 4));
    assert_eq!(buf.snap90(at(1, 1), at(5, 4)), at(1, 4));
}

#[test]
fn snap45_moves_the_destination_towards_the_source() {
    let buf = Buffer::new();
    assert_eq!(buf.snap45(at(10, 10), at(3, 8)), at(5, 10));
    assert_eq!(buf.snap45(at(10, 10), at(8, 3)), at(10, 5));
    assert_eq!(buf.snap45(at(10, 10), at(17, 8)), at(15, 10));
    assert_eq!(buf.snap45(at(10, 10), at(12, 3)), at(10, 5));
    assert_eq!(buf.snap45(at(10, 10), at(3, 12)), at(5, 10));
    assert_eq!(buf.snap45(at(10, 10), at(8, 17)), at(10, 15));
    assert_eq!(buf.snap45(at(10, 10), at(17, 12)), at(15, 10));
    assert_eq!(buf.snap45(at(10, 10), at(12, 17)), at(10, 15));
    assert_eq!(buf.snap45(at(10, 10), at(14, 14)), at(10, 10));
}

#[test]
fn snap45_without_a_bend_returns_the_source() {
    let buf = Buffer::new();
    assert_eq!(buf.snap45(at(4, 4), at(9, 4)), at(4, 4));
    assert_eq!(buf.snap45(at(4, 4), at(4, 0)), at(4, 4));
    assert_eq!(buf.snap45(at(4, 4), at(4, 4)), at(4, 4));
}

#[test]
fn snap45_connector() {
    let mut buf = Buffer::new();
    buf.draw_connector(PathMode::Snap45, at(0, 0), at(5, 2));
    buf.flush_edits();
    assert_eq!(drawn(&buf), vec!["+--+", "    \\", "     +"]);
}

#[test]
fn arrow_tip_points_ahead_in_open_space() {
    let buf = Buffer::new();
    assert_eq!(buf.arrow_tip(at(5, 5), at(5, 2)), '^');
    assert_eq!(buf.arrow_tip(at(5, 5), at(9, 5)), '>');
    assert_eq!(buf.arrow_tip(at(5, 5), at(5, 9)), 'v');
    assert_eq!(buf.arrow_tip(at(5, 5), at(1, 5)), '<');
    assert_eq!(buf.arrow_tip(at(5, 5), at(5, 5)), '+');
}

#[test]
fn arrow_tip_on_a_diagonal_prefers_a_drawn_side() {
    let open = Buffer::new();
    assert_eq!(open.arrow_tip(at(1, 1), at(3, 4)), 'v');
    assert_eq!(open.arrow_tip(at(1, 4), at(3, 1)), '^');
    assert_eq!(open.arrow_tip(at(5, 1), at(3, 4)), 'v');
    assert_eq!(open.arrow_tip(at(5, 4), at(3, 1)), '^');
    let walls = grid(&["", "  | |", "", "", "  | |"]);
    assert_eq!(walls.arrow_tip(at(1, 1), at(3, 4)), '>');
    assert_eq!(walls.arrow_tip(at(1, 4), at(3, 1)), '>');
    assert_eq!(walls.arrow_tip(at(5, 1), at(3, 4)), '<');
    assert_eq!(walls.arrow_tip(at(5, 4), at(3, 1)), '<');
}

#[test]
fn arrow_tip_at_the_left_edge_points_up_or_down() {
    let buf = grid(&["", "x", "", "x"]);
    assert_eq!(buf.arrow_tip(at(4, 0), at(0, 2)), 'v');
    assert_eq!(buf.arrow_tip(at(4, 4), at(0, 2)), '^');
    assert_eq!(buf.arrow_tip(at(0, 5), at(0, 0)), '^');
}

#[test]
fn arrow_tip_turns_away_from_open_space_towards_a_wall() {
    let east = grid(&["", "   |", ""]);
    assert_eq!(east.arrow_tip(at(2, 5), at(2, 1)), '>');
    assert_eq!(east.arrow_tip(at(2, 0), at(2, 1)), '>');
    let west = grid(&["", " |", ""]);
    assert_eq!(west.arrow_tip(at(2, 5), at(2, 1)), '<');
    let both = grid(&["", " | |", ""]);
    assert_eq!(both.arrow_tip(at(2, 5), at(2, 1)), '^');
    let ahead = grid(&["  -", "   |", ""]);
    assert_eq!(ahead.arrow_tip(at(2, 5), at(2, 1)), '^');
    let north = grid(&["  -", "", ""]);
    assert_eq!(north.arrow_tip(at(0, 1), at(2, 1)), '^');
    assert_eq!(north.arrow_tip(at(5, 1), at(2, 1)), '^');
    let south = grid(&["", "", "  -"]);
    assert_eq!(south.arrow_tip(at(0, 1), at(2, 1)), 'v');
    let split = grid(&["  -", "", "  -"]);
    assert_eq!(split.arrow_tip(at(0, 1), at(2, 1)), '>');
    assert_eq!(split.arrow_tip(at(5, 1), at(2, 1)), '<');
}

#[test]
fn arrow_tip_is_forced_over_a_plus() {
    let mut buf = Buffer::new();
    buf.draw_arrow(PathMode::Snap90, at(0, 0), at(4, 0));
    buf.flush_edits();
    assert_eq!(drawn(&buf), vec!["+--->"]);
    let mut buf = grid(&["    +"]);
    buf.draw_arrow_tip(at(0, 0), at(4, 0));
    buf.flush_edits();
    assert_eq!(drawn(&buf), vec!["    >"]);
}

#[test]
fn arrow_with_a_bend_points_along_its_last_leg() {
    let mut buf = Buffer::new();
    buf.draw_arrow(PathMode::Snap90, at(0, 0), at(3, 2));
    buf.flush_edits();
    assert_eq!(drawn(&buf), vec!["+", "|", "+-->"]);
    let mut buf = Buffer::new();
    buf.draw_arrow(PathMode::Snap45, at(0, 0), at(5, 2));
    buf.flush_edits();
    assert_eq!(drawn(&buf), vec!["+--+", "    \\", "     v"]);
}

#[test]
fn neighbors_in_open_space() {
    let buf = Buffer::new();
    assert_eq!(
        buf.neighbors((1, 1)),
        vec![
            ((0, 0), DIAGONAL_STEP),
            ((0, 1), STEP),
            ((0, 2), DIAGONAL_STEP),
            ((1, 0), STEP),
            ((2, 0), DIAGONAL_STEP),
            ((2, 1), STEP),
            ((1, 2), STEP),
            ((2, 2), DIAGONAL_STEP),
        ]
    );
}

#[test]
fn neighbors_stay_on_the_grid() {
    let buf = Buffer::new();
    assert_eq!(
        buf.neighbors((0, 0)),
        vec![((1, 0), STEP), ((0, 1), STEP), ((1, 1), DIAGONAL_STEP)]
    );
    assert_eq!(
        buf.neighbors((MAX_COORD, MAX_COORD)),
        vec![
            ((MAX_COORD - 1, MAX_COORD - 1), DIAGONAL_STEP),
            ((MAX_COORD - 1, MAX_COORD), STEP),
            ((MAX_COORD, MAX_COORD - 1), STEP),
        ]
    );
    assert_eq!(buf.neighbors((0, 3)).len(), 5);
    assert_eq!(buf.neighbors((3, 0)).len(), 5);
    assert_eq!(buf.neighbors((usize::MAX, usize::MAX)).len(), 3);
}

#[test]
fn neighbors_cost_more_where_drawn() {
    let buf = grid(&["", "  x", ""]);
    let cost = |from: Pos, to: Pos| step_cost(&buf, from, to);
    assert_eq!(cost(at(1, 1), at(2, 1)), STEP + OCCUPIED);
    assert_eq!(cost(at(1, 0), at(2, 1)), DIAGONAL_STEP + OCCUPIED);
    assert_eq!(cost(at(1, 1), at(2, 0)), DIAGONAL_STEP + OCCUPIED);
    assert_eq!(cost(at(2, 0), at(3, 1)), DIAGONAL_STEP + OCCUPIED);
    assert_eq!(cost(at(1, 1), at(1, 0)), STEP);
    assert_eq!(cost(at(0, 0), at(1, 1)), DIAGONAL_STEP);
    assert_eq!(cost(at(2, 1), at(3, 1)), STEP);
    assert_eq!(STEP, 1_000_000);
    assert_eq!(DIAGONAL_STEP, 1_414_214);
    assert_eq!(OCCUPIED, 64_000_000);
}

#[test]
fn heuristic_is_the_octile_distance_raised_by_a_thousandth() {
    assert_eq!(heuristic(at(0, 0), at(0, 0)), 0);
    assert_eq!(heuristic(at(0, 0), at(4, 0)), 4_004_000);
    assert_eq!(heuristic(at(4, 0), at(0, 0)), 4_004_000);
    assert_eq!(heuristic(at(0, 0), at(0, 3)), 3_003_000);
    assert_eq!(heuristic(at(0, 0), at(3, 3)), 4_246_884);
    assert_eq!(heuristic(at(1, 1), at(6, 3)), 5_834_256);
    assert_eq!(heuristic(at(6, 3), at(1, 1)), 5_834_256);
}

#[test]
fn route_in_open_space_is_straight() {
    let mut buf = Buffer::new();
    let last = buf.draw_path(at(0, 0), at(4, 0));
    assert_eq!(last, Some(at(3, 0)));
    buf.flush_edits();
    assert_eq!(drawn(&buf), vec!["+---+"]);
}

#[test]
fn route_to_itself_is_a_plus() {
    let mut buf = Buffer::new();
    assert_eq!(buf.draw_path(at(2, 2), at(2, 2)), Some(at(2, 2)));
    assert_eq!(buf.edits(), vec![Cell { pos: at(2, 2), c: '+' }, Cell { pos: at(2, 2), c: '+' }]);
}

#[test]
fn route_detours_around_a_wall() {
    let mut buf = grid(&["  #"]);
    let cells = routed_cells(&mut buf, at(0, 0), at(4, 0));
    assert_eq!(cells[0], at(0, 0));
    assert_eq!(cells[cells.len() - 1], at(4, 0));
    assert!(!cells.contains(&at(2, 0)));
    assert!(cells.iter().any(|c| c.y == 1));
    assert!(cells.iter().all(|c| c.y <= 1));
    buf.draw_path(at(0, 0), at(4, 0));
    buf.flush_edits();
    assert_eq!(buf.getv(at(2, 0)), Some('#'));
    assert_eq!(buf.getv(at(0, 0)), Some('+'));
    assert_eq!(buf.getv(at(4, 0)), Some('+'));
}

#[test]
fn route_passes_through_a_wall_without_a_gap() {
    let mut buf = grid(&["  #", "  #", "  #", "  #", "  #", "  #", "  #", "  #", "  #", "  #"]);
    for _ in 0..80 {
        buf.setv(true, at(2, buf.rows().len()), '#');
        buf.flush_edits();
    }
    let cells = routed_cells(&mut buf, at(0, 0), at(4, 0));
    assert_eq!(cells, vec![at(0, 0), at(1, 0), at(2, 0), at(3, 0), at(4, 0)]);
}

#[test]
fn route_marks_its_bends_with_plus() {
    let mut buf = grid(&["", "  ###", "  ###", "  ###"]);
    buf.draw_path(at(0, 2), at(6, 2)).unwrap();
    let edits = buf.edits();
    let path: Vec<Cell> = edits[..edits.len() - 1].to_vec();
    for i in 1..path.len() - 1 {
        let before = askii::line::glyph_between(path[i - 1].pos, path[i].pos);
        let after = askii::line::glyph_between(path[i].pos, path[i + 1].pos);
        if before == after {
            assert_eq!(path[i].c, before);
        } else {
            assert_eq!(path[i].c, '+');
        }
    }
    assert_eq!(path[0].c, '+');
    assert!(path.iter().all(|c| !(c.pos.y >= 1 && c.pos.y <= 3 && c.pos.x >= 2 && c.pos.x <= 4)));
    assert!(path.iter().any(|c| c.c == '+' && c.pos != at(0, 2) && c.pos != at(6, 2)));
}

#[test]
fn draw_route_draws_a_given_path() {
    let mut buf = Buffer::new();
    let path = vec![at(0, 0), at(1, 0), at(2, 0), at(3, 1), at(4, 2), at(4, 3), at(3, 4)];
    assert!(is_path_in_range(&path));
    let last = buf.draw_route(&path, at(0, 0), at(3, 4));
    assert_eq!(last, at(4, 3));
    buf.flush_edits();
    assert_eq!(drawn(&buf), vec!["+-+", "   \\", "    +", "    +", "   +"]);
    let mut buf = Buffer::new();
    assert_eq!(buf.draw_route(&vec![at(1, 1)], at(7, 7), at(1, 1)), at(7, 7));
    assert_eq!(buf.draw_route(&vec![], at(7, 7), at(1, 1)), at(7, 7));
    assert!(!is_path_in_range(&vec![at(0, 0), at(MAX_COORD + 1, 0)]));
    assert_eq!(path_cells(&vec![(1, 2), (3, 4)]), vec![at(1, 2), at(3, 4)]);
}

#[test]
fn routed_arrow_points_along_its_approach() {
    let mut buf = Buffer::new();
    buf.draw_arrow(PathMode::Routed, at(0, 0), at(4, 0));
    buf.flush_edits();
    assert_eq!(drawn(&buf), vec!["+--->"]);
    let mut buf = Buffer::new();
    buf.draw_arrow(PathMode::Routed, at(2, 3), at(2, 0));
    buf.flush_edits();
    assert_eq!(drawn(&buf), vec!["  ^", "  |", "  |", "  +"]);
}

#[test]
fn routed_connector_equals_the_routed_path() {
    let mut a = grid(&["", "  ##", "  ##"]);
    let mut b = grid(&["", "  ##", "  ##"]);
    a.draw_connector(PathMode::Routed, at(0, 1), at(5, 2));
    b.draw_path(at(0, 1), at(5, 2));
    assert_eq!(a.edits(), b.edits());
    assert!(!a.edits().is_empty());
}

#[test]
fn route_cannot_be_improved_by_a_direct_step() {
    let layouts: [&[&str]; 4] = [
        &["", "", "", "", ""],
        &["", " ###", "", " ###", ""],
        &["  #", "  #", "  #", "", ""],
        &["", " #", "  #", "   #", ""],
    ];
    for rows in layouts.iter() {
        for sx in 0..5 {
            for sy in 0..5 {
                for dx in 0..5 {
                    for dy in 0..5 {
                        let mut buf = grid(rows);
                        let path = routed_cells(&mut buf, at(sx, sy), at(dx, dy));
                        assert_eq!(path[0], at(sx, sy));
                        assert_eq!(path[path.len() - 1], at(dx, dy));
                        for w in path.windows(3) {
                            if let Some(cost) = direct_cost(&buf, w[0], w[2]) {
                                assert!(cost >= path_cost(&buf, w));
                            }
                        }
                        for w in path.windows(2) {
                            let best = buf
                                .neighbors((w[0].x, w[0].y))
                                .into_iter()
                                .filter_map(|(mid, c)| {
                                    direct_cost(&buf, at(mid.0, mid.1), w[1]).map(|d| c + d)
                                })
                                .min();
                            assert!(best.unwrap() >= step_cost(&buf, w[0], w[1]));
                        }
                    }
                }
            }
        }
    }
}
