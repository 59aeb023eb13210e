//! Laws of the buffer and of the history, each proved for every buffer.

use vstd::prelude::*;
use crate::geometry::Pos;
use crate::glyph::{rank, PLUS, SP};
use crate::grid::{glyph_at, newest, pad_row, pad_rows, put, put_all, Cell, GridView};
use crate::history::EditorView;
use crate::line::{lemma_plus_is_never_blocked, lemma_stage_steps_from, step_glyph};

verus! {

/// A glyph that was written at a cell is the glyph the cell holds.
pub proof fn lemma_put_get(rows: Seq<Seq<char>>, pos: Pos, c: char)
    ensures
        glyph_at(put(rows, pos, c), pos) == Some(c),
{
    let grown = pad_rows(rows, pos.y + 1);
    assert(grown.len() > pos.y);
    let row = pad_row(grown[pos.y as int], pos.x + 1);
    assert(row.len() > pos.x);
}

/// Writing at a cell leaves every other cell as it was, or makes it a space
/// where the rows had to grow over it.
pub proof fn lemma_put_elsewhere(rows: Seq<Seq<char>>, pos: Pos, c: char, other: Pos)
    requires
        other != pos,
    ensures
        glyph_at(put(rows, pos, c), other) == glyph_at(rows, other) || (glyph_at(rows, other)
            is None && glyph_at(put(rows, pos, c), other) == Some(SP)),
{
    let grown = pad_rows(rows, pos.y + 1);
    assert(grown.len() > pos.y);
    let row = pad_row(grown[pos.y as int], pos.x + 1);
    assert(row.len() > pos.x);
    if other.y < rows.len() {
        assert(grown[other.y as int] == rows[other.y as int]);
    }
}

/// After the edits were written, a cell holds the glyph of the newest edit
/// at it; a cell without an edit holds what it held, or a space where the
/// rows grew over it.
pub proof fn lemma_put_all_get(rows: Seq<Seq<char>>, edits: Seq<Cell>, pos: Pos)
    ensures
        match newest(edits, pos) {
            Some(c) => glyph_at(put_all(rows, edits), pos) == Some(c),
            None => glyph_at(put_all(rows, edits), pos) == glyph_at(rows, pos) || (glyph_at(
                rows,
                pos,
            ) is None && glyph_at(put_all(rows, edits), pos) == Some(SP)),
        },
    decreases edits.len(),
{
    if edits.len() > 0 {
        let before = put_all(rows, edits.drop_last());
        let last = edits.last();
        if last.pos == pos {
            lemma_put_get(before, pos, last.c);
        } else {
            lemma_put_all_get(rows, edits.drop_last(), pos);
            lemma_put_elsewhere(before, last.pos, last.c, pos);
        }
    }
}

/// The last edit of a cell wins: after a flush the cell holds the glyph of
/// the newest pending edit at it. A cell without a pending edit holds what
/// it held, or a space where the rows grew over it.
pub proof fn law_last_edit_wins(g: GridView, pos: Pos)
    ensures
        match newest(g.edits, pos) {
            Some(c) => g.flush().get(pos) == Some(c),
            None => g.flush().get(pos) == g.get(pos) || (g.get(pos) is None && g.flush().get(pos)
                == Some(SP)),
        },
{
    lemma_put_all_get(g.rows, g.edits, pos);
}

/// After a flush, the cell of the newest pending edit holds the glyph of
/// that edit.
pub proof fn lemma_flush_shows_last(g: GridView)
    requires
        g.edits.len() > 0,
    ensures
        g.flush().get(g.edits.last().pos) == Some(g.edits.last().c),
{
    law_last_edit_wins(g, g.edits.last().pos);
}

/// Of two glyphs staged without force at a cell that holds nothing
/// stronger, the one of the higher rank is the one the cell shows: staged
/// last it is written over the other, staged first it keeps the other out.
pub proof fn law_precedence(g: GridView, pos: Pos, a: char, b: char)
    requires
        rank(a) > rank(b),
        !g.blocked(pos, a),
    ensures
        g.stage(false, pos, b).stage(false, pos, a).flush().get(pos) == Some(a),
        g.stage(false, pos, a).stage(false, pos, b) == g.stage(false, pos, a),
        g.stage(false, pos, a).flush().get(pos) == Some(a),
{
    let first_b = g.stage(false, pos, b);
    assert(!first_b.blocked(pos, a)) by {
        if first_b.staged_outranks(pos, a) {
            let i = choose|i: int|
                0 <= i < first_b.edits.len() && (#[trigger] first_b.edits[i]).pos == pos
                    && rank(first_b.edits[i].c) > rank(a);
            if i < g.edits.len() {
                assert(g.edits[i] == first_b.edits[i]);
                assert(g.staged_outranks(pos, a));
            }
        }
    }
    let then_a = first_b.stage(false, pos, a);
    assert(then_a.edits.last() == Cell { pos, c: a });
    lemma_flush_shows_last(then_a);

    let first_a = g.stage(false, pos, a);
    assert(first_a.edits.last() == Cell { pos, c: a });
    assert(first_a.staged_outranks(pos, b)) by {
        assert(first_a.edits[first_a.edits.len() - 1].pos == pos);
    }
    lemma_flush_shows_last(first_a);
}

/// Flushing a buffer without pending edits changes nothing, and so does a
/// second flush after a first.
pub proof fn law_flush_idempotent(g: GridView)
    ensures
        g.edits.len() == 0 ==> g.flush() == g,
        g.flush().flush() == g.flush(),
{
    if g.edits.len() == 0 {
        assert(g.edits =~= Seq::empty());
    }
}

/// Redo undoes an undo and undo undoes a redo: the live buffer and both
/// stacks are what they were.
pub proof fn law_undo_redo(e: EditorView)
    ensures
        e.undo.len() > 0 ==> {
            let back = e.undo().redo();
            back.buffer == e.buffer && back.undo == e.undo && back.redo == e.redo
        },
        e.redo.len() > 0 ==> {
            let back = e.redo().undo();
            back.buffer == e.buffer && back.undo == e.undo && back.redo == e.redo
        },
{
    if e.undo.len() > 0 {
        let once = e.undo();
        let back = once.redo();
        assert(once.redo.drop_last() =~= e.redo);
        assert(back.undo =~= e.undo);
    }
    if e.redo.len() > 0 {
        let once = e.redo();
        let back = once.undo();
        assert(once.undo.drop_last() =~= e.undo);
        assert(back.redo =~= e.redo);
    }
}

/// A modification that leaves the committed rows as they were leaves no
/// snapshot behind and does not mark the buffer dirty.
pub proof fn law_noop_leaves_no_snapshot(e: EditorView, after: GridView)
    requires
        after.rows == e.buffer.rows,
    ensures
        e.begin().with_buffer(after).end().undo == e.undo,
        e.begin().with_buffer(after).end().dirty == e.dirty,
{
    let begun = e.begin();
    assert(begun.undo.drop_last() =~= e.undo);
}

/// A modification that changes the committed rows leaves exactly one
/// snapshot behind, of the rows as they were, and marks the buffer dirty.
pub proof fn law_change_leaves_snapshot(e: EditorView, after: GridView)
    requires
        after.rows != e.buffer.rows,
    ensures
        e.begin().with_buffer(after).end().undo == e.undo.push(e.buffer.snapshot()),
        e.begin().with_buffer(after).end().dirty,
{
}

/// Undo after a modification brings back the committed rows as they were
/// before it, whether or not the modification changed them.
pub proof fn law_undo_restores_rows(e: EditorView, after: GridView)
    ensures
        after.rows != e.buffer.rows ==> e.begin().with_buffer(after).end().undo().buffer
            == e.buffer.snapshot(),
        after.rows == e.buffer.rows ==> e.begin().with_buffer(after).end().buffer.rows
            == e.buffer.rows,
{
}

/// A line ends in a `+` at its destination: that is its newest edit, and
/// what the destination holds once the line is flushed.
pub proof fn law_line_ends_in_plus(g: GridView, steps: Seq<(Pos, Pos)>, dst: Pos)
    ensures
        g.draw_steps(steps, dst).edits.last() == (Cell { pos: dst, c: PLUS }),
        g.draw_steps(steps, dst).flush().get(dst) == Some(PLUS),
{
    let staged = g.stage_steps(steps, steps.len() as int);
    lemma_plus_is_never_blocked(staged, dst);
    lemma_flush_shows_last(g.draw_steps(steps, dst));
}

/// A line of at least one step starts with a `+` at the origin of its first
/// step: that is the first edit it adds.
pub proof fn law_line_starts_with_plus(g: GridView, steps: Seq<(Pos, Pos)>, dst: Pos)
    requires
        steps.len() > 0,
    ensures
        g.draw_steps(steps, dst).edits.len() > g.edits.len(),
        g.draw_steps(steps, dst).edits[g.edits.len() as int] == (Cell {
            pos: steps[0].0,
            c: PLUS,
        }),
{
    let n = steps.len() as int;
    let first = g.stage_steps(steps, 1);
    assert(g.stage_steps(steps, 0) == g);
    lemma_plus_is_never_blocked(g, steps[0].0);
    assert(step_glyph(0, steps[0].0, steps[0].1) == PLUS);
    assert(first.edits == g.edits.push(Cell { pos: steps[0].0, c: PLUS }));
    lemma_stage_steps_from(g, steps, 1, n);
    let all = g.stage_steps(steps, n);
    let k = g.edits.len() as int;
    assert(all.edits.take(first.edits.len() as int)[k] == first.edits[k]);
    lemma_plus_is_never_blocked(all, dst);
}

} // verus!
