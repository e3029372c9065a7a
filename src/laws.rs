//! What holds of the editing operations together: the shape of the document
//! is kept, and some operations undo others.
use vstd::prelude::*;
use vstd::utf8::encode_utf8;
use crate::app::{AppView, Mode};

verus! {

/// The editor after typing each character of `cs` in turn.
pub open spec fn typed(v: AppView, cs: Seq<char>) -> AppView
    decreases cs.len(),
{
    if cs.len() == 0 {
        v
    } else {
        typed(v, cs.drop_last()).inserted(cs.last())
    }
}

/// The editor after `n` presses of backspace.
pub open spec fn backspaced_times(v: AppView, n: nat) -> AppView
    decreases n,
{
    if n == 0 {
        v
    } else {
        backspaced_times(v.backspaced(), (n - 1) as nat)
    }
}

/// A new editor is well formed, and every operation keeps an editor well
/// formed: there is always at least one line, the cursor's row is a line, its
/// column lies within that line, and the window's top line is at or above the
/// cursor's, so never past the last line.
pub proof fn lemma_operations_keep_wf(
    v: AppView,
    c: char,
    m: Mode,
    path: Seq<char>,
    text: Option<Seq<char>>,
)
    requires
        v.wf(),
    ensures
        AppView::initial().wf(),
        v.inserted(c).wf(),
        v.split().wf(),
        v.backspaced().wf(),
        v.moved_left().wf(),
        v.moved_right().wf(),
        v.moved_up().wf(),
        v.moved_down().wf(),
        (AppView { mode: m, ..v }).wf(),
        (AppView { should_quit: true, ..v }).wf(),
        v.loaded(path, text).wf(),
{
}

/// Backspace on the first column of the first line changes nothing, however
/// often it is pressed, so the document keeps its one line.
pub proof fn lemma_backspace_at_origin(v: AppView, n: nat)
    requires
        v.wf(),
        v.row == 0,
        v.col == 0,
    ensures
        backspaced_times(v, n) == v,
        backspaced_times(v, n).lines.len() >= 1,
    decreases n,
{
    if n > 0 {
        lemma_backspace_at_origin(v.backspaced(), (n - 1) as nat);
    }
}

/// Backspace right after typing a character takes out exactly that
/// character: the editor is as before, its line the same bytes.
pub proof fn lemma_backspace_undoes_insert(v: AppView, c: char)
    requires
        v.wf(),
    ensures
        v.inserted(c).backspaced() == v,
        encode_utf8(v.inserted(c).backspaced().lines[v.row]) == encode_utf8(v.lines[v.row]),
{
    let line = v.lines[v.row];
    assert(line.insert(v.col, c).remove(v.col) =~= line);
    assert(v.inserted(c).backspaced().lines =~= v.lines);
}

/// Typing characters and then pressing backspace as many times gives back
/// the editor as it was.
pub proof fn lemma_type_then_backspace(v: AppView, cs: Seq<char>)
    requires
        v.wf(),
    ensures
        backspaced_times(typed(v, cs), cs.len()) == v,
        typed(v, cs).wf(),
    decreases cs.len(),
{
    if cs.len() > 0 {
        let prev = typed(v, cs.drop_last());
        lemma_type_then_backspace(v, cs.drop_last());
        lemma_backspace_undoes_insert(prev, cs.last());
        lemma_operations_keep_wf(prev, cs.last(), Mode::Normal, Seq::empty(), None);
        assert(backspaced_times(typed(v, cs), cs.len()) == backspaced_times(
            prev.inserted(cs.last()).backspaced(),
            cs.drop_last().len(),
        ));
    }
}

/// After typing a character that is not at the end of its line, moving right
/// and then left puts the cursor back where the typing left it, and leaves
/// the lines as they are.
pub proof fn lemma_right_then_left_after_insert(v: AppView, c: char)
    requires
        v.wf(),
        v.col < v.lines[v.row].len(),
    ensures
        v.inserted(c).moved_right().moved_left() == v.inserted(c),
        v.inserted(c).moved_right().lines == v.inserted(c).lines,
{
}

/// Enter and then backspace at the start of the new line give back the line
/// as it was and the cursor where it was. Only the window may have moved: enter
/// on its last line scrolls it down, and the join keeps the cursor shown
/// without scrolling back.
pub proof fn lemma_backspace_undoes_split(v: AppView)
    requires
        v.wf(),
    ensures
        v.split().backspaced() == (AppView { scroll: v.split().backspaced().scroll, ..v }),
{
    let line = v.lines[v.row];
    let k = v.col;
    assert(line.take(k) + line.skip(k) =~= line);
    assert(v.split().backspaced().lines =~= v.lines);
}

/// With a window of at least one line, after the cursor moves up or down its
/// line is shown: it is at or below the top line and above the line after
/// the window. So it is after enter, and after a backspace that joins lines.
pub proof fn lemma_vertical_moves_show_cursor(v: AppView)
    requires
        v.height > 0,
    ensures
        0 <= v.row < v.lines.len() ==> v.split().scroll <= v.split().row < v.split().scroll
            + v.split().height,
        0 < v.row < v.lines.len() && v.col == 0 ==> v.backspaced().scroll <= v.backspaced().row
            < v.backspaced().scroll + v.backspaced().height,
        v.moved_up().scroll <= v.moved_up().row < v.moved_up().scroll + v.moved_up().height,
        v.moved_down().scroll <= v.moved_down().row < v.moved_down().scroll
            + v.moved_down().height,
{
}

} // verus!
