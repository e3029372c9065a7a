//! The editor's state: the lines of the document, the cursor, the mode and
//! the viewport, with the operations that edit and move through them.
use vstd::prelude::*;
use vstd::string::*;
use crate::text::{
    byte_index, byte_offset, char_count, joined, split_lines, string_insert, string_remove,
    string_split_off, text_lines,
};
use crate::viewport::{follow, scroll_to_row};

verus! {

/// How keys are read: moving about, typing text, or reading the help.
#[derive(Debug, Clone, Copy, PartialEq, Eq, Structural)]
pub enum Mode {
    Normal,
    Insert,
    Help,
}

impl Default for Mode {
    fn default() -> (m: Mode)
        ensures
            m == Mode::Normal,
    {
        Mode::Normal
    }
}

/// The number of characters of line `r`, or zero where there is no such line.
pub open spec fn line_len(lines: Seq<Seq<char>>, r: int) -> int {
    if 0 <= r < lines.len() {
        lines[r].len() as int
    } else {
        0
    }
}

/// `k`, but no more than `n`.
pub open spec fn clamp(k: int, n: int) -> int {
    if k <= n {
        k
    } else {
        n
    }
}

/// What an editor holds, as mathematical values.
pub struct AppView {
    pub mode: Mode,
    pub should_quit: bool,
    pub lines: Seq<Seq<char>>,
    pub row: int,
    pub col: int,
    pub filename: Option<Seq<char>>,
    pub scroll: int,
    pub height: int,
}

impl AppView {
    /// An empty document: one empty line, the cursor at its start.
    pub open spec fn initial() -> AppView {
        AppView {
            mode: Mode::Normal,
            should_quit: false,
            lines: seq![Seq::<char>::empty()],
            row: 0,
            col: 0,
            filename: None,
            scroll: 0,
            height: 0,
        }
    }

    /// Where the cursor's row is a line, its column lies within that line.
    pub open spec fn col_in_line(self) -> bool {
        0 <= self.row < self.lines.len() ==> 0 <= self.col <= self.lines[self.row].len()
    }

    /// At least one line, the cursor on a line and within it, and the
    /// window's top line at or above the cursor's (so on a line too).
    pub open spec fn wf(self) -> bool {
        &&& self.lines.len() >= 1
        &&& 0 <= self.row < self.lines.len()
        &&& 0 <= self.col <= self.lines[self.row].len()
        &&& 0 <= self.scroll <= self.row
    }

    /// `c` typed at the cursor, which then stands after it.
    pub open spec fn inserted(self, c: char) -> AppView {
        if self.row < 0 || self.row >= self.lines.len() {
            self
        } else {
            let line = self.lines[self.row];
            AppView {
                lines: self.lines.update(self.row, line.insert(clamp(self.col, line.len() as int), c)),
                col: self.col + 1,
                ..self
            }
        }
    }

    /// The cursor's line cut in two at the cursor; the cursor at the start of
    /// the second part, and the window following it.
    pub open spec fn split(self) -> AppView {
        if self.row < 0 || self.row >= self.lines.len() {
            self
        } else {
            let line = self.lines[self.row];
            let k = clamp(self.col, line.len() as int);
            AppView {
                lines: self.lines.update(self.row, line.take(k)).insert(self.row + 1, line.skip(k)),
                row: self.row + 1,
                col: 0,
                scroll: follow(self.row + 1, self.scroll, self.height),
                ..self
            }
        }
    }

    /// The character before the cursor taken out; at the start of a line, that
    /// line joined to the end of the one above, the cursor at the join and the
    /// window following it.
    pub open spec fn backspaced(self) -> AppView {
        if self.row < 0 || self.row >= self.lines.len() {
            self
        } else if self.col > 0 {
            AppView {
                lines: self.lines.update(self.row, self.lines[self.row].remove(self.col - 1)),
                col: self.col - 1,
                ..self
            }
        } else if self.row > 0 {
            let above = self.lines[self.row - 1];
            AppView {
                lines: self.lines.update(self.row - 1, above + self.lines[self.row]).remove(
                    self.row,
                ),
                row: self.row - 1,
                col: above.len() as int,
                scroll: follow(self.row - 1, self.scroll, self.height),
                ..self
            }
        } else {
            self
        }
    }

    /// The lines that a text read from a file gives: its lines, or one empty
    /// line where it has none.
    pub open spec fn lines_from(text: Seq<char>) -> Seq<Seq<char>> {
        if text_lines(text).len() == 0 {
            seq![Seq::<char>::empty()]
        } else {
            text_lines(text)
        }
    }

    /// The file `path` taken as the document's file: where its `text` could be
    /// read, the lines are those of the text, the cursor is cut back to the
    /// last line and to the end of its line, and the window follows it; where
    /// it could not, the lines stay.
    pub open spec fn loaded(self, path: Seq<char>, text: Option<Seq<char>>) -> AppView {
        match text {
            None => AppView { filename: Some(path), ..self },
            Some(t) => {
                let ls = AppView::lines_from(t);
                let row = clamp(self.row, ls.len() - 1);
                AppView {
                    lines: ls,
                    row: row,
                    col: clamp(self.col, ls[row].len() as int),
                    scroll: follow(row, self.scroll, self.height),
                    filename: Some(path),
                    ..self
                }
            },
        }
    }

    /// The cursor one character to the left, where there is one.
    pub open spec fn moved_left(self) -> AppView {
        if self.col > 0 {
            AppView { col: self.col - 1, ..self }
        } else {
            self
        }
    }

    /// The cursor one character to the right, up to the end of its line.
    pub open spec fn moved_right(self) -> AppView {
        if self.col < line_len(self.lines, self.row) {
            AppView { col: self.col + 1, ..self }
        } else {
            self
        }
    }

    /// The cursor one line up where there is one, its column cut to that
    /// line's length; then the window follows the cursor.
    pub open spec fn moved_up(self) -> AppView {
        let v = if self.row > 0 {
            AppView {
                row: self.row - 1,
                col: clamp(self.col, line_len(self.lines, self.row - 1)),
                ..self
            }
        } else {
            self
        };
        AppView { scroll: follow(v.row, v.scroll, v.height), ..v }
    }

    /// The cursor one line down where there is one, its column cut to that
    /// line's length; then the window follows the cursor.
    pub open spec fn moved_down(self) -> AppView {
        let v = if self.row + 1 < self.lines.len() {
            AppView {
                row: self.row + 1,
                col: clamp(self.col, line_len(self.lines, self.row + 1)),
                ..self
            }
        } else {
            self
        };
        AppView { scroll: follow(v.row, v.scroll, v.height), ..v }
    }
}

/// The state of the editor.
pub struct App {
    pub mode: Mode,
    pub should_quit: bool,
    pub buffer: Vec<String>,
    pub cursor_x: usize,
    pub cursor_y: usize,
    pub filename: Option<String>,
    pub scroll_y: usize,
    pub viewport_height: usize,
}

/// The characters of each line.
pub open spec fn lines_of(buffer: Seq<String>) -> Seq<Seq<char>> {
    buffer.map_values(|l: String| l@)
}

impl View for App {
    type V = AppView;

    open spec fn view(&self) -> AppView {
        AppView {
            mode: self.mode,
            should_quit: self.should_quit,
            lines: lines_of(self.buffer@),
            row: self.cursor_y as int,
            col: self.cursor_x as int,
            filename: match self.filename {
                Some(f) => Some(f@),
                None => None,
            },
            scroll: self.scroll_y as int,
            height: self.viewport_height as int,
        }
    }
}

impl App {
    /// An empty document in normal mode, with no file name.
    pub fn new() -> (r: Self)
        ensures
            r@ == AppView::initial(),
    {
        let r = App {
            mode: Mode::Normal,
            should_quit: false,
            buffer: vec![String::new()],
            cursor_x: 0,
            cursor_y: 0,
            filename: None,
            scroll_y: 0,
            viewport_height: 0,
        };
        assert(r@.lines =~= AppView::initial().lines);
        r
    }

    /// Takes `path` as the document's file; `contents` is its text where it
    /// could be read, and then replaces the lines.
    pub fn load_text(&mut self, path: &str, contents: Option<&str>)
        ensures
            final(self)@ == old(self)@.loaded(
                path@,
                match contents {
                    Some(t) => Some(t@),
                    None => None,
                },
            ),
    {
        if let Some(text) = contents {
            let mut lines = split_lines(text);
            if lines.len() == 0 {
                lines.push(String::new());
            }
            self.buffer = lines;
            let last = self.buffer.len() - 1;
            if self.cursor_y > last {
                self.cursor_y = last;
            }
            self.clamp_cursor_x();
            self.scroll_y = scroll_to_row(self.cursor_y, self.scroll_y, self.viewport_height);
            assert(self@.lines =~= AppView::lines_from(text@));
        }
        self.filename = Some(path.to_owned());
    }

    /// The text to write to the document's file: each line followed by a
    /// newline.
    pub fn contents(&self) -> (r: String)
        ensures
            r@ == joined(self@.lines),
    {
        let mut r = String::new();
        let nl = "\n";
        proof {
            reveal_strlit("\n");
        }
        let mut i: usize = 0;
        while i < self.buffer.len()
            invariant
                i <= self.buffer.len(),
                r@ == joined(self@.lines.take(i as int)),
                nl@ == seq!['\n'],
            decreases self.buffer.len() - i,
        {
            assert(self@.lines.take(i + 1).drop_last() =~= self@.lines.take(i as int));
            r.append(self.buffer[i].as_str());
            r.append(nl);
            i = i + 1;
        }
        assert(self@.lines.take(i as int) =~= self@.lines);
        r
    }

    /// Whether the editor is untouched: normal mode, no file, one empty line.
    pub fn is_untouched(&self) -> (r: bool)
        ensures
            r == (self@.mode == Mode::Normal && self@.filename is None && self@.lines
                == seq![Seq::<char>::empty()]),
    {
        let blank = self.buffer.len() == 1 && self.buffer[0].as_str().is_empty();
        proof {
            let one = seq![Seq::<char>::empty()];
            if blank {
                assert(self@.lines[0] =~= Seq::<char>::empty());
                assert(self@.lines =~= one);
            } else if self.buffer.len() == 1 {
                assert(self@.lines[0].len() != one[0].len());
            } else {
                assert(self@.lines.len() != one.len());
            }
        }
        blank && self.filename.is_none() && self.mode == Mode::Normal
    }

    /// The rows that a window of `height` lines shows, from the top line up
    /// to (not including) the second number.
    pub fn visible_rows(&self, height: usize) -> (r: (usize, usize))
        ensures
            r.0 == self.scroll_y,
            r.1 == clamp(self.scroll_y + height, self.buffer.len() as int),
    {
        let len = self.buffer.len();
        let end = if self.scroll_y >= len {
            len
        } else if height < len - self.scroll_y {
            self.scroll_y + height
        } else {
            len
        };
        (self.scroll_y, end)
    }

    /// Asks the editor to stop.
    pub fn quit(&mut self)
        ensures
            final(self)@ == (AppView { should_quit: true, ..old(self)@ }),
    {
        self.should_quit = true;
    }

    /// Reads keys in `mode` from now on.
    pub fn switch_mode(&mut self, mode: Mode)
        ensures
            final(self)@ == (AppView { mode: mode, ..old(self)@ }),
    {
        self.mode = mode;
    }

    /// The byte offset in the cursor's line of the cursor's column (the end of
    /// the line where the column lies past it); zero where there is no such line.
    fn get_byte_index(&self) -> (r: usize)
        ensures
            self.cursor_y < self.buffer.len() ==> r == byte_offset(
                self@.lines[self.cursor_y as int],
                clamp(self.cursor_x as int, self@.lines[self.cursor_y as int].len() as int),
            ),
            self.cursor_y >= self.buffer.len() ==> r == 0,
    {
        if self.cursor_y >= self.buffer.len() {
            return 0;
        }
        byte_index(self.buffer[self.cursor_y].as_str(), self.cursor_x)
    }

    /// The number of characters of the cursor's line; zero where there is no
    /// such line.
    fn current_line_char_count(&self) -> (r: usize)
        ensures
            r == line_len(self@.lines, self.cursor_y as int),
    {
        if self.cursor_y >= self.buffer.len() {
            return 0;
        }
        char_count(self.buffer[self.cursor_y].as_str())
    }

    /// Types `c` at the cursor and moves the cursor past it.
    pub fn insert_char(&mut self, c: char)
        requires
            old(self).cursor_y < old(self).buffer.len() ==> old(self).cursor_x < usize::MAX,
        ensures
            final(self)@ == old(self)@.inserted(c),
    {
        if self.cursor_y >= self.buffer.len() {
            return;
        }
        let byte_idx = self.get_byte_index();
        let y = self.cursor_y;
        let ghost line = self@.lines[y as int];
        let ghost k = clamp(self.cursor_x as int, line.len() as int);
        assert(byte_offset(self.buffer[y as int]@, k) == byte_idx);
        string_insert(&mut self.buffer[y], byte_idx, c);
        self.cursor_x += 1;
        assert(self@.lines =~= old(self)@.inserted(c).lines);
    }

    /// Splits the cursor's line at the cursor; the cursor goes to the start of
    /// the new line below.
    pub fn enter_key(&mut self)
        ensures
            final(self)@ == old(self)@.split(),
    {
        if self.cursor_y >= self.buffer.len() {
            return;
        }
        let byte_idx = self.get_byte_index();
        let y = self.cursor_y;
        let ghost line = self@.lines[y as int];
        let ghost k = clamp(self.cursor_x as int, line.len() as int);
        assert(byte_offset(self.buffer[y as int]@, k) == byte_idx);
        let right_part = string_split_off(&mut self.buffer[y], byte_idx);
        self.buffer.insert(y + 1, right_part);
        self.cursor_y += 1;
        self.cursor_x = 0;
        self.scroll_y = scroll_to_row(self.cursor_y, self.scroll_y, self.viewport_height);
        assert(self@.lines =~= old(self)@.split().lines);
    }

    /// Backspace: takes out the character before the cursor, or at the start
    /// of a line joins it to the line above.
    pub fn delete_char(&mut self)
        requires
            old(self)@.col_in_line(),
        ensures
            final(self)@ == old(self)@.backspaced(),
    {
        if self.cursor_y >= self.buffer.len() {
            return;
        }
        let y = self.cursor_y;
        if self.cursor_x > 0 {
            self.cursor_x -= 1;
            let byte_idx = self.get_byte_index();
            let ghost k = self.cursor_x as int;
            assert(byte_offset(self.buffer[y as int]@, k) == byte_idx);
            string_remove(&mut self.buffer[y], byte_idx);
            assert(self@.lines =~= old(self)@.backspaced().lines);
        } else if y > 0 {
            let current_line = self.buffer.remove(y);
            let new_cursor_x = char_count(self.buffer[y - 1].as_str());
            self.buffer[y - 1].append(current_line.as_str());
            self.cursor_y -= 1;
            self.cursor_x = new_cursor_x;
            self.scroll_y = scroll_to_row(self.cursor_y, self.scroll_y, self.viewport_height);
            assert(self@.lines =~= old(self)@.backspaced().lines);
        }
    }

    /// Moves the cursor one character left, if it can.
    pub fn move_cursor_left(&mut self)
        ensures
            final(self)@ == old(self)@.moved_left(),
    {
        if self.cursor_x > 0 {
            self.cursor_x -= 1;
        }
    }

    /// Moves the cursor one character right, up to the end of its line.
    pub fn move_cursor_right(&mut self)
        ensures
            final(self)@ == old(self)@.moved_right(),
    {
        let len_chars = self.current_line_char_count();
        if self.cursor_x < len_chars {
            self.cursor_x += 1;
        }
    }

    /// Moves the cursor one line up, if it can, and scrolls to keep it shown.
    pub fn move_cursor_up(&mut self)
        ensures
            final(self)@ == old(self)@.moved_up(),
    {
        if self.cursor_y > 0 {
            self.cursor_y -= 1;
            self.clamp_cursor_x();
        }
        self.scroll_y = scroll_to_row(self.cursor_y, self.scroll_y, self.viewport_height);
    }

    /// Moves the cursor one line down, if it can, and scrolls to keep it shown.
    pub fn move_cursor_down(&mut self)
        ensures
            final(self)@ == old(self)@.moved_down(),
    {
        if self.buffer.len() > 0 && self.cursor_y < self.buffer.len() - 1 {
            self.cursor_y += 1;
            self.clamp_cursor_x();
        }
        self.scroll_y = scroll_to_row(self.cursor_y, self.scroll_y, self.viewport_height);
    }

    /// Cuts the cursor's column to the length of its line.
    fn clamp_cursor_x(&mut self)
        ensures
            final(self)@ == (AppView {
                col: clamp(old(self).cursor_x as int, line_len(old(self)@.lines, old(self).cursor_y as int)),
                ..old(self)@
            }),
    {
        let len_chars = self.current_line_char_count();
        if self.cursor_x > len_chars {
            self.cursor_x = len_chars;
        }
    }
}

} // verus!
