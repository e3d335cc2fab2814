//! The editor state: the text, its line index, the cursor and the viewport.

use crate::line::ends_at_newline;
use crate::line::is_line_index;
use crate::line::lemma_line_within_text;
use crate::line::lemma_line_of_unique;
use crate::line::line_of;
use crate::line::newline_count;
use crate::line::rebuild;
use crate::line::Line;
use crate::mode::action_of;
use crate::mode::edited;
use crate::mode::next_mode;
use crate::mode::transition;
use crate::mode::Key;
use crate::mode::KeyPress;
use crate::mode::Mode;
use crate::mode::Transition;
use crate::motion::moved_down;
use crate::motion::moved_left;
use crate::motion::moved_right;
use crate::motion::moved_up;
use crate::motion::place_on_line;
use crate::motion::scroll_to;
use crate::motion::scrolled;
use crate::render::draw_rows;
use crate::render::is_frame;
use crate::render::Frame;
use vstd::prelude::*;
use vstd::std_specs::iter::IteratorSpec;

verus! {

/// What an editor holds, as mathematical values.
pub struct EditorView {
    /// The whole document, one scalar value per position.
    pub text: Seq<char>,
    /// The line spans as they stand in the editor.
    pub lines: Seq<Line>,
    /// The position in `text` before which the next character is inserted.
    pub cursor: int,
    /// The number of the first line that is drawn.
    pub top_line: int,
}

/// The text after `c` is typed at `cursor`, and the cursor behind it.
pub open spec fn inserted(text: Seq<char>, cursor: int, c: char) -> (Seq<char>, int) {
    (text.insert(cursor, c), cursor + 1)
}

/// The text after the character before `cursor` is erased, and the cursor in
/// its place; nothing changes at the start of the text.
pub open spec fn erased(text: Seq<char>, cursor: int) -> (Seq<char>, int) {
    if cursor > 0 {
        (text.remove(cursor - 1), cursor - 1)
    } else {
        (text, cursor)
    }
}

/// One editing session: the text as a vector of characters, the spans of
/// its lines, the cursor, and the first line that the viewport shows.
#[derive(Debug)]
pub struct Editor {
    data: Vec<char>,
    lines: Vec<Line>,
    cursor: usize,
    view_row: usize,
}

impl View for Editor {
    type V = EditorView;

    closed spec fn view(&self) -> EditorView {
        EditorView {
            text: self.data@,
            lines: self.lines@,
            cursor: self.cursor as int,
            top_line: self.view_row as int,
        }
    }
}

impl Editor {
    /// The line spans are the index of the text.
    pub open spec fn indexed(&self) -> bool {
        is_line_index(self@.text, self@.lines)
    }

    /// The cursor is in the text or right behind it, and the line spans are
    /// the index of the text.
    pub open spec fn wf(&self) -> bool {
        &&& 0 <= self@.cursor <= self@.text.len()
        &&& 0 <= self@.top_line
        &&& self.indexed()
    }

    /// An editor with an empty text, which has one empty line.
    pub fn new() -> (editor: Self)
        ensures
            editor.wf(),
            editor@.text == Seq::<char>::empty(),
            editor@.lines == seq![Line { begin: 0, end: 0 }],
            editor@.cursor == 0,
            editor@.top_line == 0,
    {
        let data: Vec<char> = Vec::new();
        let lines = rebuild(&data);
        proof {
            assert(lines@ =~= seq![Line { begin: 0, end: 0 }]);
        }
        Editor { data, lines, cursor: 0, view_row: 0 }
    }

    /// Empties the text and puts the cursor at its start. The viewport stays.
    pub fn reset(&mut self)
        ensures
            final(self).wf(),
            final(self)@.text == Seq::<char>::empty(),
            final(self)@.lines == seq![Line { begin: 0, end: 0 }],
            final(self)@.cursor == 0,
            final(self)@.top_line == old(self)@.top_line,
    {
        self.data.clear();
        self.cursor = 0;
        self.lines = rebuild(&self.data);
        proof {
            assert(self.lines@ =~= seq![Line { begin: 0, end: 0 }]);
        }
    }

    /// Replaces the text by `content`, with the cursor at its start.
    pub fn init(&mut self, content: &str)
        ensures
            final(self).wf(),
            final(self)@.text == content@,
            final(self)@.lines.len() == newline_count(content@) + 1,
            final(self)@.cursor == 0,
            final(self)@.top_line == old(self)@.top_line,
    {
        self.reset();
        let mut chars = content.chars();
        let ghost view_row = self.view_row;
        proof {
            vstd::string::axiom_spec_iter(content);
        }
        loop
            invariant
                self.data@ + chars.remaining() == content@,
                self.cursor == 0,
                self.view_row == view_row,
                chars.decrease() is Some,
            ensures
                self.data@ == content@,
            decreases chars.decrease()->0,
        {
            let ghost before = chars;
            let next = chars.next();
            proof {
                vstd::string::next_postcondition(&before, &chars, next);
            }
            match next {
                Some(c) => {
                    self.data.push(c);
                    assert(self.data@ + chars.remaining() =~= content@);
                },
                None => {
                    assert(self.data@ =~= content@);
                    break;
                },
            }
        }
        self.lines = rebuild(&self.data);
    }

    /// Builds the line index anew from the text.
    pub fn recompute_size(&mut self)
        ensures
            final(self).indexed(),
            final(self)@.lines.len() == newline_count(old(self)@.text) + 1,
            final(self)@.text == old(self)@.text,
            final(self)@.cursor == old(self)@.cursor,
            final(self)@.top_line == old(self)@.top_line,
    {
        self.lines = rebuild(&self.data);
    }

    /// Types `c` at the cursor.
    pub fn insert_char(&mut self, c: char)
        requires
            old(self).wf(),
        ensures
            final(self).wf(),
            (final(self)@.text, final(self)@.cursor) == inserted(
                old(self)@.text,
                old(self)@.cursor,
                c,
            ),
            final(self)@.lines.len() == newline_count(final(self)@.text) + 1,
            final(self)@.top_line == old(self)@.top_line,
    {
        self.data.insert(self.cursor, c);
        let len: usize = self.data.len();
        assert(self.cursor < len);
        self.cursor = self.cursor + 1;
        self.recompute_size();
    }

    /// Erases the character before the cursor, if there is one.
    pub fn remove_char(&mut self)
        requires
            old(self).wf(),
        ensures
            final(self).wf(),
            (final(self)@.text, final(self)@.cursor) == erased(old(self)@.text, old(self)@.cursor),
            final(self)@.lines.len() == newline_count(final(self)@.text) + 1,
            final(self)@.top_line == old(self)@.top_line,
    {
        if self.cursor > 0 {
            self.data.remove(self.cursor - 1);
            self.cursor = self.cursor - 1;
        }
        self.recompute_size();
    }

    /// The number of the line that the cursor is on.
    pub fn current_line(&self) -> (line: usize)
        requires
            self.wf(),
        ensures
            line < self@.lines.len(),
            self@.lines[line as int].contains(self@.cursor),
            forall|j: int|
                0 <= j < self@.lines.len() && (#[trigger] self@.lines[j]).contains(self@.cursor)
                    ==> j == line,
            line == line_of(self@.lines, self@.cursor),
    {
        let n: usize = self.lines.len();
        let mut i: usize = 0;
        while self.cursor > self.lines[i].end
            invariant
                self.wf(),
                n == self.lines@.len(),
                i < n,
                self.lines@[i as int].begin <= self.cursor,
            decreases n - i,
        {
            assert(i + 1 < n) by {
                lemma_line_within_text(self.data@, self.lines@, i as int);
            }
            assert(ends_at_newline(self.data@, self.lines@, i as int));
            i = i + 1;
        }
        proof {
            lemma_line_of_unique(self.data@, self.lines@, self.cursor as int, i as int);
        }
        i
    }

    /// The cursor's distance from the start of its line.
    pub fn column(&self) -> (column: usize)
        requires
            self.wf(),
        ensures
            column == self@.cursor - self@.lines[line_of(self@.lines, self@.cursor)].begin,
    {
        let line = self.current_line();
        self.cursor - self.lines[line].begin
    }

    /// Moves the cursor one character towards the start of the text.
    pub fn move_left(&mut self)
        requires
            old(self).wf(),
        ensures
            final(self).wf(),
            final(self)@.cursor == moved_left(old(self)@.cursor),
            final(self)@.text == old(self)@.text,
            final(self)@.lines == old(self)@.lines,
            final(self)@.top_line == old(self)@.top_line,
    {
        if self.cursor > 0 {
            self.cursor = self.cursor - 1;
        }
    }

    /// Moves the cursor one character towards the end of the text.
    pub fn move_right(&mut self)
        requires
            old(self).wf(),
        ensures
            final(self).wf(),
            final(self)@.cursor == moved_right(old(self)@.text.len() as int, old(self)@.cursor),
            final(self)@.text == old(self)@.text,
            final(self)@.lines == old(self)@.lines,
            final(self)@.top_line == old(self)@.top_line,
    {
        if self.cursor < self.data.len() {
            self.cursor = self.cursor + 1;
        }
    }

    /// Moves the cursor to its column on the line above, or to that line's
    /// end where the line is shorter.
    pub fn move_up(&mut self)
        requires
            old(self).wf(),
        ensures
            final(self).wf(),
            final(self)@.cursor == moved_up(old(self)@.lines, old(self)@.cursor),
            final(self)@.text == old(self)@.text,
            final(self)@.lines == old(self)@.lines,
            final(self)@.top_line == old(self)@.top_line,
    {
        let line = self.current_line();
        if line > 0 {
            let column = self.cursor - self.lines[line].begin;
            proof {
                lemma_line_within_text(self.data@, self.lines@, line - 1);
            }
            self.cursor = place_on_line(self.lines[line - 1], column);
        }
    }

    /// Moves the cursor to its column on the line below, or to that line's
    /// end where the line is shorter.
    pub fn move_down(&mut self)
        requires
            old(self).wf(),
        ensures
            final(self).wf(),
            final(self)@.cursor == moved_down(old(self)@.lines, old(self)@.cursor),
            final(self)@.text == old(self)@.text,
            final(self)@.lines == old(self)@.lines,
            final(self)@.top_line == old(self)@.top_line,
    {
        let line = self.current_line();
        if line < self.lines.len() - 1 {
            let column = self.cursor - self.lines[line].begin;
            proof {
                lemma_line_within_text(self.data@, self.lines@, line + 1);
            }
            self.cursor = place_on_line(self.lines[line + 1], column);
        }
    }

    /// Lets the viewport of `height` rows follow the cursor, so that the
    /// cursor's line is among the lines it shows.
    pub fn scroll(&mut self, height: usize)
        requires
            old(self).wf(),
            height >= 1,
        ensures
            final(self).wf(),
            final(self)@.top_line == scrolled(
                old(self)@.top_line,
                line_of(old(self)@.lines, old(self)@.cursor),
                height as int,
            ),
            final(self)@.top_line <= line_of(final(self)@.lines, final(self)@.cursor)
                < final(self)@.top_line + height,
            final(self)@.text == old(self)@.text,
            final(self)@.lines == old(self)@.lines,
            final(self)@.cursor == old(self)@.cursor,
    {
        let line = self.current_line();
        self.view_row = scroll_to(self.view_row, line, height);
    }

    /// Scrolls to the cursor and gives the frame for a terminal of `width`
    /// columns and `height` rows.
    pub fn rerender(&mut self, width: usize, height: usize) -> (frame: Frame)
        requires
            old(self).wf(),
            height >= 1,
        ensures
            final(self).wf(),
            final(self)@.top_line == scrolled(
                old(self)@.top_line,
                line_of(old(self)@.lines, old(self)@.cursor),
                height as int,
            ),
            final(self)@.text == old(self)@.text,
            final(self)@.lines == old(self)@.lines,
            final(self)@.cursor == old(self)@.cursor,
            is_frame(
                frame.rows@,
                final(self)@.text,
                final(self)@.lines,
                final(self)@.top_line,
                width as int,
                height as int,
            ),
            frame.cursor_row == line_of(final(self)@.lines, final(self)@.cursor)
                - final(self)@.top_line,
            0 <= frame.cursor_row < height,
            frame.cursor_column == vstd::math::min(
                final(self)@.cursor - final(self)@.lines[line_of(
                    final(self)@.lines,
                    final(self)@.cursor,
                )].begin,
                width as int,
            ),
    {
        self.scroll(height);
        let line = self.current_line();
        let mut column = self.cursor - self.lines[line].begin;
        if column > width {
            column = width;
        }
        let rows = draw_rows(&self.data, &self.lines, self.view_row, width, height);
        Frame { rows, cursor_row: line - self.view_row, cursor_column: column }
    }

    /// Lets one key act on the editor in `mode`, and says which mode follows
    /// and what the caller has to do.
    pub fn handle_key(&mut self, mode: Mode, press: KeyPress) -> (next: Transition)
        requires
            old(self).wf(),
        ensures
            final(self).wf(),
            (final(self)@.text, final(self)@.cursor) == edited(
                mode,
                press,
                old(self)@.text,
                old(self)@.lines,
                old(self)@.cursor,
            ),
            next.mode == next_mode(mode, press),
            next.action == action_of(mode, press),
            final(self)@.top_line == old(self)@.top_line,
    {
        match mode {
            Mode::Normal => match press.key {
                Key::Char(c) => {
                    if c == 'a' {
                        self.move_left();
                    } else if c == 'd' {
                        self.move_right();
                    } else if c == 'w' {
                        self.move_up();
                    } else if c == 's' {
                        self.move_down();
                    }
                },
                _ => {},
            },
            Mode::Insert => {
                if !press.modified {
                    match press.key {
                        Key::Backspace => {
                            self.remove_char();
                        },
                        Key::Char(c) => {
                            self.insert_char(c);
                        },
                        _ => {},
                    }
                }
            },
        }
        transition(mode, press)
    }

    /// The text as one string, as it is written to a file.
    pub fn contents(&self) -> (contents: String)
        ensures
            contents@ == self@.text,
    {
        let mut contents = String::new();
        let mut i: usize = 0;
        while i < self.data.len()
            invariant
                i <= self.data@.len(),
                contents@ == self.data@.take(i as int),
            decreases self.data@.len() - i,
        {
            push_char(&mut contents, self.data[i]);
            assert(contents@ =~= self.data@.take(i + 1));
            i = i + 1;
        }
        assert(self.data@.take(i as int) =~= self.data@);
        contents
    }

    /// The text.
    pub fn data(&self) -> (data: &Vec<char>)
        ensures
            data@ == self@.text,
    {
        &self.data
    }

    /// The line spans.
    pub fn lines(&self) -> (lines: &Vec<Line>)
        ensures
            lines@ == self@.lines,
    {
        &self.lines
    }

    /// The cursor.
    pub fn cursor(&self) -> (cursor: usize)
        ensures
            cursor == self@.cursor,
    {
        self.cursor
    }

    /// The number of the first line that is drawn.
    pub fn view_row(&self) -> (top_line: usize)
        ensures
            top_line == self@.top_line,
    {
        self.view_row
    }
}

/// Calls `String::push`, which appends one character to the end of the
/// string and leaves the characters before it as they were.
#[verifier::external_body]
fn push_char(s: &mut String, c: char)
    ensures
        final(s)@ == old(s)@.push(c),
{
    s.push(c);
}

} // verus!
