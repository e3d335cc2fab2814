//! Where the cursor and the viewport go: each move stops at a boundary
//! instead of failing.

use crate::line::line_of;
use crate::line::Line;
use vstd::prelude::*;

verus! {

/// One step towards the start of the text; the cursor stays at the start.
pub open spec fn moved_left(cursor: int) -> int {
    if cursor > 0 {
        cursor - 1
    } else {
        cursor
    }
}

/// One step towards the end of a text of `len` characters; the cursor stays
/// behind the last character.
pub open spec fn moved_right(len: int, cursor: int) -> int {
    if cursor < len {
        cursor + 1
    } else {
        cursor
    }
}

/// The position at `column` on `line`, or the line's end where the line is
/// shorter than that.
pub open spec fn on_line(line: Line, column: int) -> int {
    if line.begin + column < line.end {
        line.begin + column
    } else {
        line.end as int
    }
}

/// The same column one line up; the cursor stays on the first line.
pub open spec fn moved_up(lines: Seq<Line>, cursor: int) -> int {
    let line = line_of(lines, cursor);
    if line > 0 {
        on_line(lines[line - 1], cursor - lines[line].begin)
    } else {
        cursor
    }
}

/// The same column one line down; the cursor stays on the last line.
pub open spec fn moved_down(lines: Seq<Line>, cursor: int) -> int {
    let line = line_of(lines, cursor);
    if line + 1 < lines.len() {
        on_line(lines[line + 1], cursor - lines[line].begin)
    } else {
        cursor
    }
}

/// The first drawn line after the viewport of `height` rows has followed the
/// cursor to `line`.
pub open spec fn scrolled(top_line: int, line: int, height: int) -> int {
    if line < top_line {
        line
    } else if line >= top_line + height {
        line - height + 1
    } else {
        top_line
    }
}

/// Computes `on_line` without leaving the machine's integers.
pub fn place_on_line(line: Line, column: usize) -> (cursor: usize)
    requires
        line.begin <= line.end,
    ensures
        cursor == on_line(line, column as int),
        line.begin <= cursor <= line.end,
{
    if column < line.end - line.begin {
        line.begin + column
    } else {
        line.end
    }
}

/// Computes `scrolled` without leaving the machine's integers.
pub fn scroll_to(top_line: usize, line: usize, height: usize) -> (top: usize)
    requires
        height >= 1,
    ensures
        top == scrolled(top_line as int, line as int, height as int),
        top <= line < top + height,
{
    if line < top_line {
        line
    } else if line - top_line >= height {
        line - height + 1
    } else {
        top_line
    }
}

} // verus!
