//! What is drawn: the rows of one frame and the place of the cursor in it.

use crate::line::is_line_index;
use crate::line::lemma_line_within_text;
use crate::line::Line;
use vstd::prelude::*;

verus! {

/// One full redraw: the rows from the top of the screen down, and where the
/// terminal's cursor goes.
#[derive(Debug)]
pub struct Frame {
    pub rows: Vec<Vec<char>>,
    pub cursor_row: usize,
    pub cursor_column: usize,
}

/// The characters of `line` that fit a screen of `width` columns.
pub open spec fn visible(text: Seq<char>, line: Line, width: int) -> Seq<char> {
    if line.end - line.begin > width {
        text.subrange(line.begin as int, line.begin + width)
    } else {
        text.subrange(line.begin as int, line.end as int)
    }
}

/// Row `i` of the screen: the visible part of line `top_line + i`, or the
/// marker `~` below the last line.
pub open spec fn frame_row(
    text: Seq<char>,
    lines: Seq<Line>,
    top_line: int,
    i: int,
    width: int,
) -> Seq<char> {
    if top_line + i < lines.len() {
        visible(text, lines[top_line + i], width)
    } else {
        seq!['~']
    }
}

/// `rows` are the rows of a screen of `width` by `height`: one for each
/// screen row but the last.
pub open spec fn is_frame(
    rows: Seq<Vec<char>>,
    text: Seq<char>,
    lines: Seq<Line>,
    top_line: int,
    width: int,
    height: int,
) -> bool {
    &&& rows.len() == height - 1
    &&& forall|i: int|
        0 <= i < rows.len() ==> (#[trigger] rows[i])@ == frame_row(text, lines, top_line, i, width)
}

/// The visible part of one line, copied from the text.
pub fn draw_line(text: &Vec<char>, line: Line, width: usize) -> (row: Vec<char>)
    requires
        line.begin <= line.end <= text@.len(),
    ensures
        row@ == visible(text@, line, width as int),
{
    let mut size: usize = line.end - line.begin;
    if size > width {
        size = width;
    }
    let mut row: Vec<char> = Vec::new();
    let mut k: usize = 0;
    while k < size
        invariant
            k <= size,
            line.begin + size <= line.end <= text@.len(),
            row@ == text@.subrange(line.begin as int, line.begin + k),
        decreases size - k,
    {
        row.push(text[line.begin + k]);
        assert(row@ =~= text@.subrange(line.begin as int, line.begin + k + 1));
        k = k + 1;
    }
    row
}

/// The rows of a frame, with line `top_line` in the first row.
pub fn draw_rows(
    text: &Vec<char>,
    lines: &Vec<Line>,
    top_line: usize,
    width: usize,
    height: usize,
) -> (rows: Vec<Vec<char>>)
    requires
        is_line_index(text@, lines@),
        height >= 1,
    ensures
        is_frame(rows@, text@, lines@, top_line as int, width as int, height as int),
{
    let mut rows: Vec<Vec<char>> = Vec::new();
    let mut i: usize = 0;
    while i < height - 1
        invariant
            is_line_index(text@, lines@),
            height >= 1,
            i <= height - 1,
            rows@.len() == i,
            forall|j: int|
                0 <= j < i ==> (#[trigger] rows@[j])@ == frame_row(
                    text@,
                    lines@,
                    top_line as int,
                    j,
                    width as int,
                ),
        decreases height - 1 - i,
    {
        if top_line < lines.len() && i < lines.len() - top_line {
            proof {
                lemma_line_within_text(text@, lines@, top_line + i);
            }
            rows.push(draw_line(text, lines[top_line + i], width));
        } else {
            let mut marker: Vec<char> = Vec::new();
            marker.push('~');
            assert(marker@ =~= seq!['~']);
            rows.push(marker);
        }
        i = i + 1;
    }
    rows
}

} // verus!
