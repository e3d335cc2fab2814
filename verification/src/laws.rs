//! Laws that hold of the editor's model, each proved from the definitions
//! that the contracts use.

use crate::editor::erased;
use crate::editor::inserted;
use crate::line::ends_at_newline;
use crate::line::is_line_index;
use crate::line::lemma_line_of_unique;
use crate::line::lemma_line_within_text;
use crate::line::lemma_lines_ordered;
use crate::line::line_of;
use crate::line::newline_count;
use crate::line::Line;
use crate::mode::edited;
use crate::mode::KeyPress;
use crate::mode::Mode;
use crate::motion::moved_down;
use crate::motion::moved_left;
use crate::motion::moved_right;
use crate::motion::moved_up;
use vstd::prelude::*;

verus! {

/// Typing a character and erasing it again gives back the text and the
/// cursor as they were.
pub proof fn law_insert_then_erase(text: Seq<char>, cursor: int, c: char)
    requires
        0 <= cursor <= text.len(),
    ensures
        ({
            let typed = inserted(text, cursor, c);
            erased(typed.0, typed.1) == (text, cursor)
        }),
{
    assert(text.insert(cursor, c).remove(cursor) =~= text);
}

/// A move to the left at the start of the text changes nothing.
pub proof fn law_left_stops_at_start()
    ensures
        moved_left(0) == 0,
{
}

/// A move to the right behind the last character changes nothing.
pub proof fn law_right_stops_at_end(text: Seq<char>)
    ensures
        moved_right(text.len() as int, text.len() as int) == text.len(),
{
}

/// A move up on the first line changes nothing.
pub proof fn law_up_stops_at_first_line(text: Seq<char>, lines: Seq<Line>, cursor: int)
    requires
        is_line_index(text, lines),
        lines[0].contains(cursor),
    ensures
        moved_up(lines, cursor) == cursor,
{
    lemma_line_of_unique(text, lines, cursor, 0);
}

/// A move down on the last line changes nothing.
pub proof fn law_down_stops_at_last_line(text: Seq<char>, lines: Seq<Line>, cursor: int)
    requires
        is_line_index(text, lines),
        lines[lines.len() - 1].contains(cursor),
    ensures
        moved_down(lines, cursor) == cursor,
{
    lemma_line_of_unique(text, lines, cursor, lines.len() - 1);
}

/// From line `i` on, some line holds a cursor that is not before line `i`.
proof fn lemma_find_line(text: Seq<char>, lines: Seq<Line>, cursor: int, i: int)
    requires
        is_line_index(text, lines),
        0 <= i < lines.len(),
        lines[i].begin <= cursor <= text.len(),
    ensures
        exists|j: int| i <= j < lines.len() && (#[trigger] lines[j]).contains(cursor),
    decreases lines.len() - i,
{
    if cursor <= lines[i].end {
        assert(lines[i].contains(cursor));
    } else {
        assert(ends_at_newline(text, lines, i));
        lemma_find_line(text, lines, cursor, i + 1);
    }
}

/// Every position in the text, and the one behind its end, is on exactly one
/// line, and `line_of` gives that line.
pub proof fn law_cursor_on_one_line(text: Seq<char>, lines: Seq<Line>, cursor: int)
    requires
        is_line_index(text, lines),
        0 <= cursor <= text.len(),
    ensures
        0 <= line_of(lines, cursor) < lines.len(),
        lines[line_of(lines, cursor)].contains(cursor),
        forall|j: int|
            0 <= j < lines.len() && (#[trigger] lines[j]).contains(cursor) ==> j == line_of(
                lines,
                cursor,
            ),
{
    lemma_find_line(text, lines, cursor, 0);
    let j = choose|j: int| 0 <= j < lines.len() && (#[trigger] lines[j]).contains(cursor);
    lemma_line_of_unique(text, lines, cursor, j);
}

/// Two line indexes of one text agree on line `i`.
proof fn lemma_indexes_agree(text: Seq<char>, a: Seq<Line>, b: Seq<Line>, i: int)
    requires
        is_line_index(text, a),
        is_line_index(text, b),
        0 <= i < a.len(),
    ensures
        i < b.len(),
        a[i] == b[i],
    decreases i,
{
    if i > 0 {
        lemma_indexes_agree(text, a, b, i - 1);
        assert(ends_at_newline(text, a, i - 1));
        assert(ends_at_newline(text, b, i - 1));
    }
    assert(a[i].begin == b[i].begin);
    lemma_line_within_text(text, a, i);
    lemma_line_within_text(text, b, i);
    if a[i].end < b[i].end {
        assert(ends_at_newline(text, a, i));
        assert(text[a[i].end as int] != '\n');
    } else if b[i].end < a[i].end {
        assert(ends_at_newline(text, b, i));
        assert(text[b[i].end as int] != '\n');
    }
}

/// A text has one line index only: the index is a function of the text.
pub proof fn law_line_index_unique(text: Seq<char>, a: Seq<Line>, b: Seq<Line>)
    requires
        is_line_index(text, a),
        is_line_index(text, b),
    ensures
        a == b,
{
    lemma_indexes_agree(text, a, b, a.len() - 1);
    lemma_indexes_agree(text, b, a, b.len() - 1);
    assert forall|i: int| 0 <= i < a.len() implies a[i] == b[i] by {
        lemma_indexes_agree(text, a, b, i);
    }
    assert(a =~= b);
}

/// A line index has one line more than its text has newlines.
pub proof fn law_line_count(text: Seq<char>, lines: Seq<Line>)
    requires
        is_line_index(text, lines),
    ensures
        lines.len() == newline_count(text) + 1,
    decreases text.len(),
{
    let n = lines.len() - 1;
    if n >= 1 {
        assert(ends_at_newline(text, lines, n - 1));
    }
    if text.len() > 0 {
        let shorter = text.drop_last();
        let last = lines[n];
        if text.last() == '\n' {
            if last.begin < last.end {
                assert(text[text.len() - 1] != '\n');
            }
            let prev = lines.drop_last();
            assert forall|i: int| 0 <= i < prev.len() - 1 implies #[trigger] ends_at_newline(
                shorter,
                prev,
                i,
            ) by {
                assert(ends_at_newline(text, lines, i));
                lemma_lines_ordered(text, lines, i, n - 1);
                lemma_line_within_text(text, lines, n - 1);
            }
            assert forall|i: int, k: int|
                0 <= i < prev.len() && (#[trigger] prev[i]).begin <= k < prev[i].end
            implies #[trigger] shorter[k] != '\n' by {
                lemma_line_within_text(text, lines, i);
                assert(lines[i].begin <= k < lines[i].end);
                assert(text[k] != '\n');
            }
            law_line_count(shorter, prev);
        } else {
            let prev = lines.update(n, Line { begin: last.begin, end: (last.end - 1) as usize });
            assert forall|i: int| 0 <= i < prev.len() - 1 implies #[trigger] ends_at_newline(
                shorter,
                prev,
                i,
            ) by {
                assert(ends_at_newline(text, lines, i));
            }
            assert forall|i: int, k: int|
                0 <= i < prev.len() && (#[trigger] prev[i]).begin <= k < prev[i].end
            implies #[trigger] shorter[k] != '\n' by {
                if i < n {
                    assert(ends_at_newline(text, lines, i));
                }
                assert(lines[i].begin <= k < lines[i].end);
                assert(text[k] != '\n');
            }
            law_line_count(shorter, prev);
        }
    }
}

/// Whatever key arrives in whatever mode, the cursor stays in the text or
/// right behind it.
pub proof fn law_cursor_stays_in_text(
    mode: Mode,
    press: KeyPress,
    text: Seq<char>,
    lines: Seq<Line>,
    cursor: int,
)
    requires
        is_line_index(text, lines),
        0 <= cursor <= text.len(),
    ensures
        ({
            let after = edited(mode, press, text, lines, cursor);
            0 <= after.1 <= after.0.len()
        }),
{
    law_cursor_on_one_line(text, lines, cursor);
    let line = line_of(lines, cursor);
    if line > 0 {
        lemma_line_within_text(text, lines, line - 1);
    }
    if line + 1 < lines.len() {
        lemma_line_within_text(text, lines, line + 1);
    }
}

} // verus!
