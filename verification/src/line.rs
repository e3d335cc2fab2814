//! Lines of a text and the index that maps a line number to its span.

use vstd::prelude::*;

verus! {

/// The span of one line: the characters at `begin..end`, without the newline
/// that ends the line. A cursor is on the line when `begin <= cursor <= end`.
#[derive(Debug, Clone, Copy, PartialEq, Eq, Structural)]
pub struct Line {
    pub begin: usize,
    pub end: usize,
}

impl Line {
    pub fn new(begin: usize, end: usize) -> (line: Self)
        ensures
            line.begin == begin,
            line.end == end,
    {
        Self { begin, end }
    }

    /// Whether a cursor at `cursor` is on this line.
    pub open spec fn contains(self, cursor: int) -> bool {
        self.begin <= cursor <= self.end
    }
}

/// The number of newline characters in `text`.
pub open spec fn newline_count(text: Seq<char>) -> nat
    decreases text.len(),
{
    if text.len() == 0 {
        0
    } else if text.last() == '\n' {
        newline_count(text.drop_last()) + 1
    } else {
        newline_count(text.drop_last())
    }
}

/// Line `i` ends at a newline of `text`, and the next line begins right
/// behind that newline.
pub open spec fn ends_at_newline(text: Seq<char>, lines: Seq<Line>, i: int) -> bool {
    &&& lines[i].end < text.len()
    &&& text[lines[i].end as int] == '\n'
    &&& lines[i + 1].begin == lines[i].end + 1
}

/// `lines` is the line index of `text`: the spans start at 0, each span but
/// the last ends at a newline and the next begins right behind it, the last
/// ends at the end of the text, and no span holds a newline.
pub open spec fn is_line_index(text: Seq<char>, lines: Seq<Line>) -> bool {
    &&& lines.len() >= 1
    &&& lines[0].begin == 0
    &&& lines[lines.len() - 1].end == text.len()
    &&& forall|i: int|
        0 <= i < lines.len() ==> (#[trigger] lines[i]).begin <= lines[i].end
    &&& forall|i: int| 0 <= i < lines.len() - 1 ==> #[trigger] ends_at_newline(text, lines, i)
    &&& forall|i: int, k: int|
        0 <= i < lines.len() && (#[trigger] lines[i]).begin <= k < lines[i].end
            ==> #[trigger] text[k] != '\n'
}

/// Builds the line index of `text` in one pass over it.
pub fn rebuild(text: &Vec<char>) -> (lines: Vec<Line>)
    ensures
        is_line_index(text@, lines@),
        lines@.len() == newline_count(text@) + 1,
{
    let mut lines: Vec<Line> = Vec::new();
    let mut begin: usize = 0;
    let mut i: usize = 0;
    let n: usize = text.len();
    assert(text@.take(0) =~= Seq::<char>::empty());
    while i < n
        invariant
            n == text@.len(),
            begin <= i <= n,
            lines@.len() == newline_count(text@.take(i as int)),
            lines@.len() == 0 ==> begin == 0,
            lines@.len() > 0 ==> {
                &&& lines@[0].begin == 0
                &&& begin == lines@[lines@.len() - 1].end + 1
                &&& text@[lines@[lines@.len() - 1].end as int] == '\n'
            },
            forall|j: int| 0 <= j < lines@.len() ==> (#[trigger] lines@[j]).begin <= lines@[j].end,
            forall|j: int| 0 <= j < lines@.len() - 1 ==> #[trigger] ends_at_newline(text@, lines@, j),
            forall|j: int, k: int|
                0 <= j < lines@.len() && (#[trigger] lines@[j]).begin <= k < lines@[j].end
                    ==> #[trigger] text@[k] != '\n',
            forall|k: int| begin <= k < i ==> #[trigger] text@[k] != '\n',
        decreases n - i,
    {
        assert(text@.take(i + 1).drop_last() =~= text@.take(i as int));
        assert(text@.take(i + 1).last() == text@[i as int]);
        if text[i] == '\n' {
            let ghost before = lines@;
            lines.push(Line::new(begin, i));
            assert forall|j: int| 0 <= j < lines@.len() - 1 implies #[trigger] ends_at_newline(
                text@,
                lines@,
                j,
            ) by {
                if j < before.len() - 1 {
                    assert(ends_at_newline(text@, before, j));
                }
            }
            begin = i + 1;
        }
        i = i + 1;
    }
    assert(text@.take(n as int) =~= text@);
    let ghost before = lines@;
    lines.push(Line::new(begin, n));
    assert forall|j: int| 0 <= j < lines@.len() - 1 implies #[trigger] ends_at_newline(
        text@,
        lines@,
        j,
    ) by {
        if j < before.len() - 1 {
            assert(ends_at_newline(text@, before, j));
        }
    }
    lines
}

/// The number of the line that a cursor at `cursor` is on.
pub open spec fn line_of(lines: Seq<Line>, cursor: int) -> int {
    choose|i: int| 0 <= i < lines.len() && (#[trigger] lines[i]).contains(cursor)
}

/// Spans of a line index come in increasing order and do not touch.
pub proof fn lemma_lines_ordered(text: Seq<char>, lines: Seq<Line>, i: int, j: int)
    requires
        is_line_index(text, lines),
        0 <= i < j < lines.len(),
    ensures
        lines[i].end < lines[j].begin,
    decreases j - i,
{
    assert(ends_at_newline(text, lines, j - 1));
    if i + 1 < j {
        lemma_lines_ordered(text, lines, i, j - 1);
    }
}

/// Every span of a line index lies within the text.
pub proof fn lemma_line_within_text(text: Seq<char>, lines: Seq<Line>, i: int)
    requires
        is_line_index(text, lines),
        0 <= i < lines.len(),
    ensures
        lines[i].begin <= lines[i].end <= text.len(),
{
    if i + 1 < lines.len() {
        assert(ends_at_newline(text, lines, i));
    }
}

/// At most one line of a line index holds a given cursor, and `line_of` names it.
pub proof fn lemma_line_of_unique(text: Seq<char>, lines: Seq<Line>, cursor: int, i: int)
    requires
        is_line_index(text, lines),
        0 <= i < lines.len(),
        lines[i].contains(cursor),
    ensures
        line_of(lines, cursor) == i,
        forall|j: int| 0 <= j < lines.len() && (#[trigger] lines[j]).contains(cursor) ==> j == i,
{
    assert forall|j: int| 0 <= j < lines.len() && (#[trigger] lines[j]).contains(cursor) implies j
        == i by {
        if j < i {
            lemma_lines_ordered(text, lines, j, i);
        } else if i < j {
            lemma_lines_ordered(text, lines, i, j);
        }
    }
}

} // verus!
