//! How a text is divided into lines.
//!
//! A line ends after a line feed, vertical tab, form feed, carriage return,
//! next-line, line separator or paragraph separator character; a carriage
//! return directly before a line feed ends no line of its own. Positions and
//! columns are counted in `char`s.

use vstd::prelude::*;

verus! {

/// The characters that can end a line.
pub open spec fn is_line_break(c: char) -> bool {
    c == '\n' || c == '\u{B}' || c == '\u{C}' || c == '\r' || c == '\u{85}' || c == '\u{2028}' || c
        == '\u{2029}'
}

/// Whether the character at `j` is the last one of its line.
pub open spec fn ends_line(text: Seq<char>, j: int) -> bool {
    &&& 0 <= j < text.len()
    &&& is_line_break(text[j])
    &&& !(text[j] == '\r' && j + 1 < text.len() && text[j + 1] == '\n')
}

/// The line that position `i` stands on: how many lines end before it.
pub open spec fn line_of(text: Seq<char>, i: int) -> int
    decreases i,
{
    if i <= 0 {
        0
    } else {
        line_of(text, i - 1) + if ends_line(text, i - 1) {
            1int
        } else {
            0
        }
    }
}

/// How many lines the text has; the empty text has one.
pub open spec fn line_count(text: Seq<char>) -> int {
    line_of(text, text.len() as int) + 1
}

/// The first position at or after `i` that stands on line `line` or a later
/// one, or the end of the text where there is none.
pub open spec fn line_start_from(text: Seq<char>, line: int, i: int) -> int
    decreases text.len() - i,
{
    if i >= text.len() || line_of(text, i) >= line {
        i
    } else {
        line_start_from(text, line, i + 1)
    }
}

/// The position at which line `line` starts, or the end of the text where it
/// has no such line.
pub open spec fn line_start(text: Seq<char>, line: int) -> int {
    line_start_from(text, line, 0)
}

/// How many characters line `line` holds, without the character that ends it.
pub open spec fn line_len(text: Seq<char>, line: int) -> int {
    if line == line_count(text) - 1 {
        text.len() - line_start(text, line)
    } else {
        line_start(text, line + 1) - line_start(text, line) - 1
    }
}

/// The column of position `i` in its line.
pub open spec fn column_of(text: Seq<char>, i: int) -> int {
    i - line_start(text, line_of(text, i))
}

/// Whether an indent unit, two spaces, stands at position `i`.
pub open spec fn indent_unit_at(text: Seq<char>, i: int) -> bool {
    &&& 0 <= i
    &&& i + 2 <= text.len()
    &&& text[i] == ' '
    &&& text[i + 1] == ' '
}

/// Whether the line of position `i` starts with whole indent units that reach
/// up to `i` or beyond, and `i` is not the start of the line.
pub open spec fn only_indentation_before(text: Seq<char>, i: int) -> bool {
    let start = line_start(text, line_of(text, i));
    let reach = (i - start + 1) / 2 * 2;
    &&& start < i
    &&& start + reach <= text.len()
    &&& forall|j: int| start <= j < start + reach ==> text[j] == ' '
}

/// The text without its characters from `from` up to `to`.
pub open spec fn without(text: Seq<char>, from: int, to: int) -> Seq<char> {
    text.subrange(0, from) + text.subrange(to, text.len() as int)
}

/// The text with `inserted` put in at position `at`.
pub open spec fn with_inserted(text: Seq<char>, at: int, inserted: Seq<char>) -> Seq<char> {
    text.subrange(0, at) + inserted + text.subrange(at, text.len() as int)
}

/// The text with one indent unit put in at the start of each line from
/// `first` to `last`.
pub open spec fn indented(text: Seq<char>, first: int, last: int) -> Seq<char>
    decreases last - first + 1,
{
    if last < first {
        text
    } else {
        indented(with_inserted(text, line_start(text, last), seq![' ', ' ']), first, last - 1)
    }
}

/// The text with one indent unit taken off each line from `first` to `last`
/// that starts with one.
pub open spec fn unindented(text: Seq<char>, first: int, last: int) -> Seq<char>
    decreases last - first + 1,
{
    if last < first {
        text
    } else {
        let start = line_start(text, last);
        if indent_unit_at(text, start) {
            unindented(without(text, start, start + 2), first, last - 1)
        } else {
            unindented(text, first, last - 1)
        }
    }
}

/// How many lines `unindented` shortens.
pub open spec fn lines_unindented(text: Seq<char>, first: int, last: int) -> int
    decreases last - first + 1,
{
    if last < first {
        0
    } else {
        let start = line_start(text, last);
        if indent_unit_at(text, start) {
            1 + lines_unindented(without(text, start, start + 2), first, last - 1)
        } else {
            lines_unindented(text, first, last - 1)
        }
    }
}

/// Later positions stand on later lines.
pub proof fn lemma_line_of_monotone(text: Seq<char>, i: int, j: int)
    requires
        i <= j,
    ensures
        0 <= line_of(text, i) <= line_of(text, j),
    decreases j,
{
    if j > 0 && i < j {
        lemma_line_of_monotone(text, i, j - 1);
    } else if j > 0 {
        lemma_line_of_monotone(text, i - 1, j - 1);
    }
}

/// A line starts at the first position that stands on it.
proof fn lemma_line_start_from(text: Seq<char>, line: int, i: int, at: int)
    requires
        0 <= i <= at <= text.len(),
        line_of(text, at) == line,
        i == 0 || line_of(text, i - 1) < line,
        0 <= line,
    ensures
        i <= line_start_from(text, line, i) <= at,
        line_of(text, line_start_from(text, line, i)) == line,
        line_start_from(text, line, i) == 0 || line_of(text, line_start_from(text, line, i) - 1)
            < line,
    decreases at - i,
{
    if i < at && line_of(text, i) < line {
        lemma_line_start_from(text, line, i + 1, at);
    } else if i > 0 {
        lemma_line_of_monotone(text, i, at);
    }
}

/// The line of a position starts at or before it, and is the line that its
/// start stands on; the character before the start ends the line before.
pub proof fn lemma_line_start(text: Seq<char>, at: int)
    requires
        0 <= at <= text.len(),
    ensures
        0 <= line_start(text, line_of(text, at)) <= at,
        line_of(text, line_start(text, line_of(text, at))) == line_of(text, at),
        line_of(text, at) > 0 ==> line_of(text, line_start(text, line_of(text, at)) - 1)
            < line_of(text, at),
{
    lemma_line_of_monotone(text, 0, at);
    lemma_line_start_from(text, line_of(text, at), 0, at);
}

/// Every line up to the last is the line of some position.
pub proof fn lemma_line_reached(text: Seq<char>, line: int, end: int) -> (at: int)
    requires
        0 <= line <= line_of(text, end),
        0 <= end <= text.len(),
    ensures
        0 <= at <= end,
        line_of(text, at) == line,
    decreases end,
{
    if end <= 0 || line_of(text, end) == line {
        end
    } else {
        lemma_line_reached(text, line, end - 1)
    }
}

/// A line lies within the text.
pub proof fn lemma_line_extent(text: Seq<char>, line: int)
    requires
        0 <= line < line_count(text),
    ensures
        0 <= line_start(text, line),
        0 <= line_len(text, line),
        line_start(text, line) + line_len(text, line) <= text.len(),
        line_of(text, line_start(text, line)) == line,
        line + 1 < line_count(text) ==> line_start(text, line) + line_len(text, line) + 1
            == line_start(text, line + 1),
{
    let at = lemma_line_reached(text, line, text.len() as int);
    lemma_line_start(text, at);
    if line + 1 < line_count(text) {
        let next = lemma_line_reached(text, line + 1, text.len() as int);
        lemma_line_start(text, next);
        if line_start(text, line + 1) <= line_start(text, line) {
            lemma_line_of_monotone(text, line_start(text, line + 1), line_start(text, line));
        }
    }
}

/// A position of a line that is not the last stands no further than the
/// character that ends the line.
pub proof fn lemma_column_in_line(text: Seq<char>, at: int)
    requires
        0 <= at <= text.len(),
    ensures
        0 <= line_of(text, at) < line_count(text),
        0 <= column_of(text, at) <= line_len(text, line_of(text, at)),
{
    let line = line_of(text, at);
    lemma_line_of_monotone(text, 0, at);
    lemma_line_of_monotone(text, at, text.len() as int);
    lemma_line_start(text, at);
    lemma_line_extent(text, line);
    if line + 1 < line_count(text) {
        let next = lemma_line_reached(text, line + 1, text.len() as int);
        lemma_line_start(text, next);
        if line_start(text, line + 1) <= at {
            lemma_line_of_monotone(text, line_start(text, line + 1), at);
        }
    }
}

/// Wherever a line is said to start, that is a position of the text.
proof fn lemma_line_start_in_text(text: Seq<char>, line: int, i: int)
    requires
        0 <= i <= text.len(),
    ensures
        i <= line_start_from(text, line, i) <= text.len(),
    decreases text.len() - i,
{
    if !(i >= text.len() || line_of(text, i) >= line) {
        lemma_line_start_in_text(text, line, i + 1);
    }
}

/// Indenting adds two characters to each line.
pub proof fn lemma_indented_len(text: Seq<char>, first: int, last: int)
    requires
        first <= last + 1,
    ensures
        indented(text, first, last).len() == text.len() + 2 * (last - first + 1),
    decreases last - first + 1,
{
    if first <= last {
        lemma_line_start_in_text(text, last, 0);
        let next = with_inserted(text, line_start(text, last), seq![' ', ' ']);
        assert(next.len() == text.len() + 2);
        lemma_indented_len(next, first, last - 1);
    }
}

/// Two texts that agree up to `limit` have the same lines up to there.
proof fn lemma_same_lines(a: Seq<char>, b: Seq<char>, limit: int, i: int)
    requires
        i <= limit < a.len(),
        limit <= b.len(),
        forall|j: int| 0 <= j < limit ==> a[j] == b[j],
        limit < b.len() ==> a[limit] == b[limit] || a[limit] != '\n' && b[limit] != '\n',
        limit == b.len() ==> a[limit] != '\n',
    ensures
        line_of(a, i) == line_of(b, i),
    decreases i,
{
    if i > 0 {
        lemma_same_lines(a, b, limit, i - 1);
    }
}

/// A line that starts before `limit` starts there in every text with the same
/// lines up to `limit`.
proof fn lemma_same_line_start(a: Seq<char>, b: Seq<char>, limit: int, line: int, i: int)
    requires
        0 <= i <= line_start_from(a, line, i) <= limit,
        limit <= a.len(),
        limit <= b.len(),
        forall|j: int| 0 <= j <= limit ==> #[trigger] line_of(a, j) == line_of(b, j),
        line_of(a, line_start_from(a, line, i)) >= line,
    ensures
        line_start_from(b, line, i) == line_start_from(a, line, i),
    decreases a.len() - i,
{
    if !(i >= a.len() || line_of(a, i) >= line) {
        lemma_line_start_in_text(a, line, i + 1);
        lemma_same_line_start(a, b, limit, line, i + 1);
    }
    assert(line_of(a, i) == line_of(b, i));
}

/// Taking the indent off a line leaves the lines before it where they were.
proof fn lemma_earlier_lines_kept(text: Seq<char>, first: int, last: int)
    requires
        0 <= first < last < line_count(text),
        indent_unit_at(text, line_start(text, last)),
    ensures
        ({
            let start = line_start(text, last);
            let rest = without(text, start, start + 2);
            &&& line_start(rest, first) == line_start(text, first)
            &&& last - 1 < line_count(rest)
            &&& line_start(text, first) < start
        }),
{
    let start = line_start(text, last);
    let rest = without(text, start, start + 2);
    lemma_line_extent(text, first);
    lemma_line_extent(text, last - 1);
    lemma_line_extent(text, last);
    let limit = start - 1;
    assert(line_start(text, last - 1) <= limit);
    assert(limit < rest.len());
    assert(rest[limit] == text[limit]);
    assert forall|j: int| 0 <= j <= limit implies #[trigger] line_of(text, j) == line_of(
        rest,
        j,
    ) by {
        lemma_same_lines(text, rest, limit, j);
    }
    if line_start(text, first) > limit {
        lemma_line_of_monotone(text, start, line_start(text, first));
    }
    lemma_same_line_start(text, rest, limit, first, 0);
    assert(line_of(rest, line_start(text, last - 1)) == last - 1);
    lemma_line_of_monotone(rest, line_start(text, last - 1), rest.len() as int);
}

/// Unindenting takes two characters off each shortened line, all of them
/// behind the start of the first line.
proof fn lemma_unindented_keeps(text: Seq<char>, first: int, last: int)
    requires
        0 <= first,
        first <= last + 1,
        last < line_count(text),
    ensures
        unindented(text, first, last).len() == text.len() - 2 * lines_unindented(text, first, last),
        lines_unindented(text, first, last) >= 0,
        first <= last ==> unindented(text, first, last).len() >= line_start(text, first),
    decreases last - first + 1,
{
    reveal_with_fuel(unindented, 2);
    reveal_with_fuel(lines_unindented, 2);
    if first <= last {
        let start = line_start(text, last);
        lemma_line_extent(text, first);
        lemma_line_extent(text, last);
        if indent_unit_at(text, start) {
            let rest = without(text, start, start + 2);
            assert(rest.len() == text.len() - 2);
            if first < last {
                lemma_earlier_lines_kept(text, first, last);
                lemma_unindented_keeps(rest, first, last - 1);
            }
        } else {
            lemma_unindented_keeps(text, first, last - 1);
        }
    }
}

/// Where no line is shortened, the text is unchanged.
pub proof fn lemma_nothing_unindented(text: Seq<char>, first: int, last: int)
    requires
        0 <= first,
        first <= last + 1,
        last < line_count(text),
    ensures
        lines_unindented(text, first, last) <= 0 ==> unindented(text, first, last) == text,
    decreases last - first + 1,
{
    if first <= last {
        let start = line_start(text, last);
        if indent_unit_at(text, start) {
            if first < last {
                lemma_earlier_lines_kept(text, first, last);
                lemma_unindented_keeps(without(text, start, start + 2), first, last - 1);
            } else {
                reveal_with_fuel(lines_unindented, 2);
            }
        } else {
            lemma_nothing_unindented(text, first, last - 1);
        }
    }
}

/// Leaving out the first line spares at most one line.
proof fn lemma_first_line_counts_once(text: Seq<char>, first: int, last: int)
    requires
        first <= last,
    ensures
        lines_unindented(text, first, last) <= lines_unindented(text, first + 1, last) + 1,
    decreases last - first,
{
    reveal_with_fuel(lines_unindented, 2);
    let start = line_start(text, last);
    let rest = if indent_unit_at(text, start) {
        without(text, start, start + 2)
    } else {
        text
    };
    if first < last {
        lemma_first_line_counts_once(rest, first, last - 1);
    }
}

/// What unindenting the lines from the one of `at` to line `last` leaves
/// reaches at least to two characters before `at`.
pub proof fn lemma_unindented_reaches(text: Seq<char>, at: int, last: int)
    requires
        0 <= at <= text.len(),
        line_of(text, at) <= last < line_count(text),
    ensures
        lines_unindented(text, line_of(text, at), last) >= 0,
        unindented(text, line_of(text, at), last).len() == text.len() - 2 * lines_unindented(
            text,
            line_of(text, at),
            last,
        ),
        unindented(text, line_of(text, at), last).len() >= at - 2,
{
    let first = line_of(text, at);
    lemma_line_of_monotone(text, 0, at);
    lemma_unindented_keeps(text, first, last);
    lemma_unindented_keeps(text, first + 1, last);
    lemma_first_line_counts_once(text, first, last);
    if first < last {
        lemma_line_extent(text, first + 1);
        if line_start(text, first + 1) < at {
            lemma_line_of_monotone(text, line_start(text, first + 1), at);
        }
    }
}

/// Lines are told apart by the characters that end them: a position stands one
/// line further down than the one before it exactly where such a character
/// stands between, and a carriage return ends no line where a line feed
/// follows it.
pub proof fn law_lines_end_with_their_characters(text: Seq<char>, i: int)
    requires
        0 <= i < text.len(),
    ensures
        line_of(text, 0) == 0,
        ({
            let c = text[i];
            let ends = c == '\n' || c == '\u{B}' || c == '\u{C}' || c == '\u{85}' || c
                == '\u{2028}' || c == '\u{2029}' || c == '\r' && (i + 1 == text.len() || text[i
                + 1] != '\n');
            line_of(text, i + 1) == line_of(text, i) + if ends {
                1int
            } else {
                0
            }
        }),
        line_count(text) == line_of(text, text.len() as int) + 1,
{
}

/// A line starts where the text does, or right behind the character that ends
/// the line before, and the column of a position is its distance from there.
pub proof fn law_lines_start_behind_line_ends(text: Seq<char>, at: int)
    requires
        0 <= at <= text.len(),
    ensures
        ({
            let start = at - column_of(text, at);
            &&& 0 <= start <= at
            &&& line_of(text, start) == line_of(text, at)
            &&& start == 0 || ends_line(text, start - 1)
            &&& forall|j: int| start <= j < at ==> !#[trigger] ends_line(text, j)
        }),
{
    lemma_line_start(text, at);
    lemma_line_of_monotone(text, 0, at);
    let start = at - column_of(text, at);
    if start > 0 && line_of(text, at) == 0 {
        lemma_line_of_monotone(text, 0, start);
        assert(line_start(text, 0) == 0);
    }
    assert forall|j: int| start <= j < at implies !#[trigger] ends_line(text, j) by {
        lemma_line_of_monotone(text, start, j);
        lemma_line_of_monotone(text, j + 1, at);
    }
}

} // verus!
