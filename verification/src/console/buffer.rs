//! The embedded editor widget: what it holds, and what its operations do.
//!
//! `ratatui_code_editor::editor::Editor` keeps the text, the cursor, the
//! selection and the edit history. `Buffer` is the mathematical picture of
//! those parts; each function below makes one call into the widget, and its
//! contract says what that call does to the picture. The widget is always
//! made for Lua, for which it has no syntax tree and an indent unit of two
//! spaces, and is never put into a diff mode, so every line is visible.

use ratatui::layout::Rect;
use ratatui_code_editor::actions::{
    Delete, Indent, InsertText, MoveLeft, MoveRight, Redo, SelectAll, UnIndent, Undo,
};
use ratatui_code_editor::editor::Editor;
use vstd::prelude::*;

use super::lines::{
    column_of, indented, lemma_indented_len, lemma_line_of_monotone, lemma_line_start,
    lemma_nothing_unindented, lemma_unindented_reaches, line_count, line_len, line_of, line_start,
    lines_unindented, only_indentation_before, unindented, without,
};
use crate::text::decimal;

verus! {

/// How many edits the widget can take back.
pub const HISTORY_LIMIT: usize = 1000;

/// The embedded editor widget.
#[verifier::external_type_specification]
#[verifier::external_body]
pub struct ExEditor(ratatui_code_editor::editor::Editor);

/// The text that the widget holds.
pub uninterp spec fn editor_text(editor: Editor) -> Seq<char>;

/// The widget's cursor, as a position in the text.
pub uninterp spec fn editor_cursor(editor: Editor) -> int;

/// The start and the end of the widget's selection.
pub uninterp spec fn editor_selection(editor: Editor) -> Option<(int, int)>;

/// The edits in the widget's history that can be taken back, oldest first.
pub uninterp spec fn editor_past(editor: Editor) -> Seq<Revision>;

/// The edits in the widget's history that were taken back, the next one to
/// be made again last.
pub uninterp spec fn editor_future(editor: Editor) -> Seq<Revision>;

/// Whether the widget offers to fold code.
pub uninterp spec fn editor_folding(editor: Editor) -> bool;

/// The first column that the widget draws.
pub uninterp spec fn editor_offset_x(editor: Editor) -> int;

/// The first line that the widget draws.
pub uninterp spec fn editor_offset_y(editor: Editor) -> int;

/// The grapheme boundary of `text` that follows position `i`.
pub uninterp spec fn next_boundary(text: Seq<char>, i: int) -> int;

/// The grapheme boundary of `text` that precedes position `i`, counted from
/// the start of a line.
pub uninterp spec fn previous_boundary(text: Seq<char>, i: int) -> int;

/// Text, cursor and selection at one moment.
#[verifier::ext_equal]
pub struct Snapshot {
    pub text: Seq<char>,
    pub cursor: int,
    pub selection: Option<(int, int)>,
}

/// One edit in the history: what there was before it and after it.
#[verifier::ext_equal]
pub struct Revision {
    pub before: Snapshot,
    pub after: Snapshot,
}

/// What an editor holds.
#[verifier::ext_equal]
pub struct Buffer {
    pub now: Snapshot,
    pub past: Seq<Revision>,
    pub future: Seq<Revision>,
    pub folding: bool,
}

/// What the widget `editor` holds.
pub open spec fn buffer(editor: Editor) -> Buffer {
    Buffer {
        now: Snapshot {
            text: editor_text(editor),
            cursor: editor_cursor(editor),
            selection: editor_selection(editor),
        },
        past: editor_past(editor),
        future: editor_future(editor),
        folding: editor_folding(editor),
    }
}

/// The selection between two positions, whichever comes first.
pub open spec fn between(a: int, b: int) -> Option<(int, int)> {
    if a <= b {
        Some((a, b))
    } else {
        Some((b, a))
    }
}

/// `a` less `b`, but not below zero.
pub open spec fn less(a: int, b: int) -> int {
    if a < b {
        0
    } else {
        a - b
    }
}

/// The boundary after position `i`, or the end of the text.
pub open spec fn step_right(text: Seq<char>, i: int) -> int {
    let next = next_boundary(text, i);
    if i < next <= text.len() {
        next
    } else {
        text.len() as int
    }
}

/// The boundary before position `i`, or the start of the text.
pub open spec fn step_left(text: Seq<char>, i: int) -> int {
    let previous = previous_boundary(text, i);
    if 0 <= previous < i {
        previous
    } else {
        0
    }
}

impl Snapshot {
    /// The cursor and the selection lie within the text.
    pub open spec fn valid(self) -> bool {
        &&& 0 <= self.cursor <= self.text.len()
        &&& match self.selection {
            Some((start, end)) => 0 <= start <= end <= self.text.len(),
            None => true,
        }
    }

    /// Whether something is selected.
    pub open spec fn active(self) -> bool {
        match self.selection {
            Some((start, end)) => start != end,
            None => false,
        }
    }

    /// The end of the selection that stays where it is when the selection is
    /// extended, or the cursor.
    pub open spec fn anchor(self) -> int {
        match self.selection {
            Some((start, end)) => if self.cursor == start {
                end
            } else {
                start
            },
            None => self.cursor,
        }
    }

    /// The cursor at `at`, the selection extended to it or cleared.
    pub open spec fn placed(self, at: int, shift: bool) -> Snapshot {
        Snapshot {
            text: self.text,
            cursor: at,
            selection: if shift {
                between(self.anchor(), at)
            } else {
                None
            },
        }
    }

    /// `inserted` in place of what is selected, or at the cursor.
    pub open spec fn inserted(self, inserted: Seq<char>) -> Snapshot {
        let (from, to) = if self.active() {
            self.selection->0
        } else {
            (self.cursor, self.cursor)
        };
        Snapshot {
            text: self.text.subrange(0, from) + inserted + self.text.subrange(
                to,
                self.text.len() as int,
            ),
            cursor: from + inserted.len(),
            selection: None,
        }
    }

    /// Where a deletion before the cursor starts: the start of the line where
    /// only indentation stands before the cursor, or the boundary before it.
    pub open spec fn deletion_start(self) -> int {
        if only_indentation_before(self.text, self.cursor) {
            line_start(self.text, line_of(self.text, self.cursor))
        } else {
            step_left(self.text, self.cursor)
        }
    }

    /// What is selected deleted, or what stands before the cursor.
    pub open spec fn deleted(self) -> Snapshot {
        if self.active() {
            let (start, end) = self.selection->0;
            Snapshot { text: without(self.text, start, end), cursor: start, selection: None }
        } else if self.cursor > 0 {
            let start = self.deletion_start();
            Snapshot {
                text: without(self.text, start, self.cursor),
                cursor: start,
                selection: self.selection,
            }
        } else {
            self
        }
    }

    /// The cursor one boundary to the right, or at the end of what is
    /// selected.
    pub open spec fn moved_right(self, shift: bool) -> Snapshot {
        if !shift && self.active() {
            self.placed((self.selection->0).1, false)
        } else if self.cursor < self.text.len() {
            self.placed(step_right(self.text, self.cursor), shift)
        } else {
            self
        }
    }

    /// The cursor one boundary to the left, or at the start of what is
    /// selected.
    pub open spec fn moved_left(self, shift: bool) -> Snapshot {
        if !shift && self.active() {
            self.placed((self.selection->0).0, false)
        } else if self.cursor > 0 {
            self.placed(step_left(self.text, self.cursor), shift)
        } else {
            self
        }
    }

    /// Everything selected.
    pub open spec fn all_selected(self) -> Snapshot {
        Snapshot { selection: Some((0, self.text.len() as int)), ..self }
    }

    /// The first line that a change of indentation touches.
    pub open spec fn first_row(self) -> int {
        line_of(
            self.text,
            if self.active() {
                (self.selection->0).0
            } else {
                self.cursor
            },
        )
    }

    /// The last line that a change of indentation touches.
    pub open spec fn last_row(self) -> int {
        line_of(
            self.text,
            if self.active() {
                (self.selection->0).1
            } else {
                self.cursor
            },
        )
    }

    /// One indent unit more on each touched line.
    pub open spec fn indented(self) -> Snapshot {
        let (first, last) = (self.first_row(), self.last_row());
        let total = 2 * (last - first + 1);
        let forward = self.cursor != (self.selection->0).0;
        let text = indented(self.text, first, last);
        if self.active() {
            let cursor = self.cursor + if forward {
                total
            } else {
                2
            };
            let anchor = self.anchor() + if forward {
                2
            } else {
                total
            };
            Snapshot { text, cursor, selection: between(anchor, cursor) }
        } else {
            Snapshot { text, cursor: self.cursor + 2, selection: self.selection }
        }
    }

    /// One indent unit less on each touched line that has one.
    pub open spec fn unindented(self) -> Snapshot {
        let (first, last) = (self.first_row(), self.last_row());
        let total = 2 * lines_unindented(self.text, first, last);
        let forward = self.cursor != (self.selection->0).0;
        let text = unindented(self.text, first, last);
        if self.active() {
            let cursor = less(
                self.cursor,
                if forward {
                    total
                } else {
                    2
                },
            );
            let anchor = less(
                self.anchor(),
                if forward {
                    2
                } else {
                    total
                },
            );
            Snapshot { text, cursor, selection: between(anchor, cursor) }
        } else {
            Snapshot { text, cursor: less(self.cursor, total), selection: self.selection }
        }
    }
}

impl Buffer {
    /// Cursor and selection lie within the text, in the history too, and
    /// each edit of the history starts from the text that the one before it
    /// led to.
    pub open spec fn valid(self) -> bool {
        &&& self.now.valid()
        &&& forall|i: int|
            0 <= i < self.past.len() ==> (#[trigger] self.past[i]).before.valid()
                && self.past[i].after.valid()
        &&& forall|i: int|
            0 <= i < self.future.len() ==> (#[trigger] self.future[i]).before.valid()
                && self.future[i].after.valid()
        &&& self.past.len() > 0 ==> self.past.last().after.text == self.now.text
        &&& self.future.len() > 0 ==> self.future.last().before.text == self.now.text
        &&& forall|i: int, j: int|
            0 <= i && j == i + 1 && j < self.past.len() ==> (#[trigger] self.past[i]).after.text
                == (#[trigger] self.past[j]).before.text
        &&& forall|i: int, j: int|
            0 <= i && j == i + 1 && j < self.future.len() ==> (#[trigger] self.future[j]).after.text
                == (#[trigger] self.future[i]).before.text
    }

    /// Cursor and selection as in `next`, the text and the history as they
    /// are.
    pub open spec fn moved(self, next: Snapshot) -> Buffer {
        Buffer { now: next, ..self }
    }

    /// An edit that leads to `next`, remembered in the history. What had been
    /// taken back can no longer be made again.
    pub open spec fn edited(self, next: Snapshot) -> Buffer {
        let kept = if self.past.len() == HISTORY_LIMIT {
            self.past.subrange(1, self.past.len() as int)
        } else {
            self.past
        };
        Buffer {
            now: next,
            past: kept.push(Revision { before: self.now, after: next }),
            future: Seq::empty(),
            folding: self.folding,
        }
    }

    /// The last edit taken back.
    pub open spec fn undone(self) -> Buffer {
        if self.past.len() == 0 {
            self
        } else {
            Buffer {
                now: self.past.last().before,
                past: self.past.drop_last(),
                future: self.future.push(self.past.last()),
                folding: self.folding,
            }
        }
    }

    /// The edit that was last taken back made again.
    pub open spec fn redone(self) -> Buffer {
        if self.future.len() == 0 {
            self
        } else {
            Buffer {
                now: self.future.last().after,
                past: self.past.push(self.future.last()),
                future: self.future.drop_last(),
                folding: self.folding,
            }
        }
    }

    /// What is selected deleted, or what stands before the cursor; nothing at
    /// the start of the text.
    pub open spec fn deleted(self) -> Buffer {
        if self.now.active() || self.now.cursor > 0 {
            self.edited(self.now.deleted())
        } else {
            self
        }
    }

    /// One indent unit less on each touched line that has one. The history
    /// remembers it where a line had one.
    pub open spec fn unindented(self) -> Buffer {
        let next = self.now.unindented();
        if lines_unindented(self.now.text, self.now.first_row(), self.now.last_row()) > 0 {
            self.edited(next)
        } else {
            self.moved(next)
        }
    }
}

/// A cursor placed within the text keeps everything within the text.
pub proof fn lemma_placed_valid(snapshot: Snapshot, at: int, shift: bool)
    requires
        snapshot.valid(),
        0 <= at <= snapshot.text.len(),
    ensures
        snapshot.placed(at, shift).valid(),
{
}

/// An edit remembered in the history keeps the buffer valid.
pub proof fn lemma_edited_valid(buffer: Buffer, next: Snapshot)
    requires
        buffer.valid(),
        next.valid(),
    ensures
        buffer.edited(next).valid(),
{
    let after = buffer.edited(next);
    let dropped: int = if buffer.past.len() == HISTORY_LIMIT {
        1
    } else {
        0
    };
    assert forall|i: int| 0 <= i < after.past.len() - 1 implies after.past[i] == buffer.past[i
        + dropped] by {}
}

/// Taking an edit back, or making it again, keeps the buffer valid.
pub proof fn lemma_history_valid(buffer: Buffer)
    requires
        buffer.valid(),
    ensures
        buffer.undone().valid(),
        buffer.redone().valid(),
{
    if buffer.past.len() > 0 {
        let last = buffer.past.len() - 1;
        let undone = buffer.undone();
        assert(buffer.past[last] == buffer.past.last());
        if last > 0 {
            assert(buffer.past[last - 1].after.text == buffer.past[last].before.text);
            assert(undone.past.last() == buffer.past[last - 1]);
        }
        if buffer.future.len() > 0 {
            assert(undone.future[buffer.future.len() - 1] == buffer.future.last());
        }
    }
    if buffer.future.len() > 0 {
        let last = buffer.future.len() - 1;
        let redone = buffer.redone();
        assert(buffer.future[last] == buffer.future.last());
        if last > 0 {
            assert(buffer.future[last].after.text == buffer.future[last - 1].before.text);
            assert(redone.future.last() == buffer.future[last - 1]);
        }
        if buffer.past.len() > 0 {
            assert(redone.past[buffer.past.len() - 1] == buffer.past.last());
        }
    }
}

/// Text put in, taken out or indented keeps everything within the text.
pub proof fn lemma_changes_valid(snapshot: Snapshot, text: Seq<char>)
    requires
        snapshot.valid(),
    ensures
        snapshot.inserted(text).valid(),
        snapshot.moved_left(true).valid(),
        snapshot.moved_left(false).valid(),
        snapshot.moved_right(true).valid(),
        snapshot.moved_right(false).valid(),
        snapshot.all_selected().valid(),
        snapshot.active() || snapshot.selection is None ==> snapshot.deleted().valid(),
        !snapshot.active() && snapshot.cursor > 0 ==> 0 <= snapshot.deletion_start()
            < snapshot.cursor,
{
    lemma_line_start(snapshot.text, snapshot.cursor);
}

/// A change of indentation keeps everything within the text.
pub proof fn lemma_indentation_valid(snapshot: Snapshot)
    requires
        snapshot.valid(),
        snapshot.active() || snapshot.selection is None,
    ensures
        snapshot.indented().valid(),
        snapshot.unindented().valid(),
        lines_unindented(snapshot.text, snapshot.first_row(), snapshot.last_row()) <= 0
            ==> snapshot.unindented().text == snapshot.text,
{
    let at = if snapshot.active() {
        (snapshot.selection->0).0
    } else {
        snapshot.cursor
    };
    let end = if snapshot.active() {
        (snapshot.selection->0).1
    } else {
        snapshot.cursor
    };
    let (first, last) = (snapshot.first_row(), snapshot.last_row());
    lemma_line_of_monotone(snapshot.text, at, end);
    lemma_line_of_monotone(snapshot.text, end, snapshot.text.len() as int);
    lemma_indented_len(snapshot.text, first, last);
    lemma_unindented_reaches(snapshot.text, at, last);
    lemma_nothing_unindented(snapshot.text, first, last);
}

/// `Editor::new` with the language `lua` and no theme gives an editor of the
/// text, with the cursor at its start, nothing selected, an empty history and
/// folding on. It never fails: a language without a grammar gets no parser.
#[verifier::external_body]
pub(crate) fn new_editor(text: &str) -> (editor: Editor)
    ensures
        editor_text(editor) == text@,
        editor_cursor(editor) == 0,
        editor_selection(editor) is None,
        editor_past(editor) == Seq::<Revision>::empty(),
        editor_future(editor) == Seq::<Revision>::empty(),
        editor_folding(editor),
{
    Editor::new("lua", text, vec![]).expect("an editor without a grammar is always made")
}

/// `Editor::set_code_folding_enabled` with `false` switches folding off.
#[verifier::external_body]
pub(crate) fn disable_folding(editor: &mut Editor)
    ensures
        buffer(*final(editor)) == (Buffer { folding: false, ..buffer(*old(editor)) }),
{
    editor.set_code_folding_enabled(false);
}

/// `Editor::set_word_highlight_enabled` with `false` changes only how the
/// editor is drawn.
#[verifier::external_body]
pub(crate) fn disable_word_highlight(editor: &mut Editor)
    ensures
        buffer(*final(editor)) == buffer(*old(editor)),
{
    editor.set_word_highlight_enabled(false);
}

/// `Editor::get_content` gives the whole text.
#[verifier::external_body]
pub(crate) fn content(editor: &Editor) -> (text: String)
    ensures
        text@ == editor_text(*editor),
{
    editor.get_content()
}

/// `Editor::get_cursor` gives the cursor.
#[verifier::external_body]
pub(crate) fn cursor(editor: &Editor) -> (at: usize)
    ensures
        at == editor_cursor(*editor),
{
    editor.get_cursor()
}

/// `Editor::set_cursor` moves the cursor, no further than to the end of the
/// text.
#[verifier::external_body]
pub(crate) fn set_cursor(editor: &mut Editor, at: usize)
    ensures
        buffer(*final(editor)) == buffer(*old(editor)).moved(
            Snapshot {
                cursor: if at <= editor_text(*old(editor)).len() {
                    at as int
                } else {
                    editor_text(*old(editor)).len() as int
                },
                ..buffer(*old(editor)).now
            },
        ),
{
    editor.set_cursor(at);
}

/// `Editor::get_selection` gives the selection, as its start and its end.
#[verifier::external_body]
pub(crate) fn selection(editor: &mut Editor) -> (selection: Option<(usize, usize)>)
    ensures
        *final(editor) == *old(editor),
        match selection {
            Some((start, end)) => editor_selection(*old(editor)) == Some((start as int, end as int)),
            None => editor_selection(*old(editor)) is None,
        },
{
    editor.get_selection().map(|selection| (selection.start, selection.end))
}

/// `Editor::get_selection_text` gives the selected text, if any is selected.
#[verifier::external_body]
pub(crate) fn selection_text(editor: &mut Editor) -> (text: Option<String>)
    requires
        buffer(*old(editor)).now.valid(),
    ensures
        *final(editor) == *old(editor),
        text is Some <==> buffer(*old(editor)).now.active(),
        text is Some ==> (text->0)@ == editor_text(*old(editor)).subrange(
            (editor_selection(*old(editor))->0).0,
            (editor_selection(*old(editor))->0).1,
        ),
{
    editor.get_selection_text()
}

/// `Editor::clear_selection` leaves nothing selected.
#[verifier::external_body]
pub(crate) fn clear_selection(editor: &mut Editor)
    ensures
        buffer(*final(editor)) == buffer(*old(editor)).moved(
            Snapshot { selection: None, ..buffer(*old(editor)).now },
        ),
{
    editor.clear_selection();
}

/// `Editor::extend_selection` selects what lies between the anchor and `at`;
/// the cursor stays.
#[verifier::external_body]
pub(crate) fn extend_selection(editor: &mut Editor, at: usize)
    ensures
        buffer(*final(editor)) == buffer(*old(editor)).moved(
            Snapshot {
                selection: between(buffer(*old(editor)).now.anchor(), at as int),
                ..buffer(*old(editor)).now
            },
        ),
{
    editor.extend_selection(at);
}

/// The action `InsertText` puts `text` in place of what is selected, or at
/// the cursor, and moves the cursor behind it. The history remembers it, even
/// where `text` is empty.
#[verifier::external_body]
pub(crate) fn insert(editor: &mut Editor, text: String)
    requires
        buffer(*old(editor)).now.valid(),
    ensures
        buffer(*final(editor)) == buffer(*old(editor)).edited(
            buffer(*old(editor)).now.inserted(text@),
        ),
{
    editor.apply(InsertText { text });
}

/// The action `Delete` removes what is selected, or else what stands before
/// the cursor: the indentation, where nothing else does, or one grapheme.
#[verifier::external_body]
pub(crate) fn delete(editor: &mut Editor)
    requires
        buffer(*old(editor)).now.valid(),
    ensures
        buffer(*final(editor)) == buffer(*old(editor)).deleted(),
{
    editor.apply(Delete {});
}

/// The action `MoveLeft` moves the cursor one grapheme to the left, or
/// without `shift` to the start of what is selected.
#[verifier::external_body]
pub(crate) fn move_left(editor: &mut Editor, shift: bool)
    requires
        buffer(*old(editor)).now.valid(),
    ensures
        buffer(*final(editor)) == buffer(*old(editor)).moved(
            buffer(*old(editor)).now.moved_left(shift),
        ),
{
    editor.apply(MoveLeft { shift });
}

/// The action `MoveRight` moves the cursor one grapheme to the right, or
/// without `shift` to the end of what is selected.
#[verifier::external_body]
pub(crate) fn move_right(editor: &mut Editor, shift: bool)
    requires
        buffer(*old(editor)).now.valid(),
    ensures
        buffer(*final(editor)) == buffer(*old(editor)).moved(
            buffer(*old(editor)).now.moved_right(shift),
        ),
{
    editor.apply(MoveRight { shift });
}

/// The action `SelectAll` selects the whole text; the cursor stays.
#[verifier::external_body]
pub(crate) fn select_all(editor: &mut Editor)
    ensures
        buffer(*final(editor)) == buffer(*old(editor)).moved(
            buffer(*old(editor)).now.all_selected(),
        ),
{
    editor.apply(SelectAll {});
}

/// The action `Undo` takes the last edit of the history back: text, cursor
/// and selection are as they were before it.
#[verifier::external_body]
pub(crate) fn undo(editor: &mut Editor)
    requires
        buffer(*old(editor)).valid(),
    ensures
        buffer(*final(editor)) == buffer(*old(editor)).undone(),
{
    editor.apply(Undo {});
}

/// The action `Redo` makes the edit again that was last taken back: text,
/// cursor and selection are as they were after it.
#[verifier::external_body]
pub(crate) fn redo(editor: &mut Editor)
    requires
        buffer(*old(editor)).valid(),
    ensures
        buffer(*final(editor)) == buffer(*old(editor)).redone(),
{
    editor.apply(Redo {});
}

/// The action `Indent` puts two spaces before each selected line, or before
/// the line of the cursor, and moves cursor and anchor along.
#[verifier::external_body]
pub(crate) fn indent(editor: &mut Editor)
    requires
        buffer(*old(editor)).now.valid(),
    ensures
        buffer(*final(editor)) == buffer(*old(editor)).edited(buffer(*old(editor)).now.indented()),
{
    editor.apply(Indent {});
}

/// The action `UnIndent` takes two spaces off each selected line that starts
/// with them, or off the line of the cursor, and moves cursor and anchor
/// along.
#[verifier::external_body]
pub(crate) fn unindent(editor: &mut Editor)
    requires
        buffer(*old(editor)).now.valid(),
    ensures
        buffer(*final(editor)) == buffer(*old(editor)).unindented(),
{
    editor.apply(UnIndent {});
}

/// `Code::len_chars` gives the length of the text.
#[verifier::external_body]
pub(crate) fn text_len(editor: &Editor) -> (len: usize)
    ensures
        len == editor_text(*editor).len(),
{
    editor.code_ref().len_chars()
}

/// `Code::len_lines` gives the number of lines.
#[verifier::external_body]
pub(crate) fn lines(editor: &Editor) -> (count: usize)
    ensures
        count == line_count(editor_text(*editor)),
{
    editor.code_ref().len_lines()
}

/// `Code::char_to_line` gives the line of a position.
#[verifier::external_body]
pub(crate) fn line_at(editor: &Editor, at: usize) -> (line: usize)
    requires
        at <= editor_text(*editor).len(),
    ensures
        line == line_of(editor_text(*editor), at as int),
{
    editor.code_ref().char_to_line(at)
}

/// `Code::line_to_char` gives the start of a line.
#[verifier::external_body]
pub(crate) fn start_of_line(editor: &Editor, line: usize) -> (at: usize)
    requires
        line < line_count(editor_text(*editor)),
    ensures
        at == line_start(editor_text(*editor), line as int),
{
    editor.code_ref().line_to_char(line)
}

/// `Code::line_len` gives the length of a line, without the character that
/// ends it.
#[verifier::external_body]
pub(crate) fn length_of_line(editor: &Editor, line: usize) -> (len: usize)
    requires
        line < line_count(editor_text(*editor)),
    ensures
        len == line_len(editor_text(*editor), line as int),
{
    editor.code_ref().line_len(line)
}

/// `Code::point` gives the line and the column of a position.
#[verifier::external_body]
pub(crate) fn point(editor: &Editor, at: usize) -> (point: (usize, usize))
    requires
        at <= editor_text(*editor).len(),
    ensures
        point.0 == line_of(editor_text(*editor), at as int),
        point.1 == column_of(editor_text(*editor), at as int),
{
    editor.code_ref().point(at)
}

/// `Code::slice` gives the text between two positions.
#[verifier::external_body]
pub(crate) fn slice(editor: &Editor, from: usize, to: usize) -> (text: String)
    requires
        from <= to <= editor_text(*editor).len(),
    ensures
        text@ == editor_text(*editor).subrange(from as int, to as int),
{
    editor.code_ref().slice(from, to)
}

/// `Code::next_grapheme_boundary` gives the next boundary, which lies further
/// on in the text, or the end of the text from there on.
#[verifier::external_body]
pub(crate) fn next_grapheme_boundary(editor: &Editor, at: usize) -> (next: usize)
    ensures
        next == next_boundary(editor_text(*editor), at as int),
        at < editor_text(*editor).len() ==> at < next <= editor_text(*editor).len(),
        at >= editor_text(*editor).len() ==> next == editor_text(*editor).len(),
{
    editor.code_ref().next_grapheme_boundary(at)
}

/// `Code::prev_grapheme_boundary` gives the boundary before a position, which
/// lies further back in the text, or the start of the text.
#[verifier::external_body]
pub(crate) fn prev_grapheme_boundary(editor: &Editor, at: usize) -> (previous: usize)
    requires
        at <= editor_text(*editor).len(),
    ensures
        previous == previous_boundary(editor_text(*editor), at as int),
        at > 0 ==> previous < at,
        at == 0 ==> previous == 0,
{
    editor.code_ref().prev_grapheme_boundary(at)
}

/// `Editor::set_offset_x` sets the first column that is drawn.
#[verifier::external_body]
pub(crate) fn set_offset_x(editor: &mut Editor, offset: usize)
    ensures
        buffer(*final(editor)) == buffer(*old(editor)),
        editor_offset_x(*final(editor)) == offset,
        editor_offset_y(*final(editor)) == editor_offset_y(*old(editor)),
{
    editor.set_offset_x(offset);
}

/// `Editor::set_offset_y` sets the first line that is drawn, no further than
/// to the last line.
#[verifier::external_body]
pub(crate) fn set_offset_y(editor: &mut Editor, offset: usize)
    ensures
        buffer(*final(editor)) == buffer(*old(editor)),
        editor_offset_x(*final(editor)) == editor_offset_x(*old(editor)),
        editor_offset_y(*final(editor)) == if offset < line_count(editor_text(*old(editor))) {
            offset as int
        } else {
            line_count(editor_text(*old(editor))) - 1
        },
{
    editor.set_offset_y(offset);
}

/// How many columns an area of the given width leaves for the text beside the
/// line numbers, which take at least five digits and two columns of padding.
pub open spec fn text_columns(text: Seq<char>, width: int) -> int {
    let digits = decimal(line_count(text)).len();
    less(
        width,
        2 + if digits < 5 {
            5
        } else {
            digits as int
        },
    )
}

/// The first column to draw so that column `col` is visible: none to the left
/// is left out while the column fits.
pub open spec fn scrolled_column(col: int, columns: int) -> int {
    if col < columns {
        0
    } else {
        less(col, less(columns, 10))
    }
}

/// The first line to draw so that line `line` is visible: none above is left
/// out while the line fits.
pub open spec fn scrolled_line(line: int, height: int) -> int {
    if line < height {
        0
    } else {
        less(line, less(height, 1))
    }
}

/// `Editor::focus` moves the offsets as far as the cursor needs it to be
/// visible in an area of the given size. Only the area's size is used. The
/// contract speaks of offsets that start from zero.
#[verifier::external_body]
pub(crate) fn focus(editor: &mut Editor, width: u16, height: u16)
    requires
        buffer(*old(editor)).now.valid(),
        !editor_folding(*old(editor)),
        editor_offset_x(*old(editor)) == 0,
        editor_offset_y(*old(editor)) == 0,
    ensures
        buffer(*final(editor)) == buffer(*old(editor)),
        editor_offset_x(*final(editor)) == scrolled_column(
            column_of(editor_text(*old(editor)), editor_cursor(*old(editor))),
            text_columns(editor_text(*old(editor)), width as int),
        ),
        editor_offset_y(*final(editor)) == scrolled_line(
            line_of(editor_text(*old(editor)), editor_cursor(*old(editor))),
            height as int,
        ),
{
    editor.focus(&Rect::new(0, 0, width, height));
}

} // verus!
