//! The authoritative Controller working document.
//!
//! Wraps the embedded editor widget behind a narrow seam: callers see
//! `EditOp`, `String` and `(line, column)` pairs. This is the only working
//! buffer of the Controller view; no mirror of the text exists beside it.
//!
//! Vertical movement is implemented here rather than by the widget's own
//! actions, because those take the target column from the line that the
//! cursor is on: moving through a short line and back would forget how far
//! right the cursor used to be.

use ratatui_code_editor::editor::Editor;
use vstd::prelude::*;

use super::buffer;
use super::buffer::{
    buffer, editor_cursor, editor_offset_x, editor_offset_y, editor_text,
    lemma_changes_valid, lemma_edited_valid, lemma_history_valid, lemma_indentation_valid,
    lemma_placed_valid, less, scrolled_column, scrolled_line, step_left, step_right, text_columns,
    Buffer, Revision, Snapshot,
};
use super::editor::EditOp;
use super::lines::{
    column_of, ends_line, indented, lemma_column_in_line, lemma_indented_len, lemma_line_extent,
    lemma_line_of_monotone, lemma_line_start, lemma_unindented_reaches, line_count, line_len,
    line_of, line_start, lines_unindented, unindented,
};

verus! {

/// How many lines a `PageUp` or `PageDown` moves the cursor by: a fixed jump,
/// since the document knows no viewport height.
pub const PAGE_LINES: usize = 10;

/// Whether `c` has the Unicode property White_Space.
pub open spec fn is_whitespace(c: char) -> bool {
    let code = c as int;
    ||| 0x9 <= code <= 0xD
    ||| code == 0x20
    ||| code == 0x85
    ||| code == 0xA0
    ||| code == 0x1680
    ||| 0x2000 <= code <= 0x200A
    ||| code == 0x2028
    ||| code == 0x2029
    ||| code == 0x202F
    ||| code == 0x205F
    ||| code == 0x3000
}

/// `char::is_whitespace` tells whether a character has the Unicode property
/// White_Space.
pub assume_specification[ char::is_whitespace ](c: char) -> (whitespace: bool)
    ensures
        whitespace == is_whitespace(c),
;

/// Whether Unicode counts `c` as a letter or a number.
pub uninterp spec fn is_alphanumeric(c: char) -> bool;

/// `char::is_alphanumeric` tells whether a character is a letter or a number.
pub assume_specification[ char::is_alphanumeric ](c: char) -> (alphanumeric: bool)
    ensures
        alphanumeric == is_alphanumeric(c),
;

/// The kinds of characters that word movement tells apart.
#[derive(Debug, Clone, Copy, PartialEq, Eq, Structural)]
pub enum CharKind {
    Whitespace,
    Word,
    Punctuation,
}

/// Which way a movement goes.
#[derive(Debug, Clone, Copy, PartialEq, Eq, Structural)]
pub enum Direction {
    Backward,
    Forward,
}

/// The kind of `c`: words are made of letters, numbers and underscores.
pub open spec fn kind_of(c: char) -> CharKind {
    if is_whitespace(c) {
        CharKind::Whitespace
    } else if is_alphanumeric(c) || c == '_' {
        CharKind::Word
    } else {
        CharKind::Punctuation
    }
}

/// From `at` to the left, over all graphemes that start with a character of
/// the kind `kind`.
pub open spec fn skip_left(text: Seq<char>, at: int, kind: CharKind) -> int
    decreases at,
{
    if at > 0 && kind_of(text[step_left(text, at)]) == kind {
        skip_left(text, step_left(text, at), kind)
    } else {
        at
    }
}

/// From `at` to the right, over all graphemes that start with a character of
/// the kind `kind`.
pub open spec fn skip_right(text: Seq<char>, at: int, kind: CharKind) -> int
    decreases text.len() - at,
{
    if 0 <= at < text.len() && kind_of(text[at]) == kind {
        skip_right(text, step_right(text, at), kind)
    } else {
        at
    }
}

/// The start of the word before `at`.
pub open spec fn word_left_of(text: Seq<char>, at: int) -> int {
    let end = skip_left(text, at, CharKind::Whitespace);
    if end <= 0 {
        0
    } else {
        skip_left(text, end, kind_of(text[step_left(text, end)]))
    }
}

/// The end of the word after `at`.
pub open spec fn word_right_of(text: Seq<char>, at: int) -> int {
    let start = skip_right(text, at, CharKind::Whitespace);
    if start >= text.len() {
        text.len() as int
    } else {
        skip_right(text, start, kind_of(text[start]))
    }
}

/// The last grapheme boundary, counted from `from`, that is not past `limit`.
pub open spec fn snapped(text: Seq<char>, from: int, limit: int) -> int
    decreases text.len() - from,
{
    let next = step_right(text, from);
    if next > limit || next <= from {
        from
    } else {
        snapped(text, next, limit)
    }
}

/// The position in line `line` that is as close as possible to column `col`,
/// on a grapheme boundary at or before it.
pub open spec fn reach(text: Seq<char>, line: int, col: int) -> int {
    let start = line_start(text, line);
    let len = line_len(text, line);
    snapped(
        text,
        start,
        start + if col <= len {
            col
        } else {
            len
        },
    )
}

/// What a document holds: the buffer of its editor, and the column that
/// vertical movement tries to reach.
#[verifier::ext_equal]
pub struct DocumentModel {
    pub buffer: Buffer,
    pub preferred_col: int,
}

impl DocumentModel {
    /// Everything that a document holds is consistent: see `Buffer::valid`.
    pub closed spec fn wf(self) -> bool {
        self.buffer.valid() && !self.buffer.folding && 0 <= self.preferred_col
    }

    /// The working source.
    pub open spec fn source(self) -> Seq<char> {
        self.buffer.now.text
    }

    /// The cursor.
    pub open spec fn cursor(self) -> int {
        self.buffer.now.cursor
    }

    /// The line of the cursor.
    pub open spec fn line(self) -> int {
        line_of(self.source(), self.cursor())
    }

    /// The column of the cursor.
    pub open spec fn column(self) -> int {
        column_of(self.source(), self.cursor())
    }

    /// A buffer whose present column is the one to be remembered.
    pub open spec fn of(buffer: Buffer) -> DocumentModel {
        DocumentModel { buffer, preferred_col: column_of(buffer.now.text, buffer.now.cursor) }
    }

    /// A fresh document: the cursor at the end of `source`, nothing selected
    /// and nothing to take back.
    pub open spec fn fresh(source: Seq<char>) -> DocumentModel {
        DocumentModel::of(
            Buffer {
                now: Snapshot { text: source, cursor: source.len() as int, selection: None },
                past: Seq::<Revision>::empty(),
                future: Seq::<Revision>::empty(),
                folding: false,
            },
        )
    }

    /// Whether `editor` shows this document in an area of the given size. Its
    /// offsets follow from the cursor and the area alone.
    pub open spec fn drawn_by(self, editor: Editor, width: int, height: int) -> bool {
        &&& buffer(editor) == self.buffer
        &&& editor_offset_x(editor) == scrolled_column(
            self.column(),
            text_columns(self.source(), width),
        )
        &&& editor_offset_y(editor) == scrolled_line(self.line(), height)
    }

    /// The buffer, without a selection that selects nothing.
    pub open spec fn settled(self) -> Buffer {
        if self.buffer.now.active() {
            self.buffer
        } else {
            self.buffer.moved(Snapshot { selection: None, ..self.buffer.now })
        }
    }

    /// The line above or below the cursor's, if there is one.
    pub open spec fn next_line(self, direction: Direction) -> Option<int> {
        match direction {
            Direction::Backward => if self.line() == 0 {
                None
            } else {
                Some(self.line() - 1)
            },
            Direction::Forward => if self.line() + 1 >= line_count(self.source()) {
                None
            } else {
                Some(self.line() + 1)
            },
        }
    }

    /// The line one page above or below the cursor's, within the text.
    pub open spec fn page_line(self, direction: Direction) -> int {
        match direction {
            Direction::Backward => less(self.line(), PAGE_LINES as int),
            Direction::Forward => if self.line() + PAGE_LINES < line_count(self.source()) {
                self.line() + PAGE_LINES
            } else {
                line_count(self.source()) - 1
            },
        }
    }

    /// The cursor in line `line`, as close as possible to the remembered
    /// column, which stays remembered.
    pub open spec fn in_line(self, line: int, shift: bool) -> DocumentModel {
        let settled = self.settled();
        DocumentModel {
            buffer: settled.moved(
                settled.now.placed(reach(self.source(), line, self.preferred_col), shift),
            ),
            preferred_col: self.preferred_col,
        }
    }

    /// The cursor one line up or down. Where there is no such line, only an
    /// unshifted move does something: it clears the selection.
    pub open spec fn vertical(self, direction: Direction, shift: bool) -> DocumentModel {
        match self.next_line(direction) {
            Some(line) => self.in_line(line, shift),
            None => DocumentModel {
                buffer: if shift {
                    self.settled()
                } else {
                    self.buffer.moved(Snapshot { selection: None, ..self.buffer.now })
                },
                preferred_col: self.preferred_col,
            },
        }
    }

    /// The document after `op`.
    #[verifier::opaque]
    pub open spec fn edit(self, op: EditOp) -> DocumentModel {
        let settled = self.settled();
        let text = self.source();
        let at = self.cursor();
        match op {
            EditOp::Insert(c) => DocumentModel::of(settled.edited(settled.now.inserted(seq![c]))),
            EditOp::Newline => DocumentModel::of(settled.edited(settled.now.inserted(seq!['\n']))),
            EditOp::Backspace => DocumentModel::of(settled.deleted()),
            EditOp::DeleteForward => if settled.now.active() {
                DocumentModel::of(settled.deleted())
            } else if at >= text.len() {
                DocumentModel::of(settled)
            } else {
                DocumentModel::of(
                    settled.moved(
                        Snapshot { cursor: step_right(text, at), ..settled.now },
                    ).deleted(),
                )
            },
            EditOp::MoveLeft(shift) => DocumentModel::of(
                settled.moved(settled.now.moved_left(shift)),
            ),
            EditOp::MoveRight(shift) => DocumentModel::of(
                settled.moved(settled.now.moved_right(shift)),
            ),
            EditOp::MoveUp(shift) => self.vertical(Direction::Backward, shift),
            EditOp::MoveDown(shift) => self.vertical(Direction::Forward, shift),
            EditOp::MoveLineStart(shift) => DocumentModel::of(
                settled.moved(settled.now.placed(line_start(text, self.line()), shift)),
            ),
            EditOp::MoveLineEnd(shift) => DocumentModel::of(
                settled.moved(
                    settled.now.placed(
                        line_start(text, self.line()) + line_len(text, self.line()),
                        shift,
                    ),
                ),
            ),
            EditOp::PageUp(shift) => self.in_line(self.page_line(Direction::Backward), shift),
            EditOp::PageDown(shift) => self.in_line(self.page_line(Direction::Forward), shift),
            EditOp::MoveWordLeft(shift) => DocumentModel::of(
                settled.moved(settled.now.placed(word_left_of(text, at), shift)),
            ),
            EditOp::MoveWordRight(shift) => DocumentModel::of(
                settled.moved(settled.now.placed(word_right_of(text, at), shift)),
            ),
            EditOp::SelectAll => DocumentModel::of(settled.moved(settled.now.all_selected())),
            EditOp::Undo => DocumentModel::of(settled.undone()),
            EditOp::Redo => DocumentModel::of(settled.redone()),
            EditOp::Indent => DocumentModel::of(settled.edited(settled.now.indented())),
            EditOp::UnIndent => DocumentModel::of(settled.unindented()),
        }
    }

    /// The document after `text` was pasted: nothing happens where `text` is
    /// empty.
    #[verifier::opaque]
    pub open spec fn paste(self, text: Seq<char>) -> DocumentModel {
        if text.len() == 0 {
            self
        } else {
            DocumentModel::of(self.settled().edited(self.settled().now.inserted(text)))
        }
    }
}

/// The player's current Lua source and cursor for a working set.
pub struct ControllerDocument {
    editor: Editor,
    /// The column that the last vertical movement tried to reach, so that
    /// moving through a short line and back does not forget how far right the
    /// cursor used to be.
    preferred_col: usize,
}

impl ControllerDocument {
    pub closed spec fn view(&self) -> DocumentModel {
        DocumentModel { buffer: buffer(self.editor), preferred_col: self.preferred_col as int }
    }

    /// Everything that the document holds is consistent.
    pub open spec fn wf(&self) -> bool {
        self@.wf()
    }

    /// A fresh document of `source`, with the cursor at its end.
    pub fn new(source: &str) -> (document: Self)
        ensures
            document.wf(),
            document@ == DocumentModel::fresh(source@),
    {
        let mut editor = buffer::new_editor(source);
        buffer::set_cursor(&mut editor, source.unicode_len());
        // Neither feature is part of the source pane, and both are on by
        // default.
        buffer::disable_folding(&mut editor);
        buffer::disable_word_highlight(&mut editor);
        let mut document = ControllerDocument { editor, preferred_col: 0 };
        document.sync_preferred_col();
        document
    }

    /// The exact current working source, including any trailing newline.
    pub fn source(&self) -> (source: String)
        ensures
            source@ == self@.source(),
    {
        buffer::content(&self.editor)
    }

    /// The line and the column of the cursor, both counted from zero and in
    /// `char`s.
    pub fn cursor_line_col(&self) -> (point: (usize, usize))
        requires
            self.wf(),
        ensures
            point.0 == self@.line(),
            point.1 == self@.column(),
    {
        buffer::point(&self.editor, buffer::cursor(&self.editor))
    }

    /// Moves the widget's offsets so that the cursor is visible in an area of
    /// the given size, and gives the widget out to be drawn.
    ///
    /// The offsets are computed from the cursor and the area alone: they are
    /// reset first, so that an area that has grown shows as much as it can.
    pub fn sync_for_render(&mut self, width: u16, height: u16) -> (editor: &Editor)
        requires
            old(self).wf(),
        ensures
            final(self)@ == old(self)@,
            final(self).wf(),
            old(self)@.drawn_by(*editor, width as int, height as int),
    {
        buffer::set_offset_x(&mut self.editor, 0);
        proof {
            lemma_column_in_line(editor_text(self.editor), editor_cursor(self.editor));
        }
        buffer::set_offset_y(&mut self.editor, 0);
        buffer::focus(&mut self.editor, width, height);
        &self.editor
    }

    /// Applies `op`, and tells whether it changed the source, as opposed to
    /// moving the cursor or the selection, or doing nothing at all. Callers
    /// use this to decide whether an earlier validation is still accurate.
    pub fn apply(&mut self, op: EditOp) -> (changed: bool)
        requires
            old(self).wf(),
        ensures
            final(self).wf(),
            final(self)@ == old(self)@.edit(op),
            changed <==> final(self)@.source() != old(self)@.source(),
    {
        reveal(DocumentModel::edit);
        self.settle();
        proof {
            lemma_changes_valid(self@.buffer.now, seq!['\n']);
            lemma_history_valid(self@.buffer);
            lemma_indentation_valid(self@.buffer.now);
        }
        let changed = match op {
            EditOp::Insert(c) => {
                let mut text = String::new();
                text.push(c);
                self.replace_selection(text)
            },
            // A bare newline: no indentation is carried over.
            EditOp::Newline => {
                let mut text = String::new();
                text.push('\n');
                self.replace_selection(text)
            },
            EditOp::Backspace => {
                if self.has_active_selection() || buffer::cursor(&self.editor) != 0 {
                    self.delete();
                    true
                } else {
                    false
                }
            },
            EditOp::DeleteForward => {
                if self.has_active_selection() {
                    self.delete();
                    true
                } else {
                    let cursor = buffer::cursor(&self.editor);
                    if cursor == buffer::text_len(&self.editor) {
                        false
                    } else {
                        let next = buffer::next_grapheme_boundary(&self.editor, cursor);
                        buffer::set_cursor(&mut self.editor, next);
                        self.delete();
                        true
                    }
                }
            },
            EditOp::MoveLeft(shift) => {
                buffer::move_left(&mut self.editor, shift);
                false
            },
            EditOp::MoveRight(shift) => {
                buffer::move_right(&mut self.editor, shift);
                false
            },
            EditOp::MoveUp(shift) => {
                self.move_vertical(Direction::Backward, shift);
                return false;
            },
            EditOp::MoveDown(shift) => {
                self.move_vertical(Direction::Forward, shift);
                return false;
            },
            EditOp::MoveLineStart(shift) => {
                self.move_line_start(shift);
                false
            },
            EditOp::MoveLineEnd(shift) => {
                self.move_line_end(shift);
                false
            },
            EditOp::PageUp(shift) => {
                self.move_page(Direction::Backward, shift);
                return false;
            },
            EditOp::PageDown(shift) => {
                self.move_page(Direction::Forward, shift);
                return false;
            },
            EditOp::MoveWordLeft(shift) => {
                self.move_word(Direction::Backward, shift);
                false
            },
            EditOp::MoveWordRight(shift) => {
                self.move_word(Direction::Forward, shift);
                false
            },
            EditOp::SelectAll => {
                buffer::select_all(&mut self.editor);
                false
            },
            EditOp::Undo => {
                let before = self.source();
                buffer::undo(&mut self.editor);
                !(self.source() == before)
            },
            EditOp::Redo => {
                let before = self.source();
                buffer::redo(&mut self.editor);
                !(self.source() == before)
            },
            EditOp::Indent => {
                let before = self.source();
                proof {
                    lemma_edited_valid(self@.buffer, self@.buffer.now.indented());
                }
                buffer::indent(&mut self.editor);
                !(self.source() == before)
            },
            EditOp::UnIndent => {
                let before = self.source();
                proof {
                    lemma_edited_valid(self@.buffer, self@.buffer.now.unindented());
                }
                buffer::unindent(&mut self.editor);
                !(self.source() == before)
            },
        };
        self.sync_preferred_col();
        changed
    }

    /// The selected text, or `None` if nothing is selected.
    pub fn selected_text(&mut self) -> (text: Option<String>)
        requires
            old(self).wf(),
        ensures
            final(self).wf(),
            final(self)@ == old(self)@,
            text is Some <==> old(self)@.buffer.now.active(),
            text is Some ==> (text->0)@ == old(self)@.source().subrange(
                (old(self)@.buffer.now.selection->0).0,
                (old(self)@.buffer.now.selection->0).1,
            ),
    {
        buffer::selection_text(&mut self.editor)
    }

    /// Inserts `text` verbatim at the cursor as one operation, as pasted
    /// content is, and tells whether the source changed: it does not for an
    /// empty `text`, or where identical text is replaced.
    pub fn insert_text(&mut self, text: &str) -> (changed: bool)
        requires
            old(self).wf(),
        ensures
            final(self).wf(),
            final(self)@ == old(self)@.paste(text@),
            changed <==> final(self)@.source() != old(self)@.source(),
    {
        reveal(DocumentModel::paste);
        if text.unicode_len() == 0 {
            return false;
        }
        self.settle();
        let changed = self.replace_selection(text.to_owned());
        self.sync_preferred_col();
        changed
    }

    /// Replaces the working source, and forgets cursor, selection and
    /// history.
    pub fn reset(&mut self, source: &str)
        ensures
            final(self).wf(),
            final(self)@ == DocumentModel::fresh(source@),
    {
        *self = ControllerDocument::new(source);
    }

    /// Drops a selection that selects nothing, so that the next selection is
    /// anchored at the cursor.
    fn settle(&mut self)
        requires
            old(self).wf(),
        ensures
            final(self).wf(),
            final(self)@.buffer == old(self)@.settled(),
            final(self)@.preferred_col == old(self)@.preferred_col,
    {
        if !self.has_active_selection() {
            buffer::clear_selection(&mut self.editor);
        }
    }

    /// Whether something is selected.
    fn has_active_selection(&mut self) -> (active: bool)
        ensures
            *final(self) == *old(self),
            active == old(self)@.buffer.now.active(),
    {
        match buffer::selection(&mut self.editor) {
            Some((start, end)) => start != end,
            None => false,
        }
    }

    /// Puts `text` in place of what is selected, and tells whether the source
    /// changed.
    fn replace_selection(&mut self, text: String) -> (changed: bool)
        requires
            old(self).wf(),
        ensures
            final(self).wf(),
            final(self)@.buffer == old(self)@.buffer.edited(
                old(self)@.buffer.now.inserted(text@),
            ),
            final(self)@.preferred_col == old(self)@.preferred_col,
            changed <==> final(self)@.source() != old(self)@.source(),
    {
        let before = self.source();
        proof {
            lemma_changes_valid(self@.buffer.now, text@);
            lemma_edited_valid(self@.buffer, self@.buffer.now.inserted(text@));
        }
        buffer::insert(&mut self.editor, text);
        !(self.source() == before)
    }

    /// Deletes what is selected, or what stands before the cursor.
    fn delete(&mut self)
        requires
            old(self).wf(),
            old(self)@.buffer.now.active() || old(self)@.cursor() > 0,
            old(self)@.buffer.now.active() || old(self)@.buffer.now.selection is None,
        ensures
            final(self).wf(),
            final(self)@.buffer == old(self)@.buffer.deleted(),
            final(self)@.preferred_col == old(self)@.preferred_col,
            final(self)@.source().len() < old(self)@.source().len(),
    {
        proof {
            lemma_changes_valid(self@.buffer.now, Seq::empty());
            lemma_edited_valid(self@.buffer, self@.buffer.now.deleted());
        }
        buffer::delete(&mut self.editor);
    }

    fn move_line_start(&mut self, shift: bool)
        requires
            old(self).wf(),
        ensures
            final(self).wf(),
            final(self)@.buffer == old(self)@.buffer.moved(
                old(self)@.buffer.now.placed(
                    line_start(old(self)@.source(), old(self)@.line()),
                    shift,
                ),
            ),
            final(self)@.preferred_col == old(self)@.preferred_col,
    {
        proof {
            lemma_column_in_line(self@.source(), self@.cursor());
        }
        let line = buffer::line_at(&self.editor, buffer::cursor(&self.editor));
        let start = buffer::start_of_line(&self.editor, line);
        self.set_cursor_with_selection(start, shift);
    }

    fn move_line_end(&mut self, shift: bool)
        requires
            old(self).wf(),
        ensures
            final(self).wf(),
            final(self)@.buffer == old(self)@.buffer.moved(
                old(self)@.buffer.now.placed(
                    line_start(old(self)@.source(), old(self)@.line()) + line_len(
                        old(self)@.source(),
                        old(self)@.line(),
                    ),
                    shift,
                ),
            ),
            final(self)@.preferred_col == old(self)@.preferred_col,
    {
        proof {
            lemma_column_in_line(self@.source(), self@.cursor());
            lemma_line_extent(self@.source(), self@.line());
        }
        let line = buffer::line_at(&self.editor, buffer::cursor(&self.editor));
        // The length fits in a `usize`, and so do the offsets below.
        let _len = buffer::text_len(&self.editor);
        let end = buffer::start_of_line(&self.editor, line) + buffer::length_of_line(
            &self.editor,
            line,
        );
        self.set_cursor_with_selection(end, shift);
    }

    /// Moves the cursor one line up or down, as close as possible to the
    /// remembered column, which stays as it is.
    ///
    /// At the first and the last line there is no line to move to, but an
    /// unshifted move still clears the selection, as every other unshifted
    /// movement does.
    fn move_vertical(&mut self, direction: Direction, shift: bool)
        requires
            old(self).wf(),
            old(self)@.buffer == old(self)@.settled(),
        ensures
            final(self).wf(),
            final(self)@ == old(self)@.vertical(direction, shift),
    {
        proof {
            lemma_column_in_line(self@.source(), self@.cursor());
        }
        let line = buffer::line_at(&self.editor, buffer::cursor(&self.editor));
        let last_line = buffer::lines(&self.editor) - 1;
        let target_line: Option<usize> = match direction {
            Direction::Backward => if line == 0 {
                None
            } else {
                Some(line - 1)
            },
            Direction::Forward => if line >= last_line {
                None
            } else {
                Some(line + 1)
            },
        };
        match target_line {
            Some(target_line) => self.move_to(target_line, shift),
            None => if !shift {
                buffer::clear_selection(&mut self.editor);
            },
        }
    }

    fn move_page(&mut self, direction: Direction, shift: bool)
        requires
            old(self).wf(),
            old(self)@.buffer == old(self)@.settled(),
        ensures
            final(self).wf(),
            final(self)@ == old(self)@.in_line(old(self)@.page_line(direction), shift),
    {
        proof {
            lemma_column_in_line(self@.source(), self@.cursor());
        }
        let line = buffer::line_at(&self.editor, buffer::cursor(&self.editor));
        let last_line = buffer::lines(&self.editor) - 1;
        let target_line: usize = match direction {
            Direction::Backward => if line < PAGE_LINES {
                0
            } else {
                line - PAGE_LINES
            },
            Direction::Forward => if last_line - line < PAGE_LINES {
                last_line
            } else {
                line + PAGE_LINES
            },
        };
        self.move_to(target_line, shift);
    }

    /// Moves the cursor to the remembered column of a line, no further than
    /// to its end, and then back to a grapheme boundary: a column measured in
    /// another line can fall inside a grapheme of several characters.
    fn move_to(&mut self, target_line: usize, shift: bool)
        requires
            old(self).wf(),
            old(self)@.buffer == old(self)@.settled(),
            target_line < line_count(old(self)@.source()),
        ensures
            final(self).wf(),
            final(self)@ == old(self)@.in_line(target_line as int, shift),
    {
        let ghost text = self@.source();
        proof {
            lemma_line_extent(text, target_line as int);
        }
        // The length fits in a `usize`, and so do the offsets below.
        let _len = buffer::text_len(&self.editor);
        let target_line_start = buffer::start_of_line(&self.editor, target_line);
        let target_line_len = buffer::length_of_line(&self.editor, target_line);
        let clamped_col = if self.preferred_col <= target_line_len {
            self.preferred_col
        } else {
            target_line_len
        };
        let raw_offset = target_line_start + clamped_col;

        let mut boundary = target_line_start;
        let mut next = buffer::next_grapheme_boundary(&self.editor, boundary);
        while next <= raw_offset && next != boundary
            invariant
                text == editor_text(self.editor),
                boundary <= text.len(),
                raw_offset <= text.len(),
                next == step_right(text, boundary as int),
                snapped(text, boundary as int, raw_offset as int) == snapped(
                    text,
                    target_line_start as int,
                    raw_offset as int,
                ),
            decreases text.len() - boundary,
        {
            boundary = next;
            next = buffer::next_grapheme_boundary(&self.editor, boundary);
        }
        self.set_cursor_with_selection(boundary, shift);
    }

    /// Moves the cursor to the start of the previous word, or to the end of
    /// the next one.
    ///
    /// White space next to the cursor is skipped, and then the run of
    /// characters of one kind that follows: word characters and punctuation
    /// are each their own kind, so that `foo.bar` stops at the dot as well as
    /// at each name. A grapheme of several characters is crossed as one.
    fn move_word(&mut self, direction: Direction, shift: bool)
        requires
            old(self).wf(),
        ensures
            final(self).wf(),
            final(self)@.buffer == old(self)@.buffer.moved(
                old(self)@.buffer.now.placed(
                    match direction {
                        Direction::Backward => word_left_of(
                            old(self)@.source(),
                            old(self)@.cursor(),
                        ),
                        Direction::Forward => word_right_of(
                            old(self)@.source(),
                            old(self)@.cursor(),
                        ),
                    },
                    shift,
                ),
            ),
            final(self)@.preferred_col == old(self)@.preferred_col,
    {
        let cursor = buffer::cursor(&self.editor);
        let target = match direction {
            Direction::Backward => Self::word_left(&self.editor, cursor),
            Direction::Forward => Self::word_right(&self.editor, cursor),
        };
        self.set_cursor_with_selection(target, shift);
    }

    fn char_kind(editor: &Editor, at: usize) -> (kind: CharKind)
        requires
            at < editor_text(*editor).len(),
        ensures
            kind == kind_of(editor_text(*editor)[at as int]),
    {
        // The length fits in a `usize`, and so do the offsets below.
        let _len = buffer::text_len(editor);
        let slice = buffer::slice(editor, at, at + 1);
        let c = slice.as_str().get_char(0);
        if c.is_whitespace() {
            CharKind::Whitespace
        } else if c.is_alphanumeric() || c == '_' {
            CharKind::Word
        } else {
            CharKind::Punctuation
        }
    }

    fn word_left(editor: &Editor, cursor: usize) -> (target: usize)
        requires
            cursor <= editor_text(*editor).len(),
        ensures
            target == word_left_of(editor_text(*editor), cursor as int),
            target <= cursor,
    {
        let end = Self::skip_back(editor, cursor, CharKind::Whitespace);
        if end == 0 {
            return 0;
        }
        let kind = Self::char_kind(editor, buffer::prev_grapheme_boundary(editor, end));
        Self::skip_back(editor, end, kind)
    }

    fn skip_back(editor: &Editor, from: usize, kind: CharKind) -> (target: usize)
        requires
            from <= editor_text(*editor).len(),
        ensures
            target == skip_left(editor_text(*editor), from as int, kind),
            target <= from,
    {
        let mut pos: usize = from;
        while pos != 0
            invariant
                pos <= from <= editor_text(*editor).len(),
                skip_left(editor_text(*editor), pos as int, kind) == skip_left(
                    editor_text(*editor),
                    from as int,
                    kind,
                ),
            ensures
                pos <= from,
                pos == skip_left(editor_text(*editor), from as int, kind),
            decreases pos,
        {
            let prev = buffer::prev_grapheme_boundary(editor, pos);
            if Self::char_kind(editor, prev) != kind {
                break;
            }
            pos = prev;
        }
        pos
    }

    fn word_right(editor: &Editor, cursor: usize) -> (target: usize)
        requires
            cursor <= editor_text(*editor).len(),
        ensures
            target == word_right_of(editor_text(*editor), cursor as int),
            target <= editor_text(*editor).len(),
    {
        let len = buffer::text_len(editor);
        let start = Self::skip_forward(editor, cursor, CharKind::Whitespace);
        if start >= len {
            return len;
        }
        let kind = Self::char_kind(editor, start);
        Self::skip_forward(editor, start, kind)
    }

    fn skip_forward(editor: &Editor, from: usize, kind: CharKind) -> (target: usize)
        requires
            from <= editor_text(*editor).len(),
        ensures
            target == skip_right(editor_text(*editor), from as int, kind),
            from <= target <= editor_text(*editor).len(),
    {
        let len = buffer::text_len(editor);
        let mut pos: usize = from;
        while pos < len && Self::char_kind(editor, pos) == kind
            invariant
                from <= pos <= len,
                len == editor_text(*editor).len(),
                skip_right(editor_text(*editor), pos as int, kind) == skip_right(
                    editor_text(*editor),
                    from as int,
                    kind,
                ),
            decreases len - pos,
        {
            pos = buffer::next_grapheme_boundary(editor, pos);
        }
        pos
    }

    /// Extends the selection to `new_cursor`, from its anchor or from the
    /// cursor, or clears it, and then moves the cursor. The selection goes
    /// first: its anchor depends on where the cursor was.
    fn set_cursor_with_selection(&mut self, new_cursor: usize, shift: bool)
        requires
            old(self).wf(),
            new_cursor <= old(self)@.source().len(),
        ensures
            final(self).wf(),
            final(self)@.buffer == old(self)@.buffer.moved(
                old(self)@.buffer.now.placed(new_cursor as int, shift),
            ),
            final(self)@.preferred_col == old(self)@.preferred_col,
    {
        proof {
            lemma_placed_valid(self@.buffer.now, new_cursor as int, shift);
        }
        if shift {
            buffer::extend_selection(&mut self.editor, new_cursor);
        } else {
            buffer::clear_selection(&mut self.editor);
        }
        buffer::set_cursor(&mut self.editor, new_cursor);
    }

    fn sync_preferred_col(&mut self)
        requires
            old(self)@.buffer.valid(),
        ensures
            final(self)@ == DocumentModel::of(old(self)@.buffer),
    {
        let (_, col) = buffer::point(&self.editor, buffer::cursor(&self.editor));
        self.preferred_col = col;
    }
}

/// Whether `op` only moves the cursor or the selection.
pub open spec fn is_movement(op: EditOp) -> bool {
    match op {
        EditOp::MoveLeft(_)
        | EditOp::MoveRight(_)
        | EditOp::MoveUp(_)
        | EditOp::MoveDown(_)
        | EditOp::MoveLineStart(_)
        | EditOp::MoveLineEnd(_)
        | EditOp::PageUp(_)
        | EditOp::PageDown(_)
        | EditOp::MoveWordLeft(_)
        | EditOp::MoveWordRight(_)
        | EditOp::SelectAll => true,
        _ => false,
    }
}

/// Movement and selection leave the source and the history as they are.
pub proof fn law_movement_keeps_source(document: DocumentModel, op: EditOp)
    requires
        is_movement(op),
    ensures
        document.edit(op).source() == document.source(),
        document.edit(op).buffer.past == document.buffer.past,
        document.edit(op).buffer.future == document.buffer.future,
{
    reveal(DocumentModel::edit);
}

/// An unshifted cursor movement leaves nothing selected, also where the
/// cursor cannot move.
pub proof fn law_unshifted_movement_clears_selection(document: DocumentModel, op: EditOp)
    requires
        document.wf(),
        op == EditOp::MoveLeft(false) || op == EditOp::MoveRight(false) || op == EditOp::MoveUp(
            false,
        ) || op == EditOp::MoveDown(false) || op == EditOp::MoveLineStart(false) || op
            == EditOp::MoveLineEnd(false) || op == EditOp::PageUp(false) || op == EditOp::PageDown(
            false,
        ) || op == EditOp::MoveWordLeft(false) || op == EditOp::MoveWordRight(false),
    ensures
        !document.edit(op).buffer.now.active(),
{
    reveal(DocumentModel::edit);
}

/// Undo after an operation that changed the source restores the source.
pub proof fn law_undo_restores_source(document: DocumentModel, op: EditOp)
    requires
        document.wf(),
        op != EditOp::Undo,
        op != EditOp::Redo,
        document.edit(op).source() != document.source(),
    ensures
        document.edit(op).edit(EditOp::Undo).source() == document.source(),
{
    reveal(DocumentModel::edit);
    if op == EditOp::UnIndent {
        lemma_indentation_valid(document.settled().now);
    }
}

/// Undo after a paste that changed the source restores the source: a paste is
/// one operation, however long the text.
pub proof fn law_undo_restores_source_after_paste(document: DocumentModel, text: Seq<char>)
    requires
        document.paste(text).source() != document.source(),
    ensures
        document.paste(text).edit(EditOp::Undo).source() == document.source(),
{
    reveal(DocumentModel::edit);
    reveal(DocumentModel::paste);
}

/// Redo after an undo brings back the source that was there before the undo.
pub proof fn law_redo_restores_source(document: DocumentModel)
    requires
        document.wf(),
        document.buffer.past.len() > 0,
    ensures
        document.edit(EditOp::Undo).edit(EditOp::Redo).source() == document.source(),
{
    reveal(DocumentModel::edit);
    let undone = document.edit(EditOp::Undo).settled();
    assert(undone.future.last() == document.buffer.past.last());
}

/// A character typed over everything selected is all that is left.
pub proof fn law_typing_over_everything_replaces_it(document: DocumentModel, c: char)
    requires
        document.wf(),
    ensures
        document.edit(EditOp::SelectAll).edit(EditOp::Insert(c)).source() == seq![c],
{
    reveal(DocumentModel::edit);
    let selected = document.edit(EditOp::SelectAll).settled().now;
    assert(selected.inserted(seq![c]).text =~= seq![c]);
}

/// With nothing selected, pasted text stands verbatim where the cursor was,
/// with the cursor behind it.
pub proof fn law_paste_is_verbatim(document: DocumentModel, text: Seq<char>)
    requires
        document.wf(),
        !document.buffer.now.active(),
    ensures
        document.paste(text).source() == document.source().subrange(0, document.cursor()) + text
            + document.source().subrange(document.cursor(), document.source().len() as int),
        document.paste(text).cursor() == document.cursor() + text.len(),
{
    reveal(DocumentModel::paste);
    if text.len() == 0 {
        assert(document.source() =~= document.source().subrange(0, document.cursor()) + text
            + document.source().subrange(document.cursor(), document.source().len() as int));
    }
}

/// A snapped position is between the two positions that it is searched
/// between.
proof fn lemma_snapped_between(text: Seq<char>, from: int, limit: int)
    requires
        from <= limit,
    ensures
        from <= snapped(text, from, limit) <= limit,
    decreases text.len() - from,
{
    let next = step_right(text, from);
    if !(next > limit || next <= from) {
        lemma_snapped_between(text, next, limit);
    }
}

/// A position reached in a line stands on that line.
pub proof fn lemma_reach_in_line(text: Seq<char>, line: int, col: int)
    requires
        0 <= line < line_count(text),
        0 <= col,
    ensures
        line_of(text, reach(text, line, col)) == line,
        0 <= reach(text, line, col) <= text.len(),
        column_of(text, reach(text, line, col)) <= col,
{
    let start = line_start(text, line);
    let len = line_len(text, line);
    lemma_line_extent(text, line);
    lemma_snapped_between(
        text,
        start,
        start + if col <= len {
            col
        } else {
            len
        },
    );
    let at = reach(text, line, col);
    lemma_line_of_monotone(text, start, at);
    if line + 1 < line_count(text) {
        lemma_line_extent(text, line + 1);
        lemma_line_start(text, line_start(text, line + 1));
        lemma_line_of_monotone(text, at, line_start(text, line + 1) - 1);
    } else {
        lemma_line_of_monotone(text, at, text.len() as int);
    }
}

/// Vertical movement remembers the column: a move up and back down (or down
/// and back up) ends where the remembered column reaches in the line that it
/// started from, however short the line between.
pub proof fn law_vertical_movement_remembers_column(
    document: DocumentModel,
    there: EditOp,
    back: EditOp,
)
    requires
        document.wf(),
        there is MoveUp && back is MoveDown && document.next_line(Direction::Backward) is Some
            || there is MoveDown && back is MoveUp && document.next_line(Direction::Forward) is Some,
    ensures
        document.edit(there).preferred_col == document.preferred_col,
        document.edit(there).edit(back).preferred_col == document.preferred_col,
        document.edit(there).edit(back).line() == document.line(),
        document.edit(there).edit(back).cursor() == reach(
            document.source(),
            document.line(),
            document.preferred_col,
        ),
{
    reveal(DocumentModel::edit);
    let text = document.source();
    lemma_column_in_line(text, document.cursor());
    let line = if there is MoveUp {
        document.line() - 1
    } else {
        document.line() + 1
    };
    lemma_reach_in_line(text, line, document.preferred_col);
    lemma_reach_in_line(text, document.line(), document.preferred_col);
}

/// What is typed or pasted stands in place of what was selected, or where the
/// cursor was; the cursor stands behind it, nothing is selected, and the rest
/// of the source is as it was.
pub proof fn law_typing_replaces_what_is_selected(
    document: DocumentModel,
    c: char,
    text: Seq<char>,
)
    requires
        document.wf(),
        text.len() > 0,
    ensures
        ({
            let source = document.source();
            let (from, to) = match document.buffer.now.selection {
                Some((start, end)) => if start != end {
                    (start, end)
                } else {
                    (document.cursor(), document.cursor())
                },
                None => (document.cursor(), document.cursor()),
            };
            let rest = source.subrange(to, source.len() as int);
            let typed = document.edit(EditOp::Insert(c));
            let pasted = document.paste(text);
            &&& 0 <= from <= to <= source.len()
            &&& typed.source() == source.subrange(0, from) + seq![c] + rest
            &&& typed.cursor() == from + 1
            &&& typed.buffer.now.selection is None
            &&& pasted.source() == source.subrange(0, from) + text + rest
            &&& pasted.cursor() == from + text.len()
            &&& pasted.buffer.now.selection is None
            &&& document.edit(EditOp::Newline) == document.edit(EditOp::Insert('\n'))
            &&& document.paste(seq![c]) == typed
        }),
        document.paste(Seq::empty()) == document,
{
    reveal(DocumentModel::edit);
    reveal(DocumentModel::paste);
}

/// What is selected is deleted as a whole, by either key, and nothing else is.
pub proof fn law_deleting_removes_what_is_selected(document: DocumentModel, op: EditOp)
    requires
        document.wf(),
        op == EditOp::Backspace || op == EditOp::DeleteForward,
        document.buffer.now.selection matches Some((start, end)) && start != end,
    ensures
        ({
            let (start, end) = document.buffer.now.selection->0;
            let source = document.source();
            let after = document.edit(op);
            &&& after.source() == source.subrange(0, start) + source.subrange(
                end,
                source.len() as int,
            )
            &&& after.cursor() == start
            &&& after.buffer.now.selection is None
        }),
{
    reveal(DocumentModel::edit);
}

/// With nothing selected, Backspace deletes what stands right before the
/// cursor, and nothing else: one grapheme, or, where the line starts with whole
/// indent units up to the cursor, those. At the start of the text it does
/// nothing.
pub proof fn law_backspace_deletes_before_the_cursor(document: DocumentModel)
    requires
        document.wf(),
        !document.buffer.now.active(),
    ensures
        ({
            let source = document.source();
            let at = document.cursor();
            let start = line_start(source, line_of(source, at));
            let after = document.edit(EditOp::Backspace);
            &&& at == 0 ==> after.source() == source && after.cursor() == 0
            &&& at > 0 ==> {
                &&& 0 <= after.cursor() < at
                &&& after.source() == source.subrange(0, after.cursor()) + source.subrange(
                    at,
                    source.len() as int,
                )
                &&& source[at - 1] != ' ' ==> after.cursor() == step_left(source, at)
                &&& at > start && (at - start) % 2 == 0 && (forall|j: int|
                    start <= j < at ==> source[j] == ' ') ==> after.cursor() == start
            }
        }),
{
    reveal(DocumentModel::edit);
    let settled = document.settled().now;
    let source = document.source();
    let at = document.cursor();
    lemma_changes_valid(settled, Seq::empty());
    lemma_line_start(source, at);
    let start = line_start(source, line_of(source, at));
    if at > 0 {
        assert(settled.deletion_start() < at);
        if source[at - 1] != ' ' && start < at {
            let reached = (at - start + 1) / 2 * 2;
            assert(start <= at - 1 < start + reached);
        }
    }
}

/// With nothing selected, Delete removes up to the next grapheme boundary
/// behind the cursor; at the end of the text it does nothing.
pub proof fn law_delete_removes_behind_the_cursor(document: DocumentModel)
    requires
        document.wf(),
        !document.buffer.now.active(),
    ensures
        ({
            let source = document.source();
            let at = document.cursor();
            let after = document.edit(EditOp::DeleteForward);
            let next = step_right(source, at);
            &&& at == source.len() ==> after.source() == source && after.cursor() == at
            &&& at < source.len() ==> {
                &&& 0 <= after.cursor() < next
                &&& after.source() == source.subrange(0, after.cursor()) + source.subrange(
                    next,
                    source.len() as int,
                )
                &&& source[next - 1] != ' ' ==> after.cursor() == step_left(source, next)
            }
        }),
{
    reveal(DocumentModel::edit);
    let source = document.source();
    let at = document.cursor();
    if at < source.len() {
        let next = step_right(source, at);
        let moved = Snapshot { cursor: next, ..document.settled().now };
        lemma_changes_valid(moved, Seq::empty());
        lemma_line_start(source, next);
        let start = line_start(source, line_of(source, next));
        if source[next - 1] != ' ' && start < next {
            let reached = (next - start + 1) / 2 * 2;
            assert(start <= next - 1 < start + reached);
        }
    }
}

/// The arrow keys move the cursor by one grapheme, to the boundary before it
/// or after it, and not beyond the text; without shift they lead to the near
/// end of what was selected instead.
pub proof fn law_arrows_move_by_one_grapheme(document: DocumentModel, shift: bool)
    requires
        document.wf(),
    ensures
        ({
            let source = document.source();
            let at = document.cursor();
            let left = document.edit(EditOp::MoveLeft(shift));
            let right = document.edit(EditOp::MoveRight(shift));
            let collapses = !shift && document.buffer.now.active();
            &&& collapses ==> left.cursor() == (document.buffer.now.selection->0).0
            &&& collapses ==> right.cursor() == (document.buffer.now.selection->0).1
            &&& !collapses && at > 0 ==> left.cursor() == step_left(source, at) && left.cursor()
                < at
            &&& !collapses && at == 0 ==> left.cursor() == 0
            &&& !collapses && at < source.len() ==> right.cursor() == step_right(source, at) && at
                < right.cursor() <= source.len()
            &&& !collapses && at == source.len() ==> right.cursor() == at
        }),
{
    reveal(DocumentModel::edit);
}

/// The two ways to press a movement key: without shift, and with it.
pub open spec fn same_movement(plain: EditOp, shifted: EditOp) -> bool {
    ||| plain == EditOp::MoveLeft(false) && shifted == EditOp::MoveLeft(true)
    ||| plain == EditOp::MoveRight(false) && shifted == EditOp::MoveRight(true)
    ||| plain == EditOp::MoveUp(false) && shifted == EditOp::MoveUp(true)
    ||| plain == EditOp::MoveDown(false) && shifted == EditOp::MoveDown(true)
    ||| plain == EditOp::MoveLineStart(false) && shifted == EditOp::MoveLineStart(true)
    ||| plain == EditOp::MoveLineEnd(false) && shifted == EditOp::MoveLineEnd(true)
    ||| plain == EditOp::PageUp(false) && shifted == EditOp::PageUp(true)
    ||| plain == EditOp::PageDown(false) && shifted == EditOp::PageDown(true)
    ||| plain == EditOp::MoveWordLeft(false) && shifted == EditOp::MoveWordLeft(true)
    ||| plain == EditOp::MoveWordRight(false) && shifted == EditOp::MoveWordRight(true)
}

/// With nothing selected, shift takes the cursor to the same place, and
/// selects exactly what the cursor moved over.
pub proof fn law_shift_selects_what_is_moved_over(
    document: DocumentModel,
    plain: EditOp,
    shifted: EditOp,
)
    requires
        document.wf(),
        !document.buffer.now.active(),
        same_movement(plain, shifted),
    ensures
        ({
            let from = document.cursor();
            let after = document.edit(shifted);
            let to = after.cursor();
            &&& to == document.edit(plain).cursor()
            &&& from < to ==> after.buffer.now.selection == Some((from, to))
            &&& to < from ==> after.buffer.now.selection == Some((to, from))
            &&& from == to ==> !after.buffer.now.active()
        }),
{
    reveal(DocumentModel::edit);
}

/// With something selected, shift keeps the end of the selection that the
/// cursor is not at, and moves the other end to where the cursor goes.
pub proof fn law_shift_keeps_the_far_end(
    document: DocumentModel,
    plain: EditOp,
    shifted: EditOp,
)
    requires
        document.wf(),
        document.buffer.now.selection matches Some((start, end)) && start != end && (
        document.cursor() == start || document.cursor() == end),
        same_movement(plain, shifted),
        document.edit(shifted).cursor() != document.cursor(),
    ensures
        ({
            let (start, end) = document.buffer.now.selection->0;
            let far = if document.cursor() == start {
                end
            } else {
                start
            };
            let to = document.edit(shifted).cursor();
            document.edit(shifted).buffer.now.selection == if far <= to {
                Some((far, to))
            } else {
                Some((to, far))
            }
        }),
{
    reveal(DocumentModel::edit);
}

/// Selecting everything selects from the start to the end of the text, and
/// leaves the cursor where it is.
pub proof fn law_everything_is_selected(document: DocumentModel)
    ensures
        ({
            let after = document.edit(EditOp::SelectAll);
            &&& after.buffer.now.selection == Some((0int, document.source().len() as int))
            &&& after.cursor() == document.cursor()
            &&& after.source() == document.source()
        }),
{
    reveal(DocumentModel::edit);
}

/// A line ends right before the character that ends it, or with the text.
proof fn lemma_line_end(text: Seq<char>, line: int)
    requires
        0 <= line < line_count(text),
    ensures
        ({
            let end = line_start(text, line) + line_len(text, line);
            &&& 0 <= end <= text.len()
            &&& line_of(text, end) == line
            &&& end == text.len() || ends_line(text, end)
        }),
{
    lemma_line_extent(text, line);
    let start = line_start(text, line);
    let end = start + line_len(text, line);
    lemma_line_of_monotone(text, start, end);
    if line + 1 < line_count(text) {
        lemma_line_extent(text, line + 1);
        lemma_line_start(text, end + 1);
        lemma_line_of_monotone(text, 0, end);
        assert(line_of(text, end + 1) == line + 1);
        assert(line_of(text, end) < line + 1) by {
            assert(line_start(text, line + 1) == end + 1);
        }
    } else {
        lemma_line_of_monotone(text, end, text.len() as int);
    }
}

/// Home and End stay on the line of the cursor: at its first column, and right
/// before the character that ends it, or at the end of the text.
pub proof fn law_home_and_end_stay_on_the_line(document: DocumentModel, shift: bool)
    requires
        document.wf(),
    ensures
        ({
            let home = document.edit(EditOp::MoveLineStart(shift));
            let end = document.edit(EditOp::MoveLineEnd(shift));
            &&& home.line() == document.line()
            &&& home.column() == 0
            &&& end.line() == document.line()
            &&& end.cursor() == document.source().len() || ends_line(
                document.source(),
                end.cursor(),
            )
            &&& home.cursor() <= document.cursor() <= end.cursor()
        }),
{
    reveal(DocumentModel::edit);
    let text = document.source();
    lemma_column_in_line(text, document.cursor());
    lemma_line_start(text, document.cursor());
    lemma_line_end(text, document.line());
}

/// A snapped position is the last boundary that is not past the limit.
proof fn lemma_snapped_is_last(text: Seq<char>, from: int, limit: int)
    requires
        0 <= from <= limit <= text.len(),
    ensures
        snapped(text, from, limit) == limit || step_right(text, snapped(text, from, limit)) > limit,
    decreases text.len() - from,
{
    let next = step_right(text, from);
    if !(next > limit || next <= from) {
        lemma_snapped_is_last(text, next, limit);
    }
}

/// Where a vertical movement to `line` leaves the cursor: on that line, at the
/// remembered column or the end of the line, whichever comes first, or at the
/// last grapheme boundary before that.
pub open spec fn aims_at_the_column(document: DocumentModel, at: int, line: int) -> bool {
    let text = document.source();
    let aim = if document.preferred_col < line_len(text, line) {
        line_start(text, line) + document.preferred_col
    } else {
        line_start(text, line) + line_len(text, line)
    };
    &&& line_of(text, at) == line
    &&& line_start(text, line) <= at <= aim
    &&& at == aim || step_right(text, at) > aim
}

proof fn lemma_reach_aims(document: DocumentModel, line: int)
    requires
        0 <= line < line_count(document.source()),
        0 <= document.preferred_col,
    ensures
        aims_at_the_column(document, reach(document.source(), line, document.preferred_col), line),
{
    let text = document.source();
    let start = line_start(text, line);
    let len = line_len(text, line);
    let limit = start + if document.preferred_col <= len {
        document.preferred_col
    } else {
        len
    };
    lemma_line_extent(text, line);
    lemma_reach_in_line(text, line, document.preferred_col);
    lemma_snapped_between(text, start, limit);
    lemma_snapped_is_last(text, start, limit);
}

/// The arrow keys move by one line, and the page keys by ten, as far as there
/// are lines, towards the remembered column, which stays remembered. At the
/// first and the last line the arrow keys leave the cursor where it is.
pub proof fn law_vertical_movement_moves_by_lines(document: DocumentModel, shift: bool)
    requires
        document.wf(),
    ensures
        ({
            let line = document.line();
            let last = line_count(document.source()) - 1;
            let up = document.edit(EditOp::MoveUp(shift));
            let down = document.edit(EditOp::MoveDown(shift));
            let page_up = document.edit(EditOp::PageUp(shift));
            let page_down = document.edit(EditOp::PageDown(shift));
            &&& 0 <= line <= last
            &&& line == 0 ==> up.cursor() == document.cursor()
            &&& line > 0 ==> aims_at_the_column(document, up.cursor(), line - 1)
            &&& line == last ==> down.cursor() == document.cursor()
            &&& line < last ==> aims_at_the_column(document, down.cursor(), line + 1)
            &&& aims_at_the_column(
                document,
                page_up.cursor(),
                if line >= 10 {
                    line - 10
                } else {
                    0
                },
            )
            &&& aims_at_the_column(
                document,
                page_down.cursor(),
                if line + 10 <= last {
                    line + 10
                } else {
                    last
                },
            )
            &&& up.preferred_col == document.preferred_col
            &&& down.preferred_col == document.preferred_col
            &&& page_up.preferred_col == document.preferred_col
            &&& page_down.preferred_col == document.preferred_col
        }),
{
    reveal(DocumentModel::edit);
    let text = document.source();
    lemma_column_in_line(text, document.cursor());
    let line = document.line();
    if line > 0 {
        lemma_reach_aims(document, line - 1);
    }
    if line + 1 < line_count(text) {
        lemma_reach_aims(document, line + 1);
    }
    lemma_reach_aims(document, document.page_line(Direction::Backward));
    lemma_reach_aims(document, document.page_line(Direction::Forward));
}

/// Every operation that is no vertical movement remembers the column at which
/// it leaves the cursor.
pub proof fn law_other_operations_remember_their_column(document: DocumentModel, op: EditOp)
    requires
        !(op is MoveUp),
        !(op is MoveDown),
        !(op is PageUp),
        !(op is PageDown),
    ensures
        document.edit(op).preferred_col == document.edit(op).column(),
{
    reveal(DocumentModel::edit);
}

/// The kinds of characters: white space, letters, numbers and underscores, and
/// everything else.
pub proof fn law_words_are_made_of_letters_numbers_and_underscores(c: char)
    ensures
        kind_of('_') == CharKind::Word,
        is_whitespace(c) ==> kind_of(c) == CharKind::Whitespace,
        is_alphanumeric(c) && !is_whitespace(c) ==> kind_of(c) == CharKind::Word,
        !is_alphanumeric(c) && !is_whitespace(c) && c != '_' ==> kind_of(c)
            == CharKind::Punctuation,
{
}

/// Whether `c` belongs to a word or, where `word` is not set, to a run of
/// punctuation.
pub open spec fn belongs(c: char, word: bool) -> bool {
    !is_whitespace(c) && (word <==> is_alphanumeric(c) || c == '_')
}

proof fn lemma_skip_left_over(text: Seq<char>, from: int, at: int, kind: CharKind)
    requires
        0 <= from <= at <= text.len(),
        forall|i: int| from < i <= at ==> #[trigger] step_left(text, i) == i - 1,
        forall|i: int| from <= i < at ==> kind_of(#[trigger] text[i]) == kind,
    ensures
        skip_left(text, at, kind) == skip_left(text, from, kind),
    decreases at - from,
{
    if from < at {
        assert(step_left(text, at) == at - 1);
        assert(kind_of(text[at - 1]) == kind);
        lemma_skip_left_over(text, from, at - 1, kind);
    }
}

proof fn lemma_skip_right_over(text: Seq<char>, at: int, to: int, kind: CharKind)
    requires
        0 <= at <= to <= text.len(),
        forall|i: int| at <= i < to ==> #[trigger] step_right(text, i) == i + 1,
        forall|i: int| at <= i < to ==> kind_of(#[trigger] text[i]) == kind,
    ensures
        skip_right(text, at, kind) == skip_right(text, to, kind),
    decreases to - at,
{
    if at < to {
        assert(step_right(text, at) == at + 1);
        assert(kind_of(text[at]) == kind);
        lemma_skip_right_over(text, at + 1, to, kind);
    }
}

/// Word movement to the left goes over white space, and then over the whole
/// run of letters, numbers and underscores, or of punctuation, before it.
pub proof fn law_word_left_goes_to_the_start_of_the_run(
    document: DocumentModel,
    word: bool,
    start: int,
    end: int,
    shift: bool,
)
    requires
        document.wf(),
        0 <= start < end <= document.cursor(),
        forall|i: int|
            start < i <= document.cursor() ==> #[trigger] step_left(document.source(), i) == i - 1,
        forall|i: int|
            start <= i < end ==> belongs(#[trigger] document.source()[i], word),
        forall|i: int|
            end <= i < document.cursor() ==> is_whitespace(#[trigger] document.source()[i]),
        start == 0 || !belongs(document.source()[step_left(document.source(), start)], word),
    ensures
        document.edit(EditOp::MoveWordLeft(shift)).cursor() == start,
{
    reveal(DocumentModel::edit);
    let text = document.source();
    let at = document.cursor();
    let kind = if word {
        CharKind::Word
    } else {
        CharKind::Punctuation
    };
    lemma_skip_left_over(text, end, at, CharKind::Whitespace);
    assert(step_left(text, end) == end - 1);
    assert(belongs(text[end - 1], word));
    assert(skip_left(text, at, CharKind::Whitespace) == end);
    assert forall|i: int| start <= i < end implies kind_of(#[trigger] text[i]) == kind by {
        assert(belongs(text[i], word));
    }
    lemma_skip_left_over(text, start, end, kind);
    assert(skip_left(text, start, kind) == start);
}

/// Word movement to the right goes over white space, and then over the whole
/// run of letters, numbers and underscores, or of punctuation, behind it.
pub proof fn law_word_right_goes_to_the_end_of_the_run(
    document: DocumentModel,
    word: bool,
    start: int,
    end: int,
    shift: bool,
)
    requires
        document.wf(),
        document.cursor() <= start < end <= document.source().len(),
        forall|i: int|
            document.cursor() <= i < end ==> #[trigger] step_right(document.source(), i) == i + 1,
        forall|i: int|
            document.cursor() <= i < start ==> is_whitespace(#[trigger] document.source()[i]),
        forall|i: int|
            start <= i < end ==> belongs(#[trigger] document.source()[i], word),
        end == document.source().len() || !belongs(document.source()[end], word),
    ensures
        document.edit(EditOp::MoveWordRight(shift)).cursor() == end,
{
    reveal(DocumentModel::edit);
    let text = document.source();
    let at = document.cursor();
    let kind = if word {
        CharKind::Word
    } else {
        CharKind::Punctuation
    };
    lemma_skip_right_over(text, at, start, CharKind::Whitespace);
    assert(belongs(text[start], word));
    assert(skip_right(text, at, CharKind::Whitespace) == start);
    assert forall|i: int| start <= i < end implies kind_of(#[trigger] text[i]) == kind by {
        assert(belongs(text[i], word));
    }
    lemma_skip_right_over(text, start, end, kind);
    assert(skip_right(text, end, kind) == end);
}

/// Where there is nothing but white space before the cursor, word movement to
/// the left goes to the start of the text.
pub proof fn law_word_left_reaches_the_start(document: DocumentModel, shift: bool)
    requires
        document.wf(),
        forall|i: int|
            0 < i <= document.cursor() ==> #[trigger] step_left(document.source(), i) == i - 1,
        forall|i: int|
            0 <= i < document.cursor() ==> is_whitespace(#[trigger] document.source()[i]),
    ensures
        document.edit(EditOp::MoveWordLeft(shift)).cursor() == 0,
{
    reveal(DocumentModel::edit);
    lemma_skip_left_over(document.source(), 0, document.cursor(), CharKind::Whitespace);
}

/// Where there is nothing but white space behind the cursor, word movement to
/// the right goes to the end of the text.
pub proof fn law_word_right_reaches_the_end(document: DocumentModel, shift: bool)
    requires
        document.wf(),
        forall|i: int|
            document.cursor() <= i < document.source().len() ==> #[trigger] step_right(
                document.source(),
                i,
            ) == i + 1,
        forall|i: int|
            document.cursor() <= i < document.source().len() ==> is_whitespace(
                #[trigger] document.source()[i],
            ),
    ensures
        document.edit(EditOp::MoveWordRight(shift)).cursor() == document.source().len(),
{
    reveal(DocumentModel::edit);
    let text = document.source();
    lemma_skip_right_over(text, document.cursor(), text.len() as int, CharKind::Whitespace);
    assert(skip_right(text, text.len() as int, CharKind::Whitespace) == text.len());
}

/// Undo leads back through the edits one by one, and what was taken back can
/// be made again until the next edit.
pub proof fn law_undo_goes_back_edit_by_edit(document: DocumentModel, c: char, d: char)
    requires
        document.wf(),
    ensures
        ({
            let once = document.edit(EditOp::Insert(c));
            let twice = once.edit(EditOp::Insert(d));
            &&& twice.edit(EditOp::Undo).source() == once.source()
            &&& twice.edit(EditOp::Undo).cursor() == once.cursor()
            &&& twice.edit(EditOp::Undo).edit(EditOp::Undo).source() == document.source()
            &&& twice.edit(EditOp::Undo).edit(EditOp::Undo).cursor() == document.cursor()
            &&& twice.edit(EditOp::Undo).edit(EditOp::Undo).edit(EditOp::Redo).edit(
                EditOp::Redo,
            ).source() == twice.source()
            &&& once.edit(EditOp::Undo).edit(EditOp::Insert(d)).edit(EditOp::Redo).source()
                == once.edit(EditOp::Undo).edit(EditOp::Insert(d)).source()
        }),
{
    reveal(DocumentModel::edit);
    let once = document.edit(EditOp::Insert(c));
    let twice = once.edit(EditOp::Insert(d));
    let one = twice.edit(EditOp::Undo);
    let two = one.edit(EditOp::Undo);
    assert(one.settled().past.last() == once.settled().past.last());
    assert(two.settled().future.last() == one.settled().past.last());
    let three = two.edit(EditOp::Redo);
    assert(three.settled().future.last() == twice.settled().past.last());
}

/// With nothing to take back, or to make again, nothing of the source changes.
pub proof fn law_empty_history_changes_nothing(document: DocumentModel)
    ensures
        document.buffer.past.len() == 0 ==> document.edit(EditOp::Undo).source()
            == document.source() && document.edit(EditOp::Undo).cursor() == document.cursor(),
        document.buffer.future.len() == 0 ==> document.edit(EditOp::Redo).source()
            == document.source() && document.edit(EditOp::Redo).cursor() == document.cursor(),
{
    reveal(DocumentModel::edit);
}

/// With nothing selected, indenting puts two spaces at the start of the
/// cursor's line and keeps the cursor at its character; unindenting takes two
/// spaces from there, where the line starts with them.
pub proof fn law_indentation_is_of_two_spaces(document: DocumentModel)
    requires
        document.wf(),
        !document.buffer.now.active(),
    ensures
        ({
            let source = document.source();
            let start = line_start(source, document.line());
            let indented = document.edit(EditOp::Indent);
            let unindented = document.edit(EditOp::UnIndent);
            let has_unit = start + 2 <= source.len() && source[start] == ' ' && source[start + 1]
                == ' ';
            &&& 0 <= start <= document.cursor()
            &&& indented.source() == source.subrange(0, start) + seq![' ', ' ']
                + source.subrange(start, source.len() as int)
            &&& indented.cursor() == document.cursor() + 2
            &&& has_unit ==> unindented.source() == source.subrange(0, start) + source.subrange(
                start + 2,
                source.len() as int,
            )
            &&& has_unit && document.cursor() >= 2 ==> unindented.cursor() == document.cursor() - 2
            &&& has_unit && document.cursor() < 2 ==> unindented.cursor() == 0
            &&& !has_unit ==> unindented.source() == source && unindented.cursor()
                == document.cursor()
        }),
{
    reveal(DocumentModel::edit);
    let source = document.source();
    let line = document.line();
    lemma_line_start(source, document.cursor());
    reveal_with_fuel(indented, 2);
    reveal_with_fuel(unindented, 2);
    reveal_with_fuel(lines_unindented, 2);
    let settled = document.settled().now;
    assert(settled.first_row() == line && settled.last_row() == line);
}

/// With several lines selected, indenting adds two characters to each of them,
/// however they are selected.
pub proof fn law_every_selected_line_is_indented(document: DocumentModel)
    requires
        document.wf(),
        document.buffer.now.selection matches Some((start, end)) && start != end,
    ensures
        ({
            let (start, end) = document.buffer.now.selection->0;
            let lines = line_of(document.source(), end) - line_of(document.source(), start) + 1;
            document.edit(EditOp::Indent).source().len() == document.source().len() + 2 * lines
        }),
{
    reveal(DocumentModel::edit);
    let (start, end) = document.buffer.now.selection->0;
    lemma_line_of_monotone(document.source(), start, end);
    lemma_indented_len(
        document.source(),
        line_of(document.source(), start),
        line_of(document.source(), end),
    );
}

/// A fresh document holds its source, with the cursor at the end of it,
/// nothing selected, and nothing to take back or to make again.
pub proof fn law_fresh_documents_hold_their_source(source: Seq<char>)
    ensures
        ({
            let document = DocumentModel::fresh(source);
            &&& document.source() == source
            &&& document.cursor() == source.len()
            &&& document.buffer.now.selection is None
            &&& document.buffer.past.len() == 0
            &&& document.buffer.future.len() == 0
            &&& document.preferred_col == document.column()
        }),
{
}

/// The cursor is drawn: its line lies among the rows that an area shows, and
/// its column among the columns, and nothing is left out that would fit.
pub proof fn law_cursor_is_drawn(document: DocumentModel, editor: Editor, width: int, height: int)
    requires
        document.wf(),
        document.drawn_by(editor, width, height),
    ensures
        ({
            let columns = text_columns(document.source(), width);
            &&& height > 0 ==> editor_offset_y(editor) <= document.line() < editor_offset_y(editor)
                + height
            &&& columns > 0 ==> editor_offset_x(editor) <= document.column() < editor_offset_x(
                editor,
            ) + columns
            &&& document.line() < height ==> editor_offset_y(editor) == 0
            &&& document.column() < columns ==> editor_offset_x(editor) == 0
            &&& editor_text(editor) == document.source()
            &&& editor_cursor(editor) == document.cursor()
        }),
{
    lemma_column_in_line(document.source(), document.cursor());
}

/// Undo brings back the cursor and what was selected along with the source,
/// and Redo then the source and the cursor that the edit led to.
pub proof fn law_undo_brings_back_the_cursor(document: DocumentModel, op: EditOp)
    requires
        document.wf(),
        op is Insert || op == EditOp::Newline || op == EditOp::Backspace || op == EditOp::Indent
            || op == EditOp::UnIndent,
        document.edit(op).source() != document.source(),
    ensures
        ({
            let edited = document.edit(op);
            let undone = edited.edit(EditOp::Undo);
            let redone = undone.edit(EditOp::Redo);
            &&& undone.source() == document.source()
            &&& undone.cursor() == document.cursor()
            &&& undone.buffer.now.active() == document.buffer.now.active()
            &&& document.buffer.now.active() ==> undone.buffer.now.selection
                == document.buffer.now.selection
            &&& redone.source() == edited.source()
            &&& redone.cursor() == edited.cursor()
        }),
{
    reveal(DocumentModel::edit);
    if op == EditOp::UnIndent {
        lemma_indentation_valid(document.settled().now);
    }
    let edited = document.edit(op);
    let undone = edited.edit(EditOp::Undo);
    assert(undone.settled().future.last() == edited.settled().past.last());
}

/// Indenting keeps selected what was selected: the start moves by the spaces
/// put before its own line, and the end by those of all the lines.
pub proof fn law_indenting_keeps_the_selection(document: DocumentModel)
    requires
        document.wf(),
        document.buffer.now.selection matches Some((start, end)) && start != end && (
        document.cursor() == start || document.cursor() == end),
    ensures
        ({
            let (start, end) = document.buffer.now.selection->0;
            let lines = line_of(document.source(), end) - line_of(document.source(), start) + 1;
            let after = document.edit(EditOp::Indent);
            &&& lines >= 1
            &&& after.buffer.now.selection == Some((start + 2, end + 2 * lines))
            &&& after.cursor() == if document.cursor() == start {
                start + 2
            } else {
                end + 2 * lines
            }
        }),
{
    reveal(DocumentModel::edit);
    let (start, end) = document.buffer.now.selection->0;
    lemma_line_of_monotone(document.source(), start, end);
}

/// Unindenting takes two characters off some of the touched lines, and moves
/// the ends of the selection back: the start by one unit, and the end by all
/// that was taken off.
pub proof fn law_unindenting_takes_whole_units(document: DocumentModel)
    requires
        document.wf(),
        document.buffer.now.selection matches Some((start, end)) && start != end && (
        document.cursor() == start || document.cursor() == end),
    ensures
        ({
            let (start, end) = document.buffer.now.selection->0;
            let after = document.edit(EditOp::UnIndent);
            let removed = document.source().len() - after.source().len();
            let low = if start >= 2 {
                start - 2
            } else {
                0
            };
            let high = if end >= removed {
                end - removed
            } else {
                0
            };
            &&& removed >= 0 && removed % 2 == 0
            &&& after.buffer.now.selection == if low <= high {
                Some((low, high))
            } else {
                Some((high, low))
            }
            &&& after.cursor() == if document.cursor() == start {
                low
            } else {
                high
            }
        }),
{
    reveal(DocumentModel::edit);
    let (start, end) = document.buffer.now.selection->0;
    let text = document.source();
    lemma_line_of_monotone(text, start, end);
    lemma_line_of_monotone(text, end, text.len() as int);
    lemma_unindented_reaches(text, start, line_of(text, end));
}

} // verus!
