//! The text field in which a task is typed. Its editing is done by
//! `tui_input`; the field itself is held as a text and a cursor.

use tui_input::InputRequest;
use vstd::prelude::*;

verus! {

/// Where the cursor of the text field is asked to go.
#[derive(Clone, Copy, Debug, PartialEq, Eq)]
pub enum Motion {
    /// To the given position, counted in characters.
    To(usize),
    PrevChar,
    NextChar,
    PrevWord,
    NextWord,
    Start,
    End,
}

/// What the text field is asked to delete, seen from the cursor.
#[derive(Clone, Copy, Debug, PartialEq, Eq)]
pub enum Deletion {
    PrevChar,
    NextChar,
    PrevWord,
    NextWord,
    Line,
    TillEnd,
}

/// One edit of the text field.
#[derive(Clone, Copy, Debug, PartialEq, Eq)]
pub enum EditRequest {
    InsertChar(char),
    GoTo(Motion),
    Delete(Deletion),
}

/// The text and the cursor that `tui_input::Input::handle` leaves behind when
/// it gets a request to move the cursor or to delete, on a field that holds
/// `text` with the cursor at `cursor`. Positions are counted in characters; a
/// cursor beyond the end of the text counts as one at its end.
pub uninterp spec fn edited(text: Seq<char>, cursor: nat, request: EditRequest) -> (Seq<char>, nat);

/// The number of columns by which `tui_input::Input::visual_scroll` shifts a
/// field that holds `text` with the cursor at `cursor`, so that the cursor
/// is seen in a window `width` columns wide. Columns are counted as the
/// terminal shows them: a wide character takes two.
pub uninterp spec fn scroll_offset(text: Seq<char>, cursor: nat, width: nat) -> nat;

/// The position of a cursor in a text of `len` characters: no further than
/// the end.
pub open spec fn clamped(cursor: nat, len: nat) -> nat {
    if cursor <= len {
        cursor
    } else {
        len
    }
}

/// Calls `tui_input::Input::handle` with `InputRequest::InsertChar` on a
/// field made of `text` and `cursor`. The character is put in at the cursor,
/// and the cursor moves past it.
#[verifier::external_body]
fn insert_char(text: &str, cursor: usize, c: char) -> (r: (String, usize))
    ensures
        r.0@ == text@.insert(clamped(cursor as nat, text@.len()) as int, c),
        r.1 == clamped(cursor as nat, text@.len()) + 1,
{
    let mut input = tui_input::Input::new(text.to_string()).with_cursor(cursor);
    input.handle(InputRequest::InsertChar(c));
    (input.value().to_string(), input.cursor())
}

/// Calls `tui_input::Input::handle` with the request that moves the cursor as
/// `motion` says, on a field made of `text` and `cursor`. The text stays as
/// it is, and the cursor ends up no further than its end.
#[verifier::external_body]
fn move_cursor(text: &str, cursor: usize, motion: Motion) -> (r: (String, usize))
    ensures
        (r.0@, r.1 as nat) == edited(text@, cursor as nat, EditRequest::GoTo(motion)),
        r.0@ == text@,
        r.1 <= r.0@.len(),
{
    let mut input = tui_input::Input::new(text.to_string()).with_cursor(cursor);
    input.handle(match motion {
        Motion::To(position) => InputRequest::SetCursor(position),
        Motion::PrevChar => InputRequest::GoToPrevChar,
        Motion::NextChar => InputRequest::GoToNextChar,
        Motion::PrevWord => InputRequest::GoToPrevWord,
        Motion::NextWord => InputRequest::GoToNextWord,
        Motion::Start => InputRequest::GoToStart,
        Motion::End => InputRequest::GoToEnd,
    });
    (input.value().to_string(), input.cursor())
}

/// Calls `tui_input::Input::handle` with the request that deletes what
/// `deletion` says, on a field made of `text` and `cursor`. The cursor ends
/// up no further than the end of what is left of the text.
#[verifier::external_body]
fn delete(text: &str, cursor: usize, deletion: Deletion) -> (r: (String, usize))
    ensures
        (r.0@, r.1 as nat) == edited(text@, cursor as nat, EditRequest::Delete(deletion)),
        r.1 <= r.0@.len(),
{
    let mut input = tui_input::Input::new(text.to_string()).with_cursor(cursor);
    input.handle(match deletion {
        Deletion::PrevChar => InputRequest::DeletePrevChar,
        Deletion::NextChar => InputRequest::DeleteNextChar,
        Deletion::PrevWord => InputRequest::DeletePrevWord,
        Deletion::NextWord => InputRequest::DeleteNextWord,
        Deletion::Line => InputRequest::DeleteLine,
        Deletion::TillEnd => InputRequest::DeleteTillEnd,
    });
    (input.value().to_string(), input.cursor())
}

/// Calls `tui_input::Input::visual_scroll` on a field made of `text` and
/// `cursor`, for a window `width` columns wide.
#[verifier::external_body]
fn visual_scroll(text: &str, cursor: usize, width: usize) -> (scroll: usize)
    ensures
        scroll == scroll_offset(text@, cursor as nat, width as nat),
{
    tui_input::Input::new(text.to_string()).with_cursor(cursor).visual_scroll(width)
}

/// What a text field holds.
pub struct InputView {
    pub text: Seq<char>,
    /// The cursor's position, counted in characters.
    pub cursor: nat,
}

impl InputView {
    /// The field with no text.
    pub open spec fn empty() -> InputView {
        InputView { text: Seq::empty(), cursor: 0 }
    }

    /// The cursor is no further than the end of the text.
    pub open spec fn wf(self) -> bool {
        self.cursor <= self.text.len()
    }

    /// The field after `c` is typed: the character goes in at the cursor,
    /// and the cursor moves past it.
    pub open spec fn typed(self, c: char) -> InputView {
        InputView {
            text: self.text.insert(clamped(self.cursor, self.text.len()) as int, c),
            cursor: clamped(self.cursor, self.text.len()) + 1,
        }
    }

    /// The field after one edit. A typed character goes in at the cursor. A
    /// move of the cursor leaves the text as it is; where the cursor goes,
    /// and what a deletion leaves, is what `tui_input` makes of the request.
    pub open spec fn after(self, request: EditRequest) -> InputView {
        match request {
            EditRequest::InsertChar(c) => self.typed(c),
            EditRequest::GoTo(_) => InputView {
                text: self.text,
                cursor: edited(self.text, self.cursor, request).1,
            },
            EditRequest::Delete(_) => InputView {
                text: edited(self.text, self.cursor, request).0,
                cursor: edited(self.text, self.cursor, request).1,
            },
        }
    }
}

/// The text field in which a task is typed: a line of text and a cursor,
/// which is never further than the end of the text.
#[derive(Debug)]
pub struct Input {
    value: String,
    cursor: usize,
}

impl View for Input {
    type V = InputView;

    closed spec fn view(&self) -> InputView {
        InputView { text: self.value@, cursor: self.cursor as nat }
    }
}

impl Default for Input {
    fn default() -> (input: Input)
        ensures
            input@ == InputView::empty(),
            input@.wf(),
    {
        Input { value: String::new(), cursor: 0 }
    }
}

impl Input {
    /// What holds of every field: the cursor is within the text.
    #[verifier::type_invariant]
    pub open spec fn inv(self) -> bool {
        self@.wf()
    }

    /// The text of the field.
    pub fn value(&self) -> (text: &str)
        ensures
            text@ == self@.text,
    {
        self.value.as_str()
    }

    /// The cursor's position, counted in characters. It is no further than
    /// the end of the text.
    pub fn cursor(&self) -> (cursor: usize)
        ensures
            cursor == self@.cursor,
            cursor <= self@.text.len(),
    {
        proof {
            use_type_invariant(self);
        }
        self.cursor
    }

    /// The number of columns by which the text has to be shifted so that the
    /// cursor is seen in a window `width` columns wide.
    pub fn visual_scroll(&self, width: usize) -> (scroll: usize)
        ensures
            scroll == scroll_offset(self@.text, self@.cursor, width as nat),
    {
        visual_scroll(self.value.as_str(), self.cursor, width)
    }

    /// Empties the field.
    pub fn reset(&mut self)
        ensures
            final(self)@ == InputView::empty(),
            final(self)@.wf(),
    {
        *self = Input { value: String::new(), cursor: 0 };
    }

    /// Applies one edit to the field.
    pub fn handle(&mut self, request: EditRequest)
        ensures
            final(self)@ == old(self)@.after(request),
            final(self)@.wf(),
    {
        let (value, cursor) = match request {
            EditRequest::InsertChar(c) => insert_char(self.value.as_str(), self.cursor, c),
            EditRequest::GoTo(motion) => move_cursor(self.value.as_str(), self.cursor, motion),
            EditRequest::Delete(deletion) => delete(self.value.as_str(), self.cursor, deletion),
        };
        *self = Input { value, cursor };
    }
}

} // verus!
