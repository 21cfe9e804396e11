//! Single text-edit buffers.

use crossterm::event::{Event as TermEvent, KeyCode as TermCode, KeyEvent as TermKey, KeyModifiers};
use tui_input::backend::crossterm::EventHandler;
use tui_input::Input;
use vstd::prelude::*;
use vstd::string::StrSliceExecFns;

use crate::event::{KeyCode, KeyEvent, MOD_NONE, MOD_SHIFT};

verus! {

/// A text with a cursor in it. The cursor counts characters and never
/// stands behind the end of the text.
#[derive(Debug, PartialEq, Eq)]
pub struct Field {
    text: String,
    cursor: usize,
}

/// Mathematical value of a [`Field`].
pub struct FieldView {
    pub text: Seq<char>,
    pub cursor: nat,
}

/// Text and cursor that the line editor leaves when `key` is pressed on
/// `text` with the cursor at `cursor`.
pub uninterp spec fn edited_text(text: Seq<char>, cursor: nat, key: KeyEvent) -> (Seq<char>, nat);

/// The character that `key` types: the character of a character key pressed
/// alone or with shift.
pub open spec fn typed_char(key: KeyEvent) -> Option<char> {
    match key.code {
        KeyCode::Char(c) => if key.modifiers == MOD_NONE || key.modifiers == MOD_SHIFT {
            Some(c)
        } else {
            None
        },
        _ => None,
    }
}

/// True of the two keys that end an edit and are not shown to the line
/// editor.
pub open spec fn ends_edit(key: KeyEvent) -> bool {
    key.code == KeyCode::Esc || key.code == KeyCode::Enter
}

/// `text` with `c` put in at the place `cursor`.
pub open spec fn text_with_char(text: Seq<char>, cursor: nat, c: char) -> Seq<char> {
    text.subrange(0, cursor as int).push(c) + text.subrange(cursor as int, text.len() as int)
}

impl FieldView {
    /// The cursor stands within the text or at its end.
    pub open spec fn wf(self) -> bool {
        self.cursor <= self.text.len()
    }

    /// `text` with the cursor at `cursor`, or at the end where `cursor`
    /// lies behind it.
    pub open spec fn placed(text: Seq<char>, cursor: nat) -> FieldView {
        FieldView { text, cursor: if cursor <= text.len() { cursor } else { text.len() } }
    }

    /// `text` with the cursor at its end.
    pub open spec fn of(text: Seq<char>) -> FieldView {
        FieldView { text, cursor: text.len() }
    }

    /// The empty buffer.
    pub open spec fn blank() -> FieldView {
        FieldView { text: Seq::empty(), cursor: 0 }
    }

    /// The buffer with `c` typed at the cursor.
    pub open spec fn with_char(self, c: char) -> FieldView {
        FieldView { text: text_with_char(self.text, self.cursor, c), cursor: self.cursor + 1 }
    }

    /// The buffer without the character in front of the cursor.
    pub open spec fn without_previous(self) -> FieldView {
        if self.cursor == 0 {
            self
        } else {
            FieldView {
                text: self.text.remove(self.cursor - 1),
                cursor: (self.cursor - 1) as nat,
            }
        }
    }

    /// The buffer without the character behind the cursor.
    pub open spec fn without_next(self) -> FieldView {
        if self.cursor >= self.text.len() {
            self
        } else {
            FieldView { text: self.text.remove(self.cursor as int), ..self }
        }
    }

    /// The buffer with the cursor one character to the left.
    pub open spec fn moved_left(self) -> FieldView {
        if self.cursor == 0 {
            self
        } else {
            FieldView { cursor: (self.cursor - 1) as nat, ..self }
        }
    }

    /// The buffer with the cursor one character to the right.
    pub open spec fn moved_right(self) -> FieldView {
        if self.cursor >= self.text.len() {
            self
        } else {
            FieldView { cursor: self.cursor + 1, ..self }
        }
    }

    /// What a key of a plain meaning makes of the buffer: a typed character
    /// is put in at the cursor; pressed alone, backspace and delete take
    /// out the character in front of the cursor and the one behind it, the
    /// arrows to the left and to the right move the cursor by a character,
    /// and home and end move it to the start and to the end of the text;
    /// the arrows up and down and the keys without a meaning change
    /// nothing. No plain meaning is stated of the other keys.
    pub open spec fn plainly_edited(self, key: KeyEvent) -> Option<FieldView> {
        match key.code {
            KeyCode::Char(c) => match typed_char(key) {
                Some(c) => Some(self.with_char(c)),
                None => None,
            },
            KeyCode::Up | KeyCode::Down | KeyCode::Other => Some(self),
            _ => if key.modifiers != MOD_NONE {
                None
            } else {
                match key.code {
                    KeyCode::Backspace => Some(self.without_previous()),
                    KeyCode::Delete => Some(self.without_next()),
                    KeyCode::Left => Some(self.moved_left()),
                    KeyCode::Right => Some(self.moved_right()),
                    KeyCode::Home => Some(FieldView { cursor: 0, ..self }),
                    KeyCode::End => Some(FieldView { cursor: self.text.len(), ..self }),
                    _ => None,
                }
            },
        }
    }

    /// The buffer after `key` was pressed in it: the two keys that end an
    /// edit change nothing, a key of a plain meaning does what
    /// [`FieldView::plainly_edited`] says, and what any other key does,
    /// such as a key pressed with control, is left to the line editor.
    pub open spec fn edited(self, key: KeyEvent) -> FieldView {
        if ends_edit(key) {
            self
        } else {
            match self.plainly_edited(key) {
                Some(field) => field,
                None => {
                    let (text, cursor) = edited_text(self.text, self.cursor, key);
                    FieldView::placed(text, cursor)
                },
            }
        }
    }
}

impl View for Field {
    type V = FieldView;

    closed spec fn view(&self) -> FieldView {
        FieldView { text: self.text@, cursor: self.cursor as nat }
    }
}

/// Lets the line editor of `tui_input` handle one key press: an `Input` is
/// made of `text` and `cursor`, `key` is handed to its `handle_event` as a
/// key event of the terminal, and the text and cursor it is left with come
/// back. The contract names that result, and says what it is for the keys
/// of a plain meaning, as the key table and the editing steps of the
/// editor show it. The two keys that end an edit are never shown to the
/// editor, and a key without a meaning is shown to it as the null key.
#[verifier::external_body]
fn edit_text(text: &str, cursor: usize, key: &KeyEvent) -> (edited: (String, usize))
    requires
        !ends_edit(*key),
    ensures
        edited.0@ == edited_text(text@, cursor as nat, *key).0,
        edited.1 as nat == edited_text(text@, cursor as nat, *key).1,
        cursor <= text@.len() ==> match (FieldView { text: text@, cursor: cursor as nat })
            .plainly_edited(*key) {
            Some(field) => edited.0@ == field.text && edited.1 == field.cursor,
            None => true,
        },
{
    let code = match key.code {
        KeyCode::Backspace => TermCode::Backspace,
        KeyCode::Left => TermCode::Left,
        KeyCode::Right => TermCode::Right,
        KeyCode::Up => TermCode::Up,
        KeyCode::Down => TermCode::Down,
        KeyCode::Home => TermCode::Home,
        KeyCode::End => TermCode::End,
        KeyCode::Delete => TermCode::Delete,
        KeyCode::Char(c) => TermCode::Char(c),
        _ => TermCode::Null,
    };
    let mut input = Input::new(text.to_string()).with_cursor(cursor);
    input.handle_event(&TermEvent::Key(TermKey::new(code, KeyModifiers::from_bits_truncate(key.modifiers))));
    (input.value().to_string(), input.cursor())
}

impl Field {
    #[verifier::type_invariant]
    spec fn inv(&self) -> bool {
        self.cursor <= self.text@.len()
    }

    /// A buffer that holds `text`, with the cursor at its end.
    pub fn new(text: String) -> (field: Field)
        ensures
            field@ == FieldView::of(text@),
    {
        let cursor = text.as_str().unicode_len();
        Field { text, cursor }
    }

    /// The empty buffer.
    pub fn blank() -> (field: Field)
        ensures
            field@ == FieldView::blank(),
    {
        Field { text: String::new(), cursor: 0 }
    }

    /// A buffer that holds `text`, with the cursor at `cursor` or, where
    /// that lies behind the end, at the end.
    pub fn placed(text: String, cursor: usize) -> (field: Field)
        ensures
            field@ == FieldView::placed(text@, cursor as nat),
    {
        let len = text.as_str().unicode_len();
        let cursor = if cursor <= len { cursor } else { len };
        Field { text, cursor }
    }

    /// The text held.
    pub fn value(&self) -> (text: &str)
        ensures
            text@ == self@.text,
    {
        self.text.as_str()
    }

    /// The cursor: the number of characters in front of it.
    pub fn cursor(&self) -> (cursor: usize)
        ensures
            cursor == self@.cursor,
            self@.wf(),
    {
        proof {
            use_type_invariant(self);
        }
        self.cursor
    }

    /// Lets the line editor handle `key`, unless it is one of the two keys
    /// that end an edit.
    pub fn handle(&mut self, key: &KeyEvent)
        ensures
            final(self)@ == old(self)@.edited(*key),
            final(self)@.wf(),
    {
        proof {
            use_type_invariant(&*self);
        }
        match key.code {
            KeyCode::Esc | KeyCode::Enter => {},
            _ => {
                let (text, cursor) = edit_text(self.text.as_str(), self.cursor, key);
                *self = Field::placed(text, cursor);
            },
        }
    }
}

} // verus!
