//! The state of the client's input line.

use vstd::prelude::*;
use vstd::string::StringSliceAdditionalSpecFns;
use vstd::utf8::encode_utf8;
use vstd::utf8::is_char_boundary;

verus! {

/// `String::insert`: puts the character in at a byte position, between the
/// characters before that position and those from it on. The outside
/// function panics unless the position lies on a character boundary.
pub assume_specification[ std::string::String::insert ](
    s: &mut std::string::String,
    idx: usize,
    ch: char,
)
    requires
        is_char_boundary(encode_utf8(old(s)@), idx as int),
    ensures
        exists|k: int|
            0 <= k <= old(s)@.len() && #[trigger] encode_utf8(old(s)@.subrange(0, k)).len() == idx
                && final(s)@ == old(s)@.insert(k, ch),
;

/// `String::pop`: takes the last character off and gives it, or gives
/// `None` for an empty string.
pub assume_specification[ std::string::String::pop ](s: &mut std::string::String) -> (r: Option<
    char,
>)
    ensures
        old(s)@.len() == 0 ==> r is None && final(s)@ == old(s)@,
        old(s)@.len() > 0 ==> r == Some(old(s)@.last()) && final(s)@ == old(s)@.drop_last(),
;

/// `String::clear`: empties the string.
pub assume_specification[ std::string::String::clear ](s: &mut std::string::String)
    ensures
        final(s)@ == Seq::<char>::empty(),
;

/// Whether the input line takes what is typed.
#[derive(Clone, Copy, Debug, PartialEq, Eq, Structural)]
pub enum InputMode {
    Normal,
    Editing,
}

/// An input line: its content, the cursor, and the mode.
#[derive(Debug)]
pub struct InputController {
    /// The content of the line.
    pub buf: String,
    /// The position of the cursor, in bytes from the start of the line.
    pub cursor_pos: usize,
    /// The mode of the line.
    pub input_mode: InputMode,
}

/// The length of a text in bytes.
pub open spec fn byte_len(s: Seq<char>) -> nat {
    encode_utf8(s).len()
}

/// `a` where it is not over `limit`, else `limit`.
pub open spec fn at_most(a: int, limit: int) -> int {
    if a <= limit {
        a
    } else {
        limit
    }
}

impl Default for InputController {
    /// An empty line, in editing mode.
    fn default() -> (c: InputController)
        ensures
            c.buf@ == Seq::<char>::empty(),
            c.cursor_pos == 0,
            c.input_mode == InputMode::Editing,
    {
        InputController { buf: String::new(), cursor_pos: 0, input_mode: InputMode::Editing }
    }
}

impl InputController {
    /// The length of the line in bytes.
    fn len(&self) -> (n: usize)
        ensures
            n == byte_len(self.buf@),
    {
        self.buf.as_str().as_bytes().len()
    }

    /// Whether the line is in editing mode.
    pub fn is_editing_mode(&self) -> (r: bool)
        ensures
            r == (self.input_mode == InputMode::Editing),
    {
        self.input_mode == InputMode::Editing
    }

    /// Puts the line in normal mode.
    pub fn normal_mode(&mut self)
        ensures
            final(self).input_mode == InputMode::Normal,
            final(self).buf == old(self).buf,
            final(self).cursor_pos == old(self).cursor_pos,
    {
        self.input_mode = InputMode::Normal;
    }

    /// Puts the line in editing mode.
    pub fn editing_mode(&mut self)
        ensures
            final(self).input_mode == InputMode::Editing,
            final(self).buf == old(self).buf,
            final(self).cursor_pos == old(self).cursor_pos,
    {
        self.input_mode = InputMode::Editing;
    }

    /// The cursor position nearest to `new_cursor_pos` that lies within the
    /// line.
    pub fn clamp_cursor(&self, new_cursor_pos: usize) -> (pos: usize)
        ensures
            pos == at_most(new_cursor_pos as int, byte_len(self.buf@) as int),
    {
        let len = self.len();
        if new_cursor_pos <= len {
            new_cursor_pos
        } else {
            len
        }
    }

    /// Moves the cursor one byte to the left, unless it is at the start.
    pub fn move_cursor_left(&mut self)
        ensures
            final(self).buf == old(self).buf,
            final(self).input_mode == old(self).input_mode,
            final(self).cursor_pos == at_most(
                if old(self).cursor_pos == 0 {
                    0
                } else {
                    old(self).cursor_pos - 1
                },
                byte_len(old(self).buf@) as int,
            ),
    {
        let cursor_moved_left = if self.cursor_pos == 0 {
            0
        } else {
            self.cursor_pos - 1
        };
        self.cursor_pos = self.clamp_cursor(cursor_moved_left);
    }

    /// Moves the cursor one byte to the right, unless it is at the end.
    pub fn move_cursor_right(&mut self)
        ensures
            final(self).buf == old(self).buf,
            final(self).input_mode == old(self).input_mode,
            final(self).cursor_pos == at_most(
                if old(self).cursor_pos == usize::MAX {
                    usize::MAX as int
                } else {
                    old(self).cursor_pos + 1
                },
                byte_len(old(self).buf@) as int,
            ),
    {
        let cursor_moved_right = if self.cursor_pos == usize::MAX {
            usize::MAX
        } else {
            self.cursor_pos + 1
        };
        self.cursor_pos = self.clamp_cursor(cursor_moved_right);
    }

    /// Puts `ch` into the line at the cursor and moves the cursor one byte
    /// to the right. The cursor must lie on a character boundary.
    pub fn enter_char(&mut self, ch: char)
        requires
            is_char_boundary(encode_utf8(old(self).buf@), old(self).cursor_pos as int),
        ensures
            final(self).input_mode == old(self).input_mode,
            exists|k: int|
                0 <= k <= old(self).buf@.len() && #[trigger] byte_len(old(self).buf@.subrange(0, k))
                    == old(self).cursor_pos && final(self).buf@ == old(self).buf@.insert(k, ch),
            final(self).cursor_pos == at_most(
                if old(self).cursor_pos == usize::MAX {
                    usize::MAX as int
                } else {
                    old(self).cursor_pos + 1
                },
                byte_len(final(self).buf@) as int,
            ),
    {
        self.buf.insert(self.cursor_pos, ch);
        proof {
            let k = choose|k: int|
                0 <= k <= old(self).buf@.len() && #[trigger] encode_utf8(
                    old(self).buf@.subrange(0, k),
                ).len() == old(self).cursor_pos && self.buf@ == old(self).buf@.insert(k, ch);
            assert(byte_len(old(self).buf@.subrange(0, k)) == old(self).cursor_pos);
        }
        self.move_cursor_right();
    }

    /// Takes the last character off the line and moves the cursor one byte
    /// to the left.
    pub fn delete_char(&mut self)
        ensures
            final(self).input_mode == old(self).input_mode,
            final(self).buf@ == if old(self).buf@.len() == 0 {
                old(self).buf@
            } else {
                old(self).buf@.drop_last()
            },
            final(self).cursor_pos == at_most(
                if old(self).cursor_pos == 0 {
                    0
                } else {
                    old(self).cursor_pos - 1
                },
                byte_len(final(self).buf@) as int,
            ),
    {
        self.buf.pop();
        self.move_cursor_left();
    }

    /// Puts the cursor at the start of the line.
    pub fn reset_cursor_pos(&mut self)
        ensures
            final(self).cursor_pos == 0,
            final(self).buf == old(self).buf,
            final(self).input_mode == old(self).input_mode,
    {
        self.cursor_pos = 0;
    }

    /// Empties the line and puts the cursor at its start.
    pub fn clear_input_box(&mut self)
        ensures
            final(self).buf@ == Seq::<char>::empty(),
            final(self).cursor_pos == 0,
            final(self).input_mode == old(self).input_mode,
    {
        self.buf.clear();
        self.reset_cursor_pos();
    }
}

} // verus!
