//! The modal line editor used for renaming: an editable text buffer and a
//! cursor column within a fixed window.
//!
//! The cursor is kept as an absolute terminal column, as the renderer needs
//! it: the column just inside the window's left edge (`pos.0 + 1`) denotes
//! the position before the first character, and each step right moves past
//! one character, up to one past the end of the content.

use vstd::prelude::*;
use crate::keys::Key;

verus! {

/// What one handled key asks the surrounding modal loop to do next.
#[derive(Clone, Copy, Debug, PartialEq, Eq)]
pub enum EditorAction {
    /// Keep reading keys and repaint.
    Continue,
    /// The edit was confirmed; the caller reads the final content.
    Commit,
    /// The edit was abandoned; the caller ignores the content.
    Cancel,
}

/// The editor window: geometry, title, the text being edited and the
/// absolute terminal column of the edit cursor.
pub struct InputWindow {
    /// Width and height of the box, in terminal cells.
    pub size: (u16, u16),
    /// Terminal column and row of the box's left edge.
    pub pos: (u16, u16),
    pub title: String,
    /// Absolute terminal column the next insertion applies at.
    pub cursor_x: u16,
    /// The text being edited.
    pub content: String,
}

/// The window's geometry and title are untouched by an edit step.
pub open spec fn geometry_unchanged(pre: InputWindow, post: InputWindow) -> bool {
    &&& post.size == pre.size
    &&& post.pos == pre.pos
    &&& post.title == pre.title
}

/// A backspace: with the cursor at the start (or the content empty) nothing
/// happens; otherwise the character just before the cursor is removed and
/// the cursor moves back by one.
pub open spec fn char_removed(pre: InputWindow, post: InputWindow) -> bool {
    if pre.edit_index() == 0 {
        post == pre
    } else {
        &&& geometry_unchanged(pre, post)
        &&& post.content@ == pre.content@.remove(pre.edit_index() - 1)
        &&& post.cursor_x == pre.cursor_x - 1
    }
}

/// An insertion: `c` enters the content at the cursor's position (an append
/// when the cursor sits one past the end) and the cursor advances by one.
pub open spec fn char_inserted(pre: InputWindow, post: InputWindow, c: char) -> bool {
    &&& geometry_unchanged(pre, post)
    &&& post.content@ == pre.content@.insert(pre.edit_index(), c)
    &&& post.cursor_x == pre.cursor_x + 1
}

/// A step left, clamped at the column before the first character.
pub open spec fn cursor_moved_left(pre: InputWindow, post: InputWindow) -> bool {
    &&& geometry_unchanged(pre, post)
    &&& post.content == pre.content
    &&& post.cursor_x == (if pre.cursor_x > pre.pos.0 + 1 {
        (pre.cursor_x - 1) as int
    } else {
        pre.cursor_x as int
    })
}

/// A step right, clamped at the column one past the last character.
pub open spec fn cursor_moved_right(pre: InputWindow, post: InputWindow) -> bool {
    &&& geometry_unchanged(pre, post)
    &&& post.content == pre.content
    &&& post.cursor_x == (if pre.cursor_x < pre.pos.0 + pre.content@.len() + 1 {
        (pre.cursor_x + 1) as int
    } else {
        pre.cursor_x as int
    })
}

/// Relies on `String::push`: appends the given character at the end of the
/// string and changes nothing else.
#[verifier::external_body]
fn push_char(s: &mut String, c: char)
    ensures
        final(s)@ == old(s)@.push(c),
{
    s.push(c)
}

impl InputWindow {
    /// Well-formedness: the cursor column lies between the column just
    /// inside the window's left edge and the column one past the end of the
    /// content, and that whole range fits the column type.
    pub open spec fn wf(self) -> bool {
        &&& self.pos.0 + 1 <= self.cursor_x
        &&& self.cursor_x <= self.pos.0 + self.content@.len() + 1
        &&& self.pos.0 + self.content@.len() + 1 <= u16::MAX
    }

    /// The index into the content that the cursor column denotes: the next
    /// insertion lands there.
    pub open spec fn edit_index(self) -> int {
        self.cursor_x - self.pos.0 - 1
    }

    /// A fresh editor for a terminal of the given size: a box of half the
    /// terminal's width and height, its left edge at a quarter of the
    /// width, vertically centered; empty content with the cursor at its
    /// start.
    pub fn new(term_width: u16, term_height: u16) -> (w: InputWindow)
        ensures
            w.wf(),
            w.size.0 == term_width / 2,
            w.size.1 == term_height / 2,
            w.pos.0 == term_width / 4,
            w.pos.1 == term_height / 2,
            w.title@ == "Input Window"@,
            w.content@ == Seq::<char>::empty(),
            w.cursor_x == w.pos.0 + 1,
    {
        let pos_x: u16 = term_width / 4;
        InputWindow {
            size: (term_width / 2, term_height / 2),
            pos: (pos_x, term_height / 2),
            title: String::from_str("Input Window"),
            cursor_x: pos_x + 1,
            content: String::new(),
        }
    }

    /// Replaces the content and puts the cursor at its end, ready to
    /// append.
    pub fn set_content(&mut self, content: String)
        requires
            old(self).pos.0 + content@.len() + 1 <= u16::MAX,
        ensures
            final(self).wf(),
            final(self).content == content,
            final(self).cursor_x == old(self).pos.0 + content@.len() + 1,
            final(self).edit_index() == content@.len(),
            geometry_unchanged(*old(self), *final(self)),
    {
        let len = content.as_str().unicode_len();
        self.cursor_x = self.pos.0 + (len as u16) + 1;
        self.content = content;
    }

    /// Resizes the box; the buffer and cursor are untouched.
    pub fn set_size(&mut self, width: u16, height: u16)
        ensures
            final(self).size == (width, height),
            final(self).pos == old(self).pos,
            final(self).title == old(self).title,
            final(self).cursor_x == old(self).cursor_x,
            final(self).content == old(self).content,
            old(self).wf() ==> final(self).wf(),
    {
        self.size = (width, height);
    }

    /// Moves the box; the cursor keeps its offset into the content.
    pub fn set_position(&mut self, x: u16, y: u16)
        requires
            old(self).wf(),
            x + old(self).content@.len() + 1 <= u16::MAX,
        ensures
            final(self).wf(),
            final(self).pos == (x, y),
            final(self).size == old(self).size,
            final(self).title == old(self).title,
            final(self).content == old(self).content,
            final(self).edit_index() == old(self).edit_index(),
    {
        let offset: u16 = self.cursor_x - self.pos.0;
        self.pos = (x, y);
        self.cursor_x = x + offset;
    }

    /// Replaces the window title; everything else is untouched.
    pub fn set_title(&mut self, title: String)
        ensures
            final(self).title == title,
            final(self).size == old(self).size,
            final(self).pos == old(self).pos,
            final(self).cursor_x == old(self).cursor_x,
            final(self).content == old(self).content,
            old(self).wf() ==> final(self).wf(),
    {
        self.title = title;
    }

    /// Inserts a character at the cursor.
    pub fn add_char(&mut self, new_char: char)
        requires
            old(self).wf(),
            old(self).pos.0 + old(self).content@.len() + 2 <= u16::MAX,
        ensures
            final(self).wf(),
            char_inserted(*old(self), *final(self), new_char),
    {
        let i_col: u16 = self.cursor_x - self.pos.0 - 1;
        let i = i_col as usize;
        let len = self.content.as_str().unicode_len();
        let mut result = String::from_str(self.content.as_str().substring_char(0, i));
        push_char(&mut result, new_char);
        result.append(self.content.as_str().substring_char(i, len));
        proof {
            assert(result@ =~= self.content@.insert(self.edit_index(), new_char));
        }
        self.content = result;
        self.cursor_x = self.cursor_x + 1;
    }

    /// Removes the character just before the cursor (backspace); a no-op
    /// with the cursor at the start or the content empty.
    pub fn remove_char(&mut self)
        requires
            old(self).wf(),
        ensures
            final(self).wf(),
            char_removed(*old(self), *final(self)),
    {
        if self.cursor_x == self.pos.0 + 1 {
            return;
        }
        let i_col: u16 = self.cursor_x - self.pos.0 - 1;
        let i = i_col as usize;
        let len = self.content.as_str().unicode_len();
        let mut result = String::from_str(self.content.as_str().substring_char(0, i - 1));
        result.append(self.content.as_str().substring_char(i, len));
        proof {
            assert(result@ =~= self.content@.remove(self.edit_index() - 1));
        }
        self.content = result;
        self.cursor_x = self.cursor_x - 1;
    }

    /// Moves the cursor one column left, clamped at the content's start.
    pub fn move_cursor_left(&mut self)
        requires
            old(self).wf(),
        ensures
            final(self).wf(),
            cursor_moved_left(*old(self), *final(self)),
    {
        if self.cursor_x > self.pos.0 + 1 {
            self.cursor_x = self.cursor_x - 1;
        }
    }

    /// Moves the cursor one column right, clamped just past the content's
    /// end.
    pub fn move_cursor_right(&mut self)
        requires
            old(self).wf(),
        ensures
            final(self).wf(),
            cursor_moved_right(*old(self), *final(self)),
    {
        let len = self.content.as_str().unicode_len();
        if self.cursor_x < self.pos.0 + (len as u16) + 1 {
            self.cursor_x = self.cursor_x + 1;
        }
    }

    /// One keypress of the modal rename loop: printable characters insert,
    /// Backspace deletes, Left/Right move, Enter commits only when the
    /// content is non-empty (an empty Enter is swallowed), Ctrl-C cancels,
    /// and anything else is ignored.
    pub fn handle_key(&mut self, key: Key) -> (action: EditorAction)
        requires
            old(self).wf(),
            (key matches Key::Char(c) && c != '\n') ==> old(self).pos.0 + old(self).content@.len() + 2 <= u16::MAX,
        ensures
            final(self).wf(),
            match key {
                Key::Backspace => action == EditorAction::Continue && char_removed(
                    *old(self),
                    *final(self),
                ),
                Key::Ctrl(c) => (if c == 'c' {
                    action == EditorAction::Cancel
                } else {
                    action == EditorAction::Continue
                }) && *final(self) == *old(self),
                Key::Left => action == EditorAction::Continue && cursor_moved_left(
                    *old(self),
                    *final(self),
                ),
                Key::Right => action == EditorAction::Continue && cursor_moved_right(
                    *old(self),
                    *final(self),
                ),
                Key::Char(c) => if c == '\n' {
                    &&& *final(self) == *old(self)
                    &&& action == (if old(self).content@.len() == 0 {
                        EditorAction::Continue
                    } else {
                        EditorAction::Commit
                    })
                } else {
                    action == EditorAction::Continue && char_inserted(
                        *old(self),
                        *final(self),
                        c,
                    )
                },
                Key::Other => action == EditorAction::Continue && *final(self) == *old(self),
            },
    {
        match key {
            Key::Backspace => {
                self.remove_char();
                EditorAction::Continue
            },
            Key::Ctrl(c) => {
                if c == 'c' {
                    EditorAction::Cancel
                } else {
                    EditorAction::Continue
                }
            },
            Key::Left => {
                self.move_cursor_left();
                EditorAction::Continue
            },
            Key::Right => {
                self.move_cursor_right();
                EditorAction::Continue
            },
            Key::Char(c) => {
                if c == '\n' {
                    if self.content.as_str().unicode_len() > 0 {
                        EditorAction::Commit
                    } else {
                        EditorAction::Continue
                    }
                } else {
                    self.add_char(c);
                    EditorAction::Continue
                }
            },
            Key::Other => EditorAction::Continue,
        }
    }
}

} // verus!
