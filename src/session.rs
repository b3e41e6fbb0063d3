//! The edit loop's decisions: how each key changes the buffer and the
//! session, and when the buffer is to be saved.
use vstd::prelude::*;

use crate::viewport::{recompute_spec, Offsets};
use crate::buffer::{
    delete_backward_doc, insert_char_doc, insert_newline_doc, move_doc, Direction, Doc, Editor,
};

verus! {

/// A key of the editor, decoded.
#[derive(Clone, Copy, Debug, PartialEq, Eq, Structural)]
pub enum EditorEvent {
    Char(char),
    Enter,
    Backspace,
    Arrow(Direction),
    Save,
    SaveAndQuit,
    Quit,
    ConfirmYes,
    ConfirmNo,
}

/// Where the session stands.
#[derive(Clone, Copy, Debug, PartialEq, Eq, Structural)]
pub enum EditorState {
    Editing,
    /// A quit with unsaved changes waits for the answer to "save?".
    ConfirmingSave,
    Closed,
}

/// What the session asks of its caller after a key.
#[derive(Clone, Copy, Debug, PartialEq, Eq, Structural)]
pub enum EditorAction {
    Nothing,
    /// Write `Editor::contents` to the file, then call `Editor::mark_saved`
    /// if that succeeded.
    Persist,
}

/// The document after a key typed while editing.
pub open spec fn edit_doc(d: Doc, event: EditorEvent) -> Doc {
    match event {
        EditorEvent::Char(c) => insert_char_doc(d, c),
        EditorEvent::Enter => insert_newline_doc(d),
        EditorEvent::Backspace => delete_backward_doc(d),
        EditorEvent::Arrow(dir) => move_doc(d, dir),
        _ => d,
    }
}

/// Whether a key typed while editing marks the buffer as changed.
pub open spec fn edit_changes(d: Doc, event: EditorEvent) -> bool {
    match event {
        EditorEvent::Char(_) => true,
        EditorEvent::Enter => true,
        EditorEvent::Backspace => d.1 > 0 || d.2 > 0,
        _ => false,
    }
}

/// The next state of the session.
pub open spec fn next_state(state: EditorState, dirty: bool, event: EditorEvent) -> EditorState {
    match state {
        EditorState::Editing => match event {
            EditorEvent::Quit => if dirty {
                EditorState::ConfirmingSave
            } else {
                EditorState::Closed
            },
            EditorEvent::SaveAndQuit => EditorState::Closed,
            _ => EditorState::Editing,
        },
        EditorState::ConfirmingSave => match event {
            EditorEvent::ConfirmYes => EditorState::Closed,
            EditorEvent::ConfirmNo => EditorState::Closed,
            _ => EditorState::ConfirmingSave,
        },
        EditorState::Closed => EditorState::Closed,
    }
}

/// Whether the key asks for the buffer to be saved.
pub open spec fn persists(state: EditorState, event: EditorEvent) -> bool {
    match state {
        EditorState::Editing => event is Save || event is SaveAndQuit,
        EditorState::ConfirmingSave => event is ConfirmYes,
        EditorState::Closed => false,
    }
}

/// An editing session on one buffer.
pub struct EditorSession {
    pub editor: Editor,
    pub state: EditorState,
}

impl EditorSession {
    /// A session editing `editor`.
    pub fn new(editor: Editor) -> (r: Self)
        ensures
            r.editor == editor,
            r.state == EditorState::Editing,
    {
        EditorSession { editor, state: EditorState::Editing }
    }

    /// Applies one key. While editing, typing, Enter, Backspace and the
    /// arrows change the buffer and then the scroll follows the cursor in a
    /// `width` by `height` screen. A quit closes the session at once when
    /// nothing is unsaved, else asks whether to save; the answer closes it,
    /// saving on yes. Save asks for a save; save-and-quit asks for one and
    /// closes the session.
    pub fn handle(&mut self, event: EditorEvent, width: usize, height: usize) -> (r: EditorAction)
        requires
            old(self).editor.wf(),
            width >= 1,
            height >= 1,
            old(self).state is Editing && event is Char ==> old(self).editor.text()[old(
                self,
            ).editor.cursor_y as int].len() < usize::MAX,
        ensures
            final(self).editor.wf(),
            final(self).state == next_state(old(self).state, old(self).editor.is_changed, event),
            (r == EditorAction::Persist) == persists(old(self).state, event),
            old(self).state is Editing ==> {
                &&& final(self).editor.doc() == edit_doc(old(self).editor.doc(), event)
                &&& final(self).editor.is_changed == (old(self).editor.is_changed || edit_changes(
                    old(self).editor.doc(),
                    event,
                ))
                &&& (final(self).editor.row_offset as int, final(self).editor.col_offset as int)
                    == recompute_spec(
                    final(self).editor.cursor_y as int,
                    final(self).editor.cursor_x as int,
                    width as int,
                    height as int,
                    Offsets {
                        row_offset: old(self).editor.row_offset,
                        col_offset: old(self).editor.col_offset,
                    },
                )
                &&& final(self).editor.row_offset <= final(self).editor.cursor_y
                    < final(self).editor.row_offset + height
                &&& final(self).editor.col_offset <= final(self).editor.cursor_x
                    < final(self).editor.col_offset + width
            },
            !(old(self).state is Editing) ==> final(self).editor == old(self).editor,
    {
        match self.state {
            EditorState::Editing => {
                let mut action = EditorAction::Nothing;
                match event {
                    EditorEvent::Char(c) => self.editor.insert_char(c),
                    EditorEvent::Enter => self.editor.insert_new_line(),
                    EditorEvent::Backspace => self.editor.delete_char(),
                    EditorEvent::Arrow(dir) => self.editor.move_cursor(dir),
                    EditorEvent::Save => {
                        action = EditorAction::Persist;
                    },
                    EditorEvent::SaveAndQuit => {
                        action = EditorAction::Persist;
                        self.state = EditorState::Closed;
                    },
                    EditorEvent::Quit => {
                        if self.editor.is_changed {
                            self.state = EditorState::ConfirmingSave;
                        } else {
                            self.state = EditorState::Closed;
                        }
                    },
                    _ => {},
                }
                self.editor.scroll(width, height);
                action
            },
            EditorState::ConfirmingSave => match event {
                EditorEvent::ConfirmYes => {
                    self.state = EditorState::Closed;
                    EditorAction::Persist
                },
                EditorEvent::ConfirmNo => {
                    self.state = EditorState::Closed;
                    EditorAction::Nothing
                },
                _ => EditorAction::Nothing,
            },
            EditorState::Closed => EditorAction::Nothing,
        }
    }
}

} // verus!
