//! The state of a modal text editor.
use vstd::prelude::*;

verus! {

/// What keystrokes do in the editor.
#[derive(Clone, Copy, Debug, PartialEq, Eq, Structural)]
pub enum EditorMode {
    Normal,
    Visual,
    Insert,
}

/// A text buffer, held as lines of characters, with a cursor and a mode.
#[allow(dead_code)]
pub struct Editor {
    mode: EditorMode,
    cursor: (usize, usize),
    buffer: Vec<Vec<char>>,
}

} // verus!
