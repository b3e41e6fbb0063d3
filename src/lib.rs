//! A small terminal text editor core: a line buffer addressed by character
//! positions, the scroll model that keeps the cursor on screen, the
//! directory browser that picks the file to edit, and the decisions of the
//! edit and browse loops.
use vstd::prelude::*;

pub mod buffer;
pub mod explorer;
pub mod session;
pub mod text;
pub mod viewport;

pub use buffer::{Direction, Editor};
pub use explorer::{Activated, BrowserEvent, BrowserStep, DirEntry, Explorer};
pub use session::{EditorAction, EditorEvent, EditorSession, EditorState};
pub use text::{join_text, split_lines};
pub use viewport::{recompute, Offsets};

verus! {

} // verus!
