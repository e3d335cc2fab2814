//! The editing engine of a small modal text editor: a character buffer with
//! its line index, a cursor, a viewport, the two-mode key handling and the
//! frame that a terminal front end draws.

pub mod editor;
pub mod laws;
pub mod line;
pub mod mode;
pub mod motion;
pub mod render;

pub use editor::Editor;
pub use editor::EditorView;
pub use line::Line;
pub use mode::Action;
pub use mode::Key;
pub use mode::KeyPress;
pub use mode::Mode;
pub use mode::Transition;
pub use render::Frame;
