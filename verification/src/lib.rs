//! Render/input core of a minimal full-screen terminal text editor.
//!
//! The library owns the cursor, the quit flag, and the computation of every
//! frame the editor paints; the surrounding binary only performs the raw
//! terminal I/O and hands key events back in.

pub mod editor;
pub mod row;

pub use editor::Editor;
pub use editor::Frame;
pub use editor::Key;
pub use editor::Position;
pub use row::Row;
