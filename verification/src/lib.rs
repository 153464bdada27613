//! Penny's annotation logic: tools and palette, the undo/redo history of
//! committed marks, the overlay's input and mode state, keyboard and global
//! hotkey dispatch, the tray menu and the tray glyph.

pub mod model;
pub mod history;
pub mod hotkeys;
pub mod overlay;
pub mod keys;
pub mod tray;
pub mod toolbar;
