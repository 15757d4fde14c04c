//! What the screen shows: dialogs, colors, and the panes' and status line's
//! contents.
pub mod dialog;
pub mod screen;
pub mod theme;
