//! A character console for a kernel that talks to its firmware one character at a
//! time, and a leveled, colorized logger on top of it.
//!
//! `sink` turns text into the character codes to transmit, one per character. `level`
//! holds the severity levels with their colors and labels, `render` lays a record out
//! as one terminal line, and `logger` is the logger itself together with the state
//! that guards its one-time registration.

pub mod level;
pub mod logger;
pub mod render;
pub mod sink;

pub use level::{level_to_color_code, Level};
pub use logger::{init, InitError, LevelFilter, Metadata, Record, Registration, SimpleLogger};
pub use render::render;
pub use sink::{print, Stdout};
