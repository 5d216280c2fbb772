//! Core logic of a terminal journaling application: the screens, input
//! modes, text-editing and navigation rules that interpret keystrokes and
//! decide what happens next. Rendering, persistence and process setup are
//! collaborators that live outside this crate's verified code.

pub mod app;
pub mod config;
pub mod date;
pub mod decimal;
pub mod editor;
pub mod entries;
pub mod journal;
pub mod strutil;

pub use config::Config;
pub use config::FileFormat;
pub use editor::EditBuffer;
