//! Models of the two terminal views: the channel selector and the viewer
//! of cached titles. Drawing and reading keys are the caller's.

pub mod groups;
pub mod keys;
pub mod state;
pub mod title_viewer;

pub use groups::build_tui_groups;
pub use keys::Key;
