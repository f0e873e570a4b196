//! The viewer of cached titles and their programs.

pub mod model;
pub mod state;
pub mod ui;

pub use model::{build_viewer_state, syoboi_page_url};
