//! Watches a window manager's event stream and decides when the tiling
//! direction should be toggled.
pub mod event_loop;
pub mod frame;
pub mod json;
pub mod log;
pub mod model;
pub mod util;
