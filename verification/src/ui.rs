//! What the screen shows, computed as plain values for a terminal front end.

pub mod display;
pub mod messages;
pub mod utils;

pub use utils::center_padding;
