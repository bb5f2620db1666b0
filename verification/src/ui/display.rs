//! The parts of the main screen: the header above the lanes, and the lanes.

pub mod header;
pub mod swimmers;
