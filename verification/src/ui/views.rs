//! What each screen right of the sidebar shows.
pub mod credits;
pub mod devices;
pub mod info;
