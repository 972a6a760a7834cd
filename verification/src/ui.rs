//! The application's state and what its screens show.
pub mod app;
pub mod views;
