//! The older backend's settings: a single settings row with a dark-mode flag
//! and the slide interval, served through a cache in front of the database.

pub mod actions;
pub mod errors;
pub mod models;
pub mod services;
pub mod store;
