//! KONSol: the information screen of Konsulatet and its admin page.
//!
//! This crate holds the logic of the screen and of its server side: the data
//! model, the checks made on uploads and settings, the session decisions, the
//! slide and departure-board selection, and the cached settings store of the
//! older backend. The web framework, the database and the browser stay with
//! the program around it.

pub mod admin;
pub mod api;
pub mod backend;
pub mod calendar;
pub mod client_util;
pub mod ids;
pub mod models;
pub mod screen;
pub mod session;
pub mod sl;
pub mod spike;
pub mod text;
