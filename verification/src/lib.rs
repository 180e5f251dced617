//! Verified core of a small movie-streaming web service: the decisions that
//! its HTTP handlers and services take, with the database, the web framework
//! and the token encoding left to the binary around it.

pub mod api;
pub mod clock;
pub mod crypto;
pub mod models;
pub mod services;
pub mod text;
pub mod traits;
pub mod user;
