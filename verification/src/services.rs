//! The movie and user services: what each operation answers, given what the
//! store returned.

pub mod movie_service;
pub mod user_service;
