//! A generic create/read interface.

pub mod crud;
