//! Users with names, and the account, favourite, review, search and payment
//! handlers.

pub mod controller;
pub mod model;
