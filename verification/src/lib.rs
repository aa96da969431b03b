//! A repository contract for persisted books, the rules that turn a storage
//! engine's acknowledgments into domain results, and the rules that turn
//! domain results into request-level responses.

pub mod controller;
pub mod model;
pub mod repository;
