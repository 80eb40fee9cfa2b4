//! Persistence core of a small to-do service: the wire and stored models and
//! the mapping between them, the repository contract with its in-memory and
//! store-backed sides, the migration planner, and the decisions that turn a
//! request into a response.

pub mod api;
pub mod clock;
pub mod data;
pub mod entities;
pub mod identity;
pub mod models;
