//! Shapes that are stored.

pub mod todo_entity;

pub use todo_entity::TodoEntity;
