//! Shapes that cross the wire.

pub mod todo_item;

pub use todo_item::{CreateTodoItemRequest, TodoItem, UpdateTodoItemRequest};
