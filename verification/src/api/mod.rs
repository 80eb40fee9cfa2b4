//! Request handling: what each endpoint answers.

pub mod todo_controller;
