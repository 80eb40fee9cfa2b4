//! The to-do item as callers see it, and the two requests that change one.

use crate::clock;
use crate::identity;
use std::time::SystemTime;
use vstd::prelude::*;

verus! {

/// A to-do item as it is handed to callers.
#[derive(Debug)]
pub struct TodoItem {
    /// The unique identifier of the item.
    pub id: u128,
    /// The title of the item.
    pub title: String,
    /// The description of the item.
    pub description: String,
    /// Whether the item is completed.
    pub completed: bool,
    /// When the item was completed; absent while it is not.
    pub completed_at: Option<SystemTime>,
    /// When the item was created.
    pub created_at: SystemTime,
}

/// The fields a caller may replace in an existing item.
#[derive(Debug)]
pub struct UpdateTodoItemRequest {
    /// The new title of the item.
    pub new_title: String,
    /// The new description of the item.
    pub new_description: String,
    /// Whether the item is completed.
    pub completed: bool,
}

/// The fields a caller supplies for a new item.
#[derive(Debug)]
pub struct CreateTodoItemRequest {
    /// The title of the item.
    pub title: String,
    /// The description of the item.
    pub description: String,
}

impl CreateTodoItemRequest {
    /// A request is valid when it names the item: the title is not empty.
    pub open spec fn valid(&self) -> bool {
        self.title@.len() > 0
    }
}

impl TodoItem {
    /// Whether the completion instant is present exactly when the item is
    /// completed.
    pub open spec fn well_formed(&self) -> bool {
        self.completed_at.is_some() == self.completed
    }

    /// Whether this is an open item with the given title and description.
    pub open spec fn is_open_with(&self, title: Seq<char>, description: Seq<char>) -> bool {
        &&& self.title@ == title
        &&& self.description@ == description
        &&& !self.completed
        &&& self.completed_at.is_none()
    }

    /// A fresh, open item with the given title and description.
    ///
    /// The identifier is random and the creation instant is read from the
    /// clock, so the contract fixes everything but those two.
    pub fn new(title: &str, description: &str) -> (item: Self)
        ensures
            item.is_open_with(title@, description@),
            item.well_formed(),
            identity::is_random_uuid(item.id),
    {
        TodoItem {
            id: identity::new_v4(),
            title: title.to_owned(),
            description: description.to_owned(),
            completed: false,
            completed_at: None,
            created_at: clock::now(),
        }
    }
}

} // verus!
