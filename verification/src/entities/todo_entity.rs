//! The stored to-do record and the mapping between it and the wire shapes.

use crate::clock;
use crate::data::repository::{
    delete_outcome, get_by_id_outcome, insert_outcome, keyed, update_outcome, Record,
    RepositoryError,
};
use crate::identity;
use crate::models::todo_item::{CreateTodoItemRequest, TodoItem, UpdateTodoItemRequest};
use std::time::SystemTime;
use vstd::prelude::*;
use vstd::std_specs::convert::FromSpecImpl;

verus! {

/// A to-do record as the store holds it.
#[derive(Debug)]
pub struct TodoEntity {
    /// The unique identifier of the record.
    pub id: u128,
    /// The title of the record.
    pub title: String,
    /// The description of the record.
    pub description: String,
    /// Whether the record is completed.
    pub completed: bool,
    /// When the record was completed; absent while it is not.
    pub completed_at: Option<SystemTime>,
    /// When the record was created.
    pub created_at: SystemTime,
}

impl TodoEntity {
    /// The invariant of a stored record: the completion instant is present
    /// exactly when the record is completed.
    pub open spec fn well_formed(&self) -> bool {
        self.completed_at.is_some() == self.completed
    }

    /// The record a create request stands for, once an identifier and the
    /// current instant are chosen.
    pub open spec fn spec_created(
        request: CreateTodoItemRequest,
        id: u128,
        now: SystemTime,
    ) -> TodoEntity {
        TodoEntity {
            id,
            title: request.title,
            description: request.description,
            completed: false,
            completed_at: None,
            created_at: now,
        }
    }

    /// The record an update request stands for, once an identifier and the
    /// current instant are chosen.
    pub open spec fn spec_updated(
        request: UpdateTodoItemRequest,
        id: u128,
        now: SystemTime,
    ) -> TodoEntity {
        TodoEntity {
            id,
            title: request.new_title,
            description: request.new_description,
            completed: request.completed,
            completed_at: if request.completed {
                Some(now)
            } else {
                None
            },
            created_at: now,
        }
    }

    /// This record with the mutable fields of `incoming` written over its
    /// own: title, description, completion flag and completion instant.
    /// Identifier and creation instant stay.
    pub open spec fn overwritten_by(self, incoming: TodoEntity) -> TodoEntity {
        TodoEntity {
            id: self.id,
            title: incoming.title,
            description: incoming.description,
            completed: incoming.completed,
            completed_at: incoming.completed_at,
            created_at: self.created_at,
        }
    }

    /// The wire shape of this record, field for field.
    pub open spec fn to_item(self) -> TodoItem {
        TodoItem {
            id: self.id,
            title: self.title,
            description: self.description,
            completed: self.completed,
            completed_at: self.completed_at,
            created_at: self.created_at,
        }
    }

    /// Builds the record for a create request from a chosen identifier and
    /// instant.
    pub fn created(request: CreateTodoItemRequest, id: u128, now: SystemTime) -> (entity: Self)
        ensures
            entity == Self::spec_created(request, id, now),
            entity.well_formed(),
    {
        TodoEntity {
            id,
            title: request.title,
            description: request.description,
            completed: false,
            completed_at: None,
            created_at: now,
        }
    }

    /// Builds the record for an update request from a chosen identifier and
    /// instant.
    pub fn updated(request: UpdateTodoItemRequest, id: u128, now: SystemTime) -> (entity: Self)
        ensures
            entity == Self::spec_updated(request, id, now),
            entity.well_formed(),
    {
        let completed_at = if request.completed {
            Some(now)
        } else {
            None
        };
        TodoEntity {
            id,
            title: request.new_title,
            description: request.new_description,
            completed: request.completed,
            completed_at,
            created_at: now,
        }
    }

    /// Writes the mutable fields of `incoming` over this record.
    pub fn overwrite(&mut self, incoming: TodoEntity)
        ensures
            *final(self) == old(self).overwritten_by(incoming),
            incoming.well_formed() ==> final(self).well_formed(),
    {
        self.title = incoming.title;
        self.description = incoming.description;
        self.completed = incoming.completed;
        self.completed_at = incoming.completed_at;
    }
}

impl Record for TodoEntity {
    open spec fn key(self) -> u128 {
        self.id
    }

    open spec fn overwritten(self, incoming: Self) -> Self {
        self.overwritten_by(incoming)
    }

    proof fn overwritten_keeps_key(self, incoming: Self) {
    }
}

impl Clone for TodoEntity {
    fn clone(&self) -> (copy: Self)
        ensures
            copy == *self,
    {
        TodoEntity {
            id: self.id,
            title: self.title.clone(),
            description: self.description.clone(),
            completed: self.completed,
            completed_at: self.completed_at,
            created_at: self.created_at,
        }
    }
}

impl From<TodoEntity> for TodoItem {
    fn from(entity: TodoEntity) -> (item: Self) {
        TodoItem {
            id: entity.id,
            title: entity.title,
            description: entity.description,
            completed: entity.completed,
            completed_at: entity.completed_at,
            created_at: entity.created_at,
        }
    }
}

impl FromSpecImpl<TodoEntity> for TodoItem {
    open spec fn obeys_from_spec() -> bool {
        true
    }

    open spec fn from_spec(entity: TodoEntity) -> Self {
        entity.to_item()
    }
}

impl From<CreateTodoItemRequest> for TodoEntity {
    /// The record for a create request, with a random identifier and the
    /// clock's instant. The contract fixes everything but those two.
    fn from(request: CreateTodoItemRequest) -> (entity: Self)
        ensures
            entity == TodoEntity::spec_created(request, entity.id, entity.created_at),
            identity::is_random_uuid(entity.id),
            entity.well_formed(),
    {
        let id = identity::new_v4();
        let now = clock::now();
        TodoEntity::created(request, id, now)
    }
}

impl FromSpecImpl<CreateTodoItemRequest> for TodoEntity {
    /// The identifier and the instant are drawn at the call, so no function
    /// of the request gives the record: `from` states its own contract.
    open spec fn obeys_from_spec() -> bool {
        false
    }

    open spec fn from_spec(request: CreateTodoItemRequest) -> Self {
        TodoEntity::spec_created(request, 0, arbitrary())
    }
}

impl From<UpdateTodoItemRequest> for TodoEntity {
    /// The record for an update request, with a random identifier and the
    /// clock's instant. The contract fixes everything but those two; the
    /// repository keeps the stored identifier and creation instant when it
    /// applies the record.
    fn from(request: UpdateTodoItemRequest) -> (entity: Self)
        ensures
            entity == TodoEntity::spec_updated(request, entity.id, entity.created_at),
            identity::is_random_uuid(entity.id),
            entity.well_formed(),
    {
        let id = identity::new_v4();
        let now = clock::now();
        TodoEntity::updated(request, id, now)
    }
}

impl FromSpecImpl<UpdateTodoItemRequest> for TodoEntity {
    /// The identifier and the instant are drawn at the call, so no function
    /// of the request gives the record: `from` states its own contract.
    open spec fn obeys_from_spec() -> bool {
        false
    }

    open spec fn from_spec(request: UpdateTodoItemRequest) -> Self {
        TodoEntity::spec_updated(request, 0, arbitrary())
    }
}

/// A record made from a valid create request and inserted is read back
/// under the identifier it was given, with the request's title and
/// description, open and without a completion instant.
pub proof fn lemma_created_is_read_back(
    request: CreateTodoItemRequest,
    id: u128,
    now: SystemTime,
    before: Map<u128, TodoEntity>,
    after: Map<u128, TodoEntity>,
    inserted: Result<TodoEntity, RepositoryError>,
    found: Result<Option<TodoEntity>, RepositoryError>,
)
    requires
        request.valid(),
        insert_outcome(before, after, TodoEntity::spec_created(request, id, now), inserted),
        inserted is Ok,
        get_by_id_outcome(after, inserted->Ok_0.id, found),
        found is Ok,
    ensures
        inserted->Ok_0.id == id,
        found matches Ok(Some(entity)) && {
            &&& entity.id == id
            &&& entity.title == request.title
            &&& entity.title@.len() > 0
            &&& entity.description == request.description
            &&& !entity.completed
            &&& entity.completed_at is None
            &&& entity.well_formed()
        },
{
}

/// After an update of a stored identifier that the store carried out,
/// reading the identifier gives the request's title, description and
/// completion flag, a completion instant exactly when the request says
/// completed, and the identifier and creation instant the record had.
pub proof fn lemma_updated_is_read_back(
    request: UpdateTodoItemRequest,
    fresh: u128,
    now: SystemTime,
    id: u128,
    before: Map<u128, TodoEntity>,
    after: Map<u128, TodoEntity>,
    updated: Result<TodoEntity, RepositoryError>,
    found: Result<Option<TodoEntity>, RepositoryError>,
)
    requires
        keyed(before),
        before.contains_key(id),
        update_outcome(before, after, id, TodoEntity::spec_updated(request, fresh, now), updated),
        updated != Err::<TodoEntity, RepositoryError>(RepositoryError::Infrastructure),
        get_by_id_outcome(after, id, found),
        found is Ok,
    ensures
        updated is Ok,
        found matches Ok(Some(entity)) && {
            &&& entity == updated->Ok_0
            &&& entity.id == id
            &&& entity.created_at == before[id].created_at
            &&& entity.title == request.new_title
            &&& entity.description == request.new_description
            &&& entity.completed == request.completed
            &&& entity.completed_at.is_some() == request.completed
            &&& entity.well_formed()
        },
{
}

/// Every row of the table keeps the record invariant.
pub open spec fn rows_well_formed(rows: Map<u128, TodoEntity>) -> bool {
    forall|id: u128| #[trigger] rows.contains_key(id) ==> rows[id].well_formed()
}

/// Inserting a well-formed record keeps every row well formed.
pub proof fn lemma_insert_keeps_rows_well_formed(
    before: Map<u128, TodoEntity>,
    after: Map<u128, TodoEntity>,
    entity: TodoEntity,
    inserted: Result<TodoEntity, RepositoryError>,
)
    requires
        rows_well_formed(before),
        entity.well_formed(),
        insert_outcome(before, after, entity, inserted),
    ensures
        rows_well_formed(after),
{
}

/// Updating from a well-formed record keeps every row well formed.
pub proof fn lemma_update_keeps_rows_well_formed(
    before: Map<u128, TodoEntity>,
    after: Map<u128, TodoEntity>,
    id: u128,
    entity: TodoEntity,
    updated: Result<TodoEntity, RepositoryError>,
)
    requires
        rows_well_formed(before),
        entity.well_formed(),
        update_outcome(before, after, id, entity, updated),
    ensures
        rows_well_formed(after),
{
}

/// Deleting keeps every row well formed.
pub proof fn lemma_delete_keeps_rows_well_formed(
    before: Map<u128, TodoEntity>,
    after: Map<u128, TodoEntity>,
    id: u128,
    deleted: Result<bool, RepositoryError>,
)
    requires
        rows_well_formed(before),
        delete_outcome(before, after, id, deleted),
    ensures
        rows_well_formed(after),
{
}

} // verus!
