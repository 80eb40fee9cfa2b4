//! The store-backed side of the repository.
//!
//! Statements travel to the relational store over a pooled connection, which
//! verified code cannot hold. The repository therefore carries the pool as
//! an opaque handle for whoever sends the statements, and decides here what
//! each statement's outcome means for the caller.

use crate::data::repository::{
    delete_outcome, get_all_outcome, get_by_id_outcome, insert_outcome, keyed, lists,
    update_outcome, RepositoryError,
};
use crate::entities::todo_entity::TodoEntity;
use vstd::prelude::*;

verus! {

/// Why a statement sent to the store did not succeed.
#[derive(Debug, Clone, Copy, PartialEq, Eq, Structural)]
pub enum StoreFailure {
    /// The statement asked for one row and matched none.
    NoRow,
    /// The statement would have stored a second row under a taken key.
    UniqueViolation,
    /// No connection could be had from the pool.
    Unavailable,
    /// Any other failure of the store or of reading its answer.
    Other,
}

/// The repository of to-do records in the relational store, holding the
/// connection pool `P` it was assembled with.
pub struct TodoEntityRepository<P> {
    db_context: P,
}

impl<P> TodoEntityRepository<P> {
    /// The pool this repository was assembled with.
    pub closed spec fn pool(&self) -> P {
        self.db_context
    }

    /// A repository over the given pool.
    pub fn new(db_context: P) -> (repository: Self)
        ensures
            repository.pool() == db_context,
    {
        TodoEntityRepository { db_context }
    }

    /// The pool, for sending a statement.
    pub fn db_context(&self) -> (db_context: &P)
        ensures
            *db_context == self.pool(),
    {
        &self.db_context
    }

    /// What loading every row means: the rows as loaded, or an
    /// infrastructure error whatever went wrong.
    pub open spec fn spec_get_all(loaded: Result<Vec<TodoEntity>, StoreFailure>) -> Result<
        Vec<TodoEntity>,
        RepositoryError,
    > {
        match loaded {
            Ok(rows) => Ok(rows),
            Err(_) => Err(RepositoryError::Infrastructure),
        }
    }

    /// What looking up the row keyed `id` means: the row, absence when
    /// none matched, or an infrastructure error otherwise, a row under
    /// another key included.
    pub open spec fn spec_get_by_id(id: u128, found: Result<TodoEntity, StoreFailure>) -> Result<
        Option<TodoEntity>,
        RepositoryError,
    > {
        match found {
            Ok(row) => if row.id == id {
                Ok(Some(row))
            } else {
                Err(RepositoryError::Infrastructure)
            },
            Err(StoreFailure::NoRow) => Ok(None),
            Err(_) => Err(RepositoryError::Infrastructure),
        }
    }

    /// What the answer to inserting a row keyed `id` means: the row as
    /// stored, a conflict when the key was taken, or an infrastructure error
    /// otherwise, a row under another key included.
    pub open spec fn spec_insert(id: u128, returned: Result<TodoEntity, StoreFailure>) -> Result<
        TodoEntity,
        RepositoryError,
    > {
        match returned {
            Ok(row) => if row.id == id {
                Ok(row)
            } else {
                Err(RepositoryError::Infrastructure)
            },
            Err(StoreFailure::UniqueViolation) => Err(RepositoryError::Conflict),
            Err(_) => Err(RepositoryError::Infrastructure),
        }
    }

    /// What the answer to updating the row keyed `id` means: the row as
    /// stored, not-found when no row matched, or an infrastructure error
    /// otherwise, a row under another key included.
    pub open spec fn spec_update(id: u128, returned: Result<TodoEntity, StoreFailure>) -> Result<
        TodoEntity,
        RepositoryError,
    > {
        match returned {
            Ok(row) => if row.id == id {
                Ok(row)
            } else {
                Err(RepositoryError::Infrastructure)
            },
            Err(StoreFailure::NoRow) => Err(RepositoryError::NotFound),
            Err(_) => Err(RepositoryError::Infrastructure),
        }
    }

    /// What a delete's answer means: whether any row went, or an
    /// infrastructure error.
    pub open spec fn spec_delete(affected: Result<usize, StoreFailure>) -> Result<
        bool,
        RepositoryError,
    > {
        match affected {
            Ok(count) => Ok(count > 0),
            Err(_) => Err(RepositoryError::Infrastructure),
        }
    }

    /// Turns the outcome of loading every row into the repository's answer.
    pub fn get_all(&self, loaded: Result<Vec<TodoEntity>, StoreFailure>) -> (result: Result<
        Vec<TodoEntity>,
        RepositoryError,
    >)
        ensures
            result == Self::spec_get_all(loaded),
    {
        match loaded {
            Ok(rows) => Ok(rows),
            Err(_) => Err(RepositoryError::Infrastructure),
        }
    }

    /// Turns the outcome of looking up the row keyed `todo_id` into the
    /// repository's answer.
    pub fn get_by_id(&self, todo_id: u128, found: Result<TodoEntity, StoreFailure>) -> (result:
        Result<Option<TodoEntity>, RepositoryError>)
        ensures
            result == Self::spec_get_by_id(todo_id, found),
    {
        match found {
            Ok(row) => if row.id == todo_id {
                Ok(Some(row))
            } else {
                Err(RepositoryError::Infrastructure)
            },
            Err(StoreFailure::NoRow) => Ok(None),
            Err(_) => Err(RepositoryError::Infrastructure),
        }
    }

    /// Turns the outcome of inserting a row keyed `todo_id` into the
    /// repository's answer.
    pub fn insert(&self, todo_id: u128, returned: Result<TodoEntity, StoreFailure>) -> (result:
        Result<TodoEntity, RepositoryError>)
        ensures
            result == Self::spec_insert(todo_id, returned),
    {
        match returned {
            Ok(row) => if row.id == todo_id {
                Ok(row)
            } else {
                Err(RepositoryError::Infrastructure)
            },
            Err(StoreFailure::UniqueViolation) => Err(RepositoryError::Conflict),
            Err(_) => Err(RepositoryError::Infrastructure),
        }
    }

    /// Turns the outcome of updating the row keyed `todo_id` into the
    /// repository's answer.
    pub fn update(&self, todo_id: u128, returned: Result<TodoEntity, StoreFailure>) -> (result:
        Result<TodoEntity, RepositoryError>)
        ensures
            result == Self::spec_update(todo_id, returned),
    {
        match returned {
            Ok(row) => if row.id == todo_id {
                Ok(row)
            } else {
                Err(RepositoryError::Infrastructure)
            },
            Err(StoreFailure::NoRow) => Err(RepositoryError::NotFound),
            Err(_) => Err(RepositoryError::Infrastructure),
        }
    }

    /// Turns the number of rows a delete removed into the repository's
    /// answer.
    pub fn delete(&self, affected: Result<usize, StoreFailure>) -> (result: Result<
        bool,
        RepositoryError,
    >)
        ensures
            result == Self::spec_delete(affected),
    {
        match affected {
            Ok(num_deleted) => Ok(num_deleted > 0),
            Err(_) => Err(RepositoryError::Infrastructure),
        }
    }
}

/// The store loaded every row of the table faithfully, or failed.
pub open spec fn faithful_load(
    rows: Map<u128, TodoEntity>,
    loaded: Result<Vec<TodoEntity>, StoreFailure>,
) -> bool {
    loaded matches Ok(all) ==> lists(rows, all@)
}

/// The store looked up `id` in the table faithfully, or failed for a reason
/// of its own.
pub open spec fn faithful_find(
    rows: Map<u128, TodoEntity>,
    id: u128,
    found: Result<TodoEntity, StoreFailure>,
) -> bool {
    match found {
        Ok(row) => rows.contains_key(id) && row == rows[id],
        Err(StoreFailure::NoRow) => !rows.contains_key(id),
        Err(_) => true,
    }
}

/// The store inserted `entity` faithfully: on success the table gained the
/// row, on a key violation the key was taken, and a failure changed nothing.
pub open spec fn faithful_insert(
    before: Map<u128, TodoEntity>,
    after: Map<u128, TodoEntity>,
    entity: TodoEntity,
    returned: Result<TodoEntity, StoreFailure>,
) -> bool {
    match returned {
        Ok(row) => !before.contains_key(entity.id) && row == entity && after == before.insert(
            entity.id,
            entity,
        ),
        Err(StoreFailure::UniqueViolation) => before.contains_key(entity.id) && after == before,
        Err(_) => after == before,
    }
}

/// The store updated the row keyed `id` faithfully: on success the row holds
/// the incoming mutable fields, a miss means there was no such row, and a
/// failure changed nothing.
pub open spec fn faithful_update(
    before: Map<u128, TodoEntity>,
    after: Map<u128, TodoEntity>,
    id: u128,
    entity: TodoEntity,
    returned: Result<TodoEntity, StoreFailure>,
) -> bool {
    match returned {
        Ok(row) => before.contains_key(id) && row == before[id].overwritten_by(entity) && after
            == before.insert(id, row),
        Err(StoreFailure::NoRow) => !before.contains_key(id) && after == before,
        Err(_) => after == before,
    }
}

/// The store deleted the row keyed `id` faithfully: the count says whether
/// there was one, and a failure changed nothing.
pub open spec fn faithful_delete(
    before: Map<u128, TodoEntity>,
    after: Map<u128, TodoEntity>,
    id: u128,
    affected: Result<usize, StoreFailure>,
) -> bool {
    match affected {
        Ok(count) => (count > 0) == before.contains_key(id) && after == before.remove(id),
        Err(_) => after == before,
    }
}

/// Over a keyed table and a store that answers faithfully, the store-backed
/// repository keeps the repository contract in every operation.
pub proof fn lemma_store_backed_meets_contract<P>(
    before: Map<u128, TodoEntity>,
    after: Map<u128, TodoEntity>,
    id: u128,
    entity: TodoEntity,
    loaded: Result<Vec<TodoEntity>, StoreFailure>,
    found: Result<TodoEntity, StoreFailure>,
    returned: Result<TodoEntity, StoreFailure>,
    affected: Result<usize, StoreFailure>,
)
    requires
        keyed(before),
    ensures
        faithful_load(before, loaded) ==> get_all_outcome(
            before,
            TodoEntityRepository::<P>::spec_get_all(loaded),
        ),
        faithful_find(before, id, found) ==> get_by_id_outcome(
            before,
            id,
            TodoEntityRepository::<P>::spec_get_by_id(id, found),
        ),
        faithful_insert(before, after, entity, returned) ==> insert_outcome(
            before,
            after,
            entity,
            TodoEntityRepository::<P>::spec_insert(entity.id, returned),
        ),
        faithful_update(before, after, id, entity, returned) ==> update_outcome(
            before,
            after,
            id,
            entity,
            TodoEntityRepository::<P>::spec_update(id, returned),
        ),
        faithful_delete(before, after, id, affected) ==> delete_outcome(
            before,
            after,
            id,
            TodoEntityRepository::<P>::spec_delete(affected),
        ),
{
}

} // verus!
