//! The decisions of the to-do endpoints.
//!
//! Each handler takes what the transport has read (an identifier as text, a
//! request body) and a repository, and returns the response to send. The
//! part of each handler that turns the repository's answer into a response
//! is a function of its own with an exact contract.

use crate::data::repository::{
    delete_outcome, get_all_outcome, get_by_id_outcome, insert_outcome, update_outcome,
    Repository, RepositoryError,
};
use crate::entities::todo_entity::TodoEntity;
use crate::identity;
use crate::models::todo_item::{CreateTodoItemRequest, TodoItem, UpdateTodoItemRequest};
use vstd::prelude::*;

verus! {

/// What an endpoint answers.
#[derive(Debug)]
pub enum TodoResponse {
    /// Success, with every item.
    Items(Vec<TodoItem>),
    /// Success, with one item.
    Item(TodoItem),
    /// Success, with nothing to show.
    Done,
    /// The identifier in the request is not a UUID.
    BadRequest,
    /// No item has the requested identifier.
    NotFound,
    /// The repository failed.
    InternalServerError,
}

impl TodoResponse {
    /// The status code a response is sent with.
    pub open spec fn spec_status(&self) -> u16 {
        match self {
            TodoResponse::Items(_) => 200,
            TodoResponse::Item(_) => 200,
            TodoResponse::Done => 200,
            TodoResponse::BadRequest => 400,
            TodoResponse::NotFound => 404,
            TodoResponse::InternalServerError => 500,
        }
    }

    /// The status code this response is sent with.
    pub fn status(&self) -> (code: u16)
        ensures
            code == self.spec_status(),
    {
        match self {
            TodoResponse::Items(_) => 200,
            TodoResponse::Item(_) => 200,
            TodoResponse::Done => 200,
            TodoResponse::BadRequest => 400,
            TodoResponse::NotFound => 404,
            TodoResponse::InternalServerError => 500,
        }
    }
}

/// The wire shapes of a sequence of records, in the same order.
pub open spec fn items_of(entities: Seq<TodoEntity>) -> Seq<TodoItem> {
    entities.map_values(|entity: TodoEntity| entity.to_item())
}

/// The response to a listing: the items, or a server error.
pub open spec fn listed_response_for(
    result: Result<Vec<TodoEntity>, RepositoryError>,
    response: TodoResponse,
) -> bool {
    match result {
        Ok(all) => response matches TodoResponse::Items(items) && items@ == items_of(all@),
        Err(_) => response == TodoResponse::InternalServerError,
    }
}

/// The response to a lookup: the item, not-found, or a server error.
pub open spec fn found_response_for(
    result: Result<Option<TodoEntity>, RepositoryError>,
    response: TodoResponse,
) -> bool {
    match result {
        Ok(Some(entity)) => response == TodoResponse::Item(entity.to_item()),
        Ok(None) => response == TodoResponse::NotFound,
        Err(_) => response == TodoResponse::InternalServerError,
    }
}

/// The response to a creation: the new item, or a server error.
pub open spec fn created_response_for(
    result: Result<TodoEntity, RepositoryError>,
    response: TodoResponse,
) -> bool {
    match result {
        Ok(entity) => response == TodoResponse::Item(entity.to_item()),
        Err(_) => response == TodoResponse::InternalServerError,
    }
}

/// The response to an update: the item as stored, not-found, or a server
/// error.
pub open spec fn updated_response_for(
    result: Result<TodoEntity, RepositoryError>,
    response: TodoResponse,
) -> bool {
    match result {
        Ok(entity) => response == TodoResponse::Item(entity.to_item()),
        Err(RepositoryError::NotFound) => response == TodoResponse::NotFound,
        Err(_) => response == TodoResponse::InternalServerError,
    }
}

/// The response to a deletion: done when a record went, not-found when
/// none did, or a server error.
pub open spec fn deleted_response_for(
    result: Result<bool, RepositoryError>,
    response: TodoResponse,
) -> bool {
    match result {
        Ok(true) => response == TodoResponse::Done,
        Ok(false) => response == TodoResponse::NotFound,
        Err(_) => response == TodoResponse::InternalServerError,
    }
}

/// Answers a listing with what the repository returned.
pub fn listed_response(result: Result<Vec<TodoEntity>, RepositoryError>) -> (response:
    TodoResponse)
    ensures
        listed_response_for(result, response),
{
    match result {
        Ok(entities) => {
            let mut items: Vec<TodoItem> = Vec::new();
            let mut i: usize = 0;
            while i < entities.len()
                invariant
                    i <= entities@.len(),
                    items@ == items_of(entities@.take(i as int)),
                decreases entities@.len() - i,
            {
                items.push(TodoItem::from(entities[i].clone()));
                assert(entities@.take(i + 1) =~= entities@.take(i as int).push(entities@[i as int]));
                assert(items@ =~= items_of(entities@.take(i + 1)));
                i += 1;
            }
            assert(entities@.take(entities@.len() as int) =~= entities@);
            TodoResponse::Items(items)
        },
        Err(_) => TodoResponse::InternalServerError,
    }
}

/// Answers a lookup with what the repository returned.
pub fn found_response(result: Result<Option<TodoEntity>, RepositoryError>) -> (response:
    TodoResponse)
    ensures
        found_response_for(result, response),
{
    match result {
        Ok(Some(item)) => TodoResponse::Item(TodoItem::from(item)),
        Ok(None) => TodoResponse::NotFound,
        Err(_) => TodoResponse::InternalServerError,
    }
}

/// Answers a creation with what the repository returned.
pub fn created_response(result: Result<TodoEntity, RepositoryError>) -> (response: TodoResponse)
    ensures
        created_response_for(result, response),
{
    match result {
        Ok(entity) => TodoResponse::Item(TodoItem::from(entity)),
        Err(_) => TodoResponse::InternalServerError,
    }
}

/// Answers an update with what the repository returned.
pub fn updated_response(result: Result<TodoEntity, RepositoryError>) -> (response: TodoResponse)
    ensures
        updated_response_for(result, response),
{
    match result {
        Ok(entity) => TodoResponse::Item(TodoItem::from(entity)),
        Err(RepositoryError::NotFound) => TodoResponse::NotFound,
        Err(_) => TodoResponse::InternalServerError,
    }
}

/// Answers a deletion with what the repository returned.
pub fn deleted_response(result: Result<bool, RepositoryError>) -> (response: TodoResponse)
    ensures
        deleted_response_for(result, response),
{
    match result {
        Ok(true) => TodoResponse::Done,
        Ok(false) => TodoResponse::NotFound,
        Err(_) => TodoResponse::InternalServerError,
    }
}

/// Lists every item.
///
/// The response is the one that belongs to some answer the repository may
/// give on its table.
pub fn get_todos<R: Repository<TodoEntity>>(repository: &R) -> (response: TodoResponse)
    ensures
        exists|result: Result<Vec<TodoEntity>, RepositoryError>|
            #![trigger get_all_outcome(repository.rows(), result)]
            {
                &&& get_all_outcome(repository.rows(), result)
                &&& repository.reliable() ==> result is Ok
                &&& listed_response_for(result, response)
            },
{
    let result = repository.get_all();
    let ghost answer = result;
    let response = listed_response(result);
    assert(get_all_outcome(repository.rows(), answer));
    response
}

/// Looks up the item whose identifier is written in `id`.
///
/// A text that is no UUID is a bad request. Otherwise the response is the
/// one that belongs to some answer the repository may give for that
/// identifier.
pub fn get_todo_by_id<R: Repository<TodoEntity>>(id: &str, repository: &R) -> (response:
    TodoResponse)
    ensures
        match identity::parsed_uuid(id@) {
            None => response == TodoResponse::BadRequest,
            Some(uuid) => exists|result: Result<Option<TodoEntity>, RepositoryError>|
                #![trigger get_by_id_outcome(repository.rows(), uuid, result)]
                {
                    &&& get_by_id_outcome(repository.rows(), uuid, result)
                    &&& repository.reliable() ==> result is Ok
                    &&& found_response_for(result, response)
                },
        },
{
    match identity::parse_str(id) {
        Some(uuid) => {
            let result = repository.get_by_id(uuid);
            let ghost answer = result;
            let response = found_response(result);
            assert(get_by_id_outcome(repository.rows(), uuid, answer));
            response
        },
        None => TodoResponse::BadRequest,
    }
}

/// Creates an item from `todo`.
///
/// The record that is sent to the repository is the one the request stands
/// for under a random identifier and the current instant; the response is
/// the one that belongs to what the repository did with it.
pub fn create_todo<R: Repository<TodoEntity>>(
    todo: CreateTodoItemRequest,
    repository: &mut R,
) -> (response: TodoResponse)
    ensures
        final(repository).reliable() == old(repository).reliable(),
        exists|entity: TodoEntity, result: Result<TodoEntity, RepositoryError>|
            #![trigger insert_outcome(old(repository).rows(), final(repository).rows(), entity, result)]
            {
                &&& entity == TodoEntity::spec_created(todo, entity.id, entity.created_at)
                &&& identity::is_random_uuid(entity.id)
                &&& insert_outcome(
                    old(repository).rows(),
                    final(repository).rows(),
                    entity,
                    result,
                )
                &&& old(repository).reliable() ==> result != Err::<TodoEntity, RepositoryError>(
                    RepositoryError::Infrastructure,
                )
                &&& created_response_for(result, response)
            },
{
    let entity = TodoEntity::from(todo);
    let ghost sent = entity;
    let result = repository.insert(entity);
    let ghost answer = result;
    let response = created_response(result);
    assert(insert_outcome(old(repository).rows(), repository.rows(), sent, answer));
    response
}

/// Deletes the item whose identifier is written in `id`.
///
/// A text that is no UUID is a bad request and leaves the table alone.
/// Otherwise the response is the one that belongs to what the repository
/// did.
pub fn delete_todo<R: Repository<TodoEntity>>(id: &str, repository: &mut R) -> (response:
    TodoResponse)
    ensures
        final(repository).reliable() == old(repository).reliable(),
        match identity::parsed_uuid(id@) {
            None => response == TodoResponse::BadRequest && final(repository).rows() == old(
                repository,
            ).rows(),
            Some(uuid) => exists|result: Result<bool, RepositoryError>|
                #![trigger delete_outcome(old(repository).rows(), final(repository).rows(), uuid, result)]
                {
                    &&& delete_outcome(
                        old(repository).rows(),
                        final(repository).rows(),
                        uuid,
                        result,
                    )
                    &&& old(repository).reliable() ==> result is Ok
                    &&& deleted_response_for(result, response)
                },
        },
{
    match identity::parse_str(id) {
        Some(uuid) => {
            let result = repository.delete(uuid);
            let response = deleted_response(result);
            assert(delete_outcome(old(repository).rows(), repository.rows(), uuid, result));
            response
        },
        None => TodoResponse::BadRequest,
    }
}

/// Updates the item whose identifier is written in `id` from `todo`.
///
/// A text that is no UUID is a bad request and leaves the table alone.
/// Otherwise the record that is sent to the repository is the one the
/// request stands for under a random identifier and the current instant, of
/// which the repository keeps the mutable fields only; the response is the
/// one that belongs to what the repository did with it.
pub fn update_todo<R: Repository<TodoEntity>>(
    id: &str,
    todo: UpdateTodoItemRequest,
    repository: &mut R,
) -> (response: TodoResponse)
    ensures
        final(repository).reliable() == old(repository).reliable(),
        match identity::parsed_uuid(id@) {
            None => response == TodoResponse::BadRequest && final(repository).rows() == old(
                repository,
            ).rows(),
            Some(uuid) => exists|entity: TodoEntity, result: Result<TodoEntity, RepositoryError>|
                #![trigger update_outcome(old(repository).rows(), final(repository).rows(), uuid, entity, result)]
                {
                    &&& entity == TodoEntity::spec_updated(todo, entity.id, entity.created_at)
                    &&& update_outcome(
                        old(repository).rows(),
                        final(repository).rows(),
                        uuid,
                        entity,
                        result,
                    )
                    &&& old(repository).reliable() ==> result != Err::<
                        TodoEntity,
                        RepositoryError,
                    >(RepositoryError::Infrastructure)
                    &&& updated_response_for(result, response)
                },
        },
{
    match identity::parse_str(id) {
        Some(uuid) => {
            let entity = TodoEntity::from(todo);
            let ghost sent = entity;
            let result = repository.update(uuid, entity);
            let ghost answer = result;
            let response = updated_response(result);
            assert(update_outcome(old(repository).rows(), repository.rows(), uuid, sent, answer));
            response
        },
        None => TodoResponse::BadRequest,
    }
}

} // verus!
