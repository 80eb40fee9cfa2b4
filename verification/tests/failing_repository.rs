use todo_api::api::todo_controller::{
    create_todo, delete_todo, get_todo_by_id, get_todos, update_todo, TodoResponse,
};
use todo_api::data::repository::{Repository, RepositoryError};
use todo_api::entities::todo_entity::TodoEntity;
use todo_api::models::todo_item::{CreateTodoItemRequest, UpdateTodoItemRequest};

/// A repository whose store always answers with the same error.
struct Failing(RepositoryError);

impl Repository<TodoEntity> for Failing {
    fn get_all(&self) -> Result<Vec<TodoEntity>, RepositoryError> {
        Err(self.0)
    }

    fn get_by_id(&self, _id: u128) -> Result<Option<TodoEntity>, RepositoryError> {
        Err(self.0)
    }

    fn insert(&mut self, _entity: TodoEntity) -> Result<TodoEntity, RepositoryError> {
        Err(self.0)
    }

    fn update(&mut self, _id: u128, _entity: TodoEntity) -> Result<TodoEntity, RepositoryError> {
        Err(self.0)
    }

    fn delete(&mut self, _id: u128) -> Result<bool, RepositoryError> {
        Err(self.0)
    }
}

const ID: &str = "120400b8-eee8-47cc-9e96-5bc0a3e2e874";

fn create_request() -> CreateTodoItemRequest {
    CreateTodoItemRequest {
        title: "Test create".to_string(),
        description: "We should test the create method".to_string(),
    }
}

fn update_request() -> UpdateTodoItemRequest {
    UpdateTodoItemRequest {
        new_title: "Test update".to_string(),
        new_description: "We should test the update method".to_string(),
        completed: true,
    }
}

#[test]
fn an_unreachable_store_is_a_server_error_everywhere() {
    let mut repository = Failing(RepositoryError::Infrastructure);

    let listed = get_todos(&repository);
    assert!(matches!(listed, TodoResponse::InternalServerError));
    assert_eq!(listed.status(), 500);
    assert!(matches!(
        get_todo_by_id(ID, &repository),
        TodoResponse::InternalServerError
    ));
    assert!(matches!(
        create_todo(create_request(), &mut repository),
        TodoResponse::InternalServerError
    ));
    assert!(matches!(
        update_todo(ID, update_request(), &mut repository),
        TodoResponse::InternalServerError
    ));
    assert!(matches!(
        delete_todo(ID, &mut repository),
        TodoResponse::InternalServerError
    ));
}

#[test]
fn a_malformed_identifier_never_reaches_the_store() {
    let mut repository = Failing(RepositoryError::Infrastructure);

    assert!(matches!(
        get_todo_by_id("nope", &repository),
        TodoResponse::BadRequest
    ));
    assert!(matches!(
        update_todo("nope", update_request(), &mut repository),
        TodoResponse::BadRequest
    ));
    assert!(matches!(
        delete_todo("nope", &mut repository),
        TodoResponse::BadRequest
    ));
}

#[test]
fn a_conflict_on_create_is_a_server_error() {
    let mut repository = Failing(RepositoryError::Conflict);
    assert!(matches!(
        create_todo(create_request(), &mut repository),
        TodoResponse::InternalServerError
    ));
}

#[test]
fn a_missing_row_on_update_is_not_found() {
    let mut repository = Failing(RepositoryError::NotFound);
    let response = update_todo(ID, update_request(), &mut repository);
    assert!(matches!(response, TodoResponse::NotFound));
    assert_eq!(response.status(), 404);
}
