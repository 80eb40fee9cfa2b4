use std::time::SystemTime;

use todo_api::data::memory_repository::InMemoryTodoRepository;
use todo_api::data::repository::{Repository, RepositoryError};
use todo_api::entities::todo_entity::TodoEntity;
use todo_api::models::todo_item::{CreateTodoItemRequest, TodoItem, UpdateTodoItemRequest};

fn entity(id: u128, title: &str) -> TodoEntity {
    TodoEntity {
        id,
        title: title.to_string(),
        description: format!("about {}", title),
        completed: false,
        completed_at: None,
        created_at: SystemTime::now(),
    }
}

fn titles(repository: &InMemoryTodoRepository) -> Vec<String> {
    let mut titles = Vec::new();
    for row in repository.get_all().unwrap() {
        titles.push(row.title);
    }
    titles
}

#[test]
fn a_new_repository_is_empty() {
    let repository = InMemoryTodoRepository::new();
    assert_eq!(repository.get_all().unwrap().len(), 0);
    assert!(repository.get_by_id(1).unwrap().is_none());
}

#[test]
fn insert_then_get_by_id_reads_the_record_back() {
    let mut repository = InMemoryTodoRepository::new();
    let created: TodoEntity = CreateTodoItemRequest {
        title: "Test create".to_string(),
        description: "We should test the create method".to_string(),
    }
    .into();
    let created_at = created.created_at;

    let returned = repository.insert(created).unwrap();
    let found = repository.get_by_id(returned.id).unwrap().unwrap();
    assert_eq!(found.id, returned.id);
    assert_eq!(found.title, "Test create");
    assert_eq!(found.description, "We should test the create method");
    assert_eq!(found.completed, false);
    assert_eq!(found.completed_at, None);
    assert_eq!(found.created_at, created_at);
}

#[test]
fn insert_of_a_taken_identifier_is_a_conflict() {
    let mut repository = InMemoryTodoRepository::new();
    repository.insert(entity(1, "first")).unwrap();

    let second = repository.insert(entity(1, "second"));
    assert_eq!(second.err(), Some(RepositoryError::Conflict));
    assert_eq!(titles(&repository), vec!["first".to_string()]);
    assert_eq!(repository.get_by_id(1).unwrap().unwrap().title, "first");
}

#[test]
fn update_then_get_by_id_reads_the_request_back() {
    let mut repository = InMemoryTodoRepository::new();
    let first = repository.insert(entity(5, "before")).unwrap();
    repository.insert(entity(6, "other")).unwrap();

    let done: TodoEntity = UpdateTodoItemRequest {
        new_title: "after".to_string(),
        new_description: "changed".to_string(),
        completed: true,
    }
    .into();
    let completed_at = done.completed_at;
    assert!(completed_at.is_some());
    let stored = repository.update(5, done).unwrap();
    assert_eq!(stored.id, 5);
    assert_eq!(stored.created_at, first.created_at);

    let found = repository.get_by_id(5).unwrap().unwrap();
    assert_eq!(found.id, 5);
    assert_eq!(found.title, "after");
    assert_eq!(found.description, "changed");
    assert_eq!(found.completed, true);
    assert_eq!(found.completed_at, completed_at);
    assert_eq!(found.created_at, first.created_at);

    let reopened: TodoEntity = UpdateTodoItemRequest {
        new_title: "again".to_string(),
        new_description: "changed twice".to_string(),
        completed: false,
    }
    .into();
    repository.update(5, reopened).unwrap();
    let found = repository.get_by_id(5).unwrap().unwrap();
    assert_eq!(found.title, "again");
    assert_eq!(found.completed, false);
    assert_eq!(found.completed_at, None);

    assert_eq!(repository.get_by_id(6).unwrap().unwrap().title, "other");
    assert_eq!(titles(&repository), vec!["again".to_string(), "other".to_string()]);
}

#[test]
fn update_of_a_missing_identifier_is_not_found_and_changes_nothing() {
    let mut repository = InMemoryTodoRepository::new();
    repository.insert(entity(1, "first")).unwrap();
    repository.insert(entity(2, "second")).unwrap();

    let result = repository.update(3, entity(3, "third"));
    assert_eq!(result.err(), Some(RepositoryError::NotFound));
    assert_eq!(titles(&repository), vec!["first".to_string(), "second".to_string()]);
    assert!(repository.get_by_id(3).unwrap().is_none());

    let mut empty = InMemoryTodoRepository::new();
    assert_eq!(empty.update(1, entity(1, "first")).err(), Some(RepositoryError::NotFound));
    assert_eq!(empty.get_all().unwrap().len(), 0);
}

#[test]
fn delete_removes_exactly_the_stored_identifier() {
    let mut repository = InMemoryTodoRepository::new();
    repository.insert(entity(1, "first")).unwrap();
    repository.insert(entity(2, "second")).unwrap();
    repository.insert(entity(3, "third")).unwrap();

    assert_eq!(repository.delete(2), Ok(true));
    assert!(repository.get_by_id(2).unwrap().is_none());
    assert_eq!(titles(&repository), vec!["first".to_string(), "third".to_string()]);

    assert_eq!(repository.delete(2), Ok(false));
    assert_eq!(repository.delete(9), Ok(false));
    assert_eq!(titles(&repository), vec!["first".to_string(), "third".to_string()]);

    assert_eq!(repository.delete(1), Ok(true));
    assert_eq!(repository.delete(3), Ok(true));
    assert_eq!(repository.get_all().unwrap().len(), 0);
    assert_eq!(repository.delete(3), Ok(false));
}

#[test]
fn listing_grows_and_shrinks_by_one() {
    let mut repository = InMemoryTodoRepository::new();
    let mut expected = 0;
    for id in 10..15u128 {
        assert_eq!(repository.get_all().unwrap().len(), expected);
        repository.insert(entity(id, "row")).unwrap();
        expected += 1;
        assert_eq!(repository.get_all().unwrap().len(), expected);
    }
    assert!(repository.insert(entity(12, "again")).is_err());
    assert_eq!(repository.get_all().unwrap().len(), 5);
    for id in 10..15u128 {
        assert_eq!(repository.delete(id), Ok(true));
        expected -= 1;
        assert_eq!(repository.get_all().unwrap().len(), expected);
    }
}

#[test]
fn a_deleted_identifier_can_be_stored_again() {
    let mut repository = InMemoryTodoRepository::new();
    repository.insert(entity(1, "first")).unwrap();
    assert_eq!(repository.delete(1), Ok(true));
    let again = repository.insert(entity(1, "again")).unwrap();
    assert_eq!(again.title, "again");
    assert_eq!(repository.get_by_id(1).unwrap().unwrap().title, "again");
}

#[test]
fn create_update_delete_scenario() {
    let mut repository = InMemoryTodoRepository::new();
    repository.insert(entity(1, "already there")).unwrap();
    let initial_count = repository.get_all().unwrap().len();

    let created = repository
        .insert(
            CreateTodoItemRequest {
                title: "Test create".to_string(),
                description: "We should test the create method".to_string(),
            }
            .into(),
        )
        .unwrap();
    let response: TodoItem = created.clone().into();
    assert_eq!(uuid::Uuid::from_u128(response.id).get_version_num(), 4);
    assert_eq!(response.title, "Test create");
    assert_eq!(response.completed, false);
    assert!(response.completed_at.is_none());
    assert_eq!(repository.get_all().unwrap().len(), initial_count + 1);

    let updated = repository
        .update(
            created.id,
            UpdateTodoItemRequest {
                new_title: "Test update".to_string(),
                new_description: "We should test the update method".to_string(),
                completed: true,
            }
            .into(),
        )
        .unwrap();
    let response: TodoItem = updated.into();
    assert_eq!(response.id, created.id);
    assert_eq!(response.title, "Test update");
    assert_eq!(response.description, "We should test the update method");
    assert_eq!(response.completed, true);
    assert!(response.completed_at.is_some());
    assert_eq!(response.created_at, created.created_at);

    assert_eq!(repository.delete(created.id), Ok(true));
    assert_eq!(repository.get_all().unwrap().len(), initial_count);
}
