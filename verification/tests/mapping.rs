use std::time::{Duration, SystemTime};

use todo_api::entities::todo_entity::TodoEntity;
use todo_api::models::todo_item::{CreateTodoItemRequest, TodoItem, UpdateTodoItemRequest};
use uuid::{Uuid, Variant};

fn create_request() -> CreateTodoItemRequest {
    CreateTodoItemRequest {
        title: "Test create".to_string(),
        description: "We should test the create method".to_string(),
    }
}

fn update_request(completed: bool) -> UpdateTodoItemRequest {
    UpdateTodoItemRequest {
        new_title: "Test update".to_string(),
        new_description: "We should test the update method".to_string(),
        completed,
    }
}

#[test]
fn created_entity_is_open() {
    let now = SystemTime::UNIX_EPOCH + Duration::from_secs(1_666_000_000);
    let entity = TodoEntity::created(create_request(), 42, now);
    assert_eq!(entity.id, 42);
    assert_eq!(entity.title, "Test create");
    assert_eq!(entity.description, "We should test the create method");
    assert_eq!(entity.completed, false);
    assert_eq!(entity.completed_at, None);
    assert_eq!(entity.created_at, now);
}

#[test]
fn created_entity_may_have_an_empty_description() {
    let entity = TodoEntity::created(
        CreateTodoItemRequest {
            title: "t".to_string(),
            description: String::new(),
        },
        1,
        SystemTime::UNIX_EPOCH,
    );
    assert_eq!(entity.description, "");
}

#[test]
fn updated_entity_is_completed_exactly_when_asked() {
    let now = SystemTime::UNIX_EPOCH + Duration::from_secs(1_666_000_000);
    let done = TodoEntity::updated(update_request(true), 42, now);
    assert_eq!(done.id, 42);
    assert_eq!(done.title, "Test update");
    assert_eq!(done.description, "We should test the update method");
    assert_eq!(done.completed, true);
    assert_eq!(done.completed_at, Some(now));
    assert_eq!(done.created_at, now);

    let open = TodoEntity::updated(update_request(false), 42, now);
    assert_eq!(open.completed, false);
    assert_eq!(open.completed_at, None);
}

#[test]
fn entity_from_create_request_gets_a_random_identifier() {
    let before = SystemTime::now();
    let first: TodoEntity = create_request().into();
    let second = TodoEntity::from(create_request());
    let after = SystemTime::now();

    for entity in [&first, &second] {
        let uuid = Uuid::from_u128(entity.id);
        assert_eq!(uuid.get_version_num(), 4);
        assert_eq!(uuid.get_variant(), Variant::RFC4122);
        assert_eq!(entity.title, "Test create");
        assert_eq!(entity.completed, false);
        assert!(entity.completed_at.is_none());
        assert!(before <= entity.created_at && entity.created_at <= after);
    }
    assert_ne!(first.id, second.id);
}

#[test]
fn entity_from_update_request_derives_the_completion_instant() {
    let before = SystemTime::now();
    let done: TodoEntity = update_request(true).into();
    let open: TodoEntity = update_request(false).into();
    let after = SystemTime::now();

    assert_eq!(done.title, "Test update");
    assert_eq!(done.description, "We should test the update method");
    assert_eq!(done.completed, true);
    let completed_at = done.completed_at.unwrap();
    assert!(before <= completed_at && completed_at <= after);
    assert_eq!(Uuid::from_u128(done.id).get_version_num(), 4);

    assert_eq!(open.completed, false);
    assert!(open.completed_at.is_none());
}

#[test]
fn overwrite_keeps_identifier_and_creation_instant() {
    let created_at = SystemTime::UNIX_EPOCH + Duration::from_secs(10);
    let later = SystemTime::UNIX_EPOCH + Duration::from_secs(20);
    let mut stored = TodoEntity::created(create_request(), 1, created_at);
    stored.overwrite(TodoEntity::updated(update_request(true), 2, later));
    assert_eq!(stored.id, 1);
    assert_eq!(stored.created_at, created_at);
    assert_eq!(stored.title, "Test update");
    assert_eq!(stored.description, "We should test the update method");
    assert_eq!(stored.completed, true);
    assert_eq!(stored.completed_at, Some(later));
}

#[test]
fn item_copies_the_entity_field_for_field() {
    let now = SystemTime::UNIX_EPOCH + Duration::from_secs(1_666_000_000);
    let item: TodoItem = TodoEntity::updated(update_request(true), 42, now).into();
    assert_eq!(item.id, 42);
    assert_eq!(item.title, "Test update");
    assert_eq!(item.description, "We should test the update method");
    assert_eq!(item.completed, true);
    assert_eq!(item.completed_at, Some(now));
    assert_eq!(item.created_at, now);

    let open = TodoItem::from(TodoEntity::created(create_request(), 43, now));
    assert_eq!(open.id, 43);
    assert_eq!(open.completed, false);
    assert_eq!(open.completed_at, None);
}

#[test]
fn clone_keeps_every_field() {
    let now = SystemTime::UNIX_EPOCH + Duration::from_secs(5);
    let entity = TodoEntity::updated(update_request(true), 9, now);
    let copy = entity.clone();
    assert_eq!(copy.id, entity.id);
    assert_eq!(copy.title, entity.title);
    assert_eq!(copy.description, entity.description);
    assert_eq!(copy.completed, entity.completed);
    assert_eq!(copy.completed_at, entity.completed_at);
    assert_eq!(copy.created_at, entity.created_at);
}

#[test]
fn new_item_is_open() {
    let item = TodoItem::new("Todo item 1", "Todo item 1 body");
    assert_eq!(item.title, "Todo item 1");
    assert_eq!(item.description, "Todo item 1 body");
    assert_eq!(item.completed, false);
    assert!(item.completed_at.is_none());
    assert_eq!(Uuid::from_u128(item.id).get_version_num(), 4);
    assert_eq!(Uuid::from_u128(item.id).get_variant(), Variant::RFC4122);
}
