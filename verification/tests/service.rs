use todo_api::external_service::{FaultInjection, MockNotificationService, Notification};
use todo_api::ident::is_v4;
use todo_api::models::{
    BatchCreateRequest, CreateTodoRequest, Timestamp, Todo, UpdateTodoRequest,
};
use todo_api::repository::{MemoryTodoRepository, RepositoryError, TodoRepository};
use todo_api::service::{
    create_batch, create_todo, create_todo_as, delete_completed, delete_todo, get_todo,
    list_todos, stamp_batch, submit_batch, update_todo, update_todo_at,
};

fn at(secs: i64) -> Timestamp {
    Timestamp { secs, nanos: 0 }
}

fn request(title: &str) -> CreateTodoRequest {
    CreateTodoRequest { title: title.to_string(), description: None }
}

fn change(completed: Option<bool>) -> UpdateTodoRequest {
    UpdateTodoRequest { title: None, description: None, completed }
}

fn reliable() -> MockNotificationService {
    MockNotificationService::with_faults(FaultInjection::Fixed { delay_ms: 0, roll: 99 })
}

fn failing() -> MockNotificationService {
    MockNotificationService::with_faults(FaultInjection::Fixed { delay_ms: 0, roll: 0 })
}

fn item(id: u128, title: &str, created: i64) -> Todo {
    Todo {
        id,
        title: title.to_string(),
        description: None,
        completed: false,
        created_at: at(created),
        updated_at: at(created),
    }
}

fn completed_attempts(notifier: &MockNotificationService) -> usize {
    notifier.sent.iter().filter(|n| matches!(n, Notification::Completed { .. })).count()
}

#[test]
fn create_assigns_id_and_time_and_announces() {
    let mut repo = MemoryTodoRepository::new();
    let mut notifier = reliable();
    let created = create_todo_as(
        &mut repo,
        &mut notifier,
        42,
        CreateTodoRequest { title: "write".to_string(), description: Some("a page".to_string()) },
        Timestamp { secs: 100, nanos: 7 },
    )
    .unwrap();
    assert_eq!(
        created,
        Todo {
            id: 42,
            title: "write".to_string(),
            description: Some("a page".to_string()),
            completed: false,
            created_at: Timestamp { secs: 100, nanos: 7 },
            updated_at: Timestamp { secs: 100, nanos: 7 },
        }
    );
    assert_eq!(get_todo(&repo, 42), Ok(created));
    assert_eq!(
        notifier.sent,
        vec![Notification::Created { todo_id: 42, title: "write".to_string() }]
    );
}

#[test]
fn created_ids_are_unique_across_the_store() {
    let mut repo = MemoryTodoRepository::new();
    let mut notifier = reliable();
    let mut seen = Vec::new();
    for n in 0..50 {
        let created = create_todo(&mut repo, &mut notifier, request(&format!("t{}", n))).unwrap();
        assert_eq!(created.created_at, created.updated_at);
        assert!(!seen.contains(&created.id));
        seen.push(created.id);
    }
    let listed = list_todos(&repo).unwrap();
    assert_eq!(listed.len(), 50);
    for id in seen {
        assert_eq!(listed.iter().filter(|t| t.id == id).count(), 1);
    }
}

#[test]
fn created_ids_are_random_uuids_and_times_are_current() {
    let mut repo = MemoryTodoRepository::new();
    let mut notifier = reliable();
    let created = create_todo(&mut repo, &mut notifier, request("now")).unwrap();
    assert!(is_v4(created.id));
    assert_ne!(created.id, 0);
    assert!(created.created_at.secs > 1_600_000_000);
    assert!(created.created_at.nanos < 1_000_000_000);
}

#[test]
fn create_under_a_taken_id_is_a_conflict_and_announces_nothing() {
    let mut repo = MemoryTodoRepository::new();
    let mut notifier = reliable();
    create_todo_as(&mut repo, &mut notifier, 1, request("first"), at(10)).unwrap();
    let second = create_todo_as(&mut repo, &mut notifier, 1, request("second"), at(20));
    assert_eq!(second, Err(RepositoryError::Conflict(1)));
    assert_eq!(notifier.sent.len(), 1);
    assert_eq!(list_todos(&repo), Ok(vec![item(1, "first", 10)]));
}

#[test]
fn update_leaves_omitted_fields_as_they_were() {
    let mut repo = MemoryTodoRepository::new();
    let mut notifier = reliable();
    create_todo_as(
        &mut repo,
        &mut notifier,
        1,
        CreateTodoRequest { title: "title".to_string(), description: Some("text".to_string()) },
        at(10),
    )
    .unwrap();
    let updated = update_todo_at(&mut repo, &mut notifier, 1, change(Some(true)), at(20)).unwrap();
    assert_eq!(
        updated,
        Todo {
            id: 1,
            title: "title".to_string(),
            description: Some("text".to_string()),
            completed: true,
            created_at: at(10),
            updated_at: at(20),
        }
    );
    let renamed = update_todo_at(
        &mut repo,
        &mut notifier,
        1,
        UpdateTodoRequest { title: Some("other".to_string()), description: None, completed: None },
        at(30),
    )
    .unwrap();
    assert_eq!(renamed.title, "other");
    assert_eq!(renamed.description, Some("text".to_string()));
    assert!(renamed.completed);
    assert_eq!(renamed.created_at, at(10));
    assert_eq!(renamed.updated_at, at(30));
    let described = update_todo_at(
        &mut repo,
        &mut notifier,
        1,
        UpdateTodoRequest { title: None, description: Some("more".to_string()), completed: None },
        at(40),
    )
    .unwrap();
    assert_eq!(described.title, "other");
    assert_eq!(described.description, Some("more".to_string()));
    assert_eq!(get_todo(&repo, 1), Ok(described));
}

#[test]
fn update_that_names_nothing_still_moves_the_last_change() {
    let mut repo = MemoryTodoRepository::new();
    let mut notifier = reliable();
    create_todo_as(&mut repo, &mut notifier, 1, request("same"), at(10)).unwrap();
    let updated = update_todo_at(&mut repo, &mut notifier, 1, change(None), at(11)).unwrap();
    assert_eq!(updated.updated_at, at(11));
    assert_eq!(updated.title, "same");
    assert!(!updated.completed);
}

#[test]
fn update_with_the_clock_does_not_move_the_last_change_back() {
    let mut repo = MemoryTodoRepository::new();
    let mut notifier = reliable();
    let created = create_todo(&mut repo, &mut notifier, request("tick")).unwrap();
    let updated = update_todo(&mut repo, &mut notifier, created.id, change(Some(true))).unwrap();
    assert!(created.updated_at.le(&updated.updated_at));
    assert_eq!(updated.created_at, created.created_at);
}

#[test]
fn only_completing_is_announced() {
    let mut repo = MemoryTodoRepository::new();
    let mut notifier = reliable();
    create_todo_as(&mut repo, &mut notifier, 1, request("task"), at(10)).unwrap();
    assert_eq!(completed_attempts(&notifier), 0);
    update_todo_at(&mut repo, &mut notifier, 1, change(Some(false)), at(11)).unwrap();
    assert_eq!(completed_attempts(&notifier), 0);
    update_todo_at(&mut repo, &mut notifier, 1, change(Some(true)), at(12)).unwrap();
    assert_eq!(completed_attempts(&notifier), 1);
    assert_eq!(
        notifier.sent.last(),
        Some(&Notification::Completed { todo_id: 1, title: "task".to_string() })
    );
    update_todo_at(&mut repo, &mut notifier, 1, change(Some(true)), at(13)).unwrap();
    assert_eq!(completed_attempts(&notifier), 1);
    update_todo_at(&mut repo, &mut notifier, 1, change(None), at(14)).unwrap();
    assert_eq!(completed_attempts(&notifier), 1);
    update_todo_at(&mut repo, &mut notifier, 1, change(Some(false)), at(15)).unwrap();
    assert_eq!(completed_attempts(&notifier), 1);
    update_todo_at(&mut repo, &mut notifier, 1, change(Some(true)), at(16)).unwrap();
    assert_eq!(completed_attempts(&notifier), 2);
}

#[test]
fn completing_announces_the_title_after_the_update() {
    let mut repo = MemoryTodoRepository::new();
    let mut notifier = reliable();
    create_todo_as(&mut repo, &mut notifier, 1, request("draft"), at(10)).unwrap();
    update_todo_at(
        &mut repo,
        &mut notifier,
        1,
        UpdateTodoRequest {
            title: Some("final".to_string()),
            description: None,
            completed: Some(true),
        },
        at(11),
    )
    .unwrap();
    assert_eq!(
        notifier.sent.last(),
        Some(&Notification::Completed { todo_id: 1, title: "final".to_string() })
    );
}

#[test]
fn unknown_ids_are_not_found_and_nothing_changes() {
    let mut repo = MemoryTodoRepository::new();
    let mut notifier = reliable();
    create_todo_as(&mut repo, &mut notifier, 1, request("kept"), at(10)).unwrap();
    let before = list_todos(&repo).unwrap();
    let sent_before = notifier.sent.len();
    assert_eq!(get_todo(&repo, 2), Err(RepositoryError::NotFound(2)));
    assert_eq!(
        update_todo_at(&mut repo, &mut notifier, 2, change(Some(true)), at(20)),
        Err(RepositoryError::NotFound(2))
    );
    assert_eq!(
        update_todo(&mut repo, &mut notifier, 2, change(Some(true))),
        Err(RepositoryError::NotFound(2))
    );
    assert_eq!(delete_todo(&mut repo, 2), Err(RepositoryError::NotFound(2)));
    assert_eq!(list_todos(&repo).unwrap(), before);
    assert_eq!(notifier.sent.len(), sent_before);
    assert!(repo.update(item(2, "x", 1)).is_err());
}

#[test]
fn deleted_ids_are_not_found() {
    let mut repo = MemoryTodoRepository::new();
    let mut notifier = reliable();
    create_todo_as(&mut repo, &mut notifier, 1, request("gone"), at(10)).unwrap();
    let sent_before = notifier.sent.len();
    assert_eq!(delete_todo(&mut repo, 1), Ok(()));
    assert_eq!(notifier.sent.len(), sent_before);
    assert_eq!(get_todo(&repo, 1), Err(RepositoryError::NotFound(1)));
    assert_eq!(
        update_todo_at(&mut repo, &mut notifier, 1, change(Some(true)), at(20)),
        Err(RepositoryError::NotFound(1))
    );
    assert_eq!(delete_todo(&mut repo, 1), Err(RepositoryError::NotFound(1)));
    assert_eq!(list_todos(&repo), Ok(vec![]));
    assert_eq!(completed_attempts(&notifier), 0);
}

#[test]
fn list_counts_creates_less_deletes_newest_first() {
    let mut repo = MemoryTodoRepository::new();
    let mut notifier = reliable();
    for n in 1..=6u128 {
        create_todo_as(&mut repo, &mut notifier, n, request("t"), at(n as i64)).unwrap();
    }
    delete_todo(&mut repo, 3).unwrap();
    delete_todo(&mut repo, 6).unwrap();
    assert!(delete_todo(&mut repo, 6).is_err());
    let listed = list_todos(&repo).unwrap();
    assert_eq!(listed.iter().map(|t| t.id).collect::<Vec<u128>>(), vec![5, 4, 2, 1]);
}

#[test]
fn a_failing_notifier_changes_no_outcome() {
    let mut repo = MemoryTodoRepository::new();
    let mut notifier = failing();
    let created = create_todo_as(&mut repo, &mut notifier, 1, request("anyway"), at(10));
    assert_eq!(created, Ok(item(1, "anyway", 10)));
    let updated = update_todo_at(&mut repo, &mut notifier, 1, change(Some(true)), at(20)).unwrap();
    assert!(updated.completed);
    assert_eq!(get_todo(&repo, 1), Ok(updated));
    let response = submit_batch(&mut repo, &mut notifier, vec![item(2, "b", 30)]);
    assert_eq!(response.created, vec![item(2, "b", 30)]);
    assert!(response.errors.is_empty());
    assert_eq!(notifier.sent.len(), 3);
    assert_eq!(notifier.calls.len(), 3);
    let by_clock = create_todo(&mut repo, &mut notifier, request("clock")).unwrap();
    assert!(update_todo(&mut repo, &mut notifier, by_clock.id, change(Some(true))).is_ok());
}

#[test]
fn batch_reports_total_and_created_and_announces_the_size() {
    let mut repo = MemoryTodoRepository::new();
    let mut notifier = reliable();
    let batch = vec![item(1, "a", 10), item(2, "b", 20), item(3, "c", 30)];
    let response = submit_batch(&mut repo, &mut notifier, batch.clone());
    assert_eq!(response.total, 3);
    assert_eq!(response.created, batch);
    assert!(response.errors.is_empty());
    assert_eq!(notifier.sent, vec![Notification::BatchSummary { count: 3 }]);
}

#[test]
fn batch_that_fails_partway_reports_what_was_created() {
    let mut repo = MemoryTodoRepository::new();
    let mut notifier = reliable();
    create_todo_as(&mut repo, &mut notifier, 7, request("there"), at(1)).unwrap();
    let batch =
        vec![item(1, "a", 10), item(2, "b", 20), item(7, "c", 30), item(4, "d", 40), item(5, "e", 50)];
    let response = submit_batch(&mut repo, &mut notifier, batch);
    assert_eq!(response.total, 5);
    assert_eq!(response.created, vec![item(1, "a", 10), item(2, "b", 20)]);
    assert_eq!(
        response.errors,
        vec!["Todo already exists: 00000000-0000-0000-0000-000000000007".to_string()]
    );
    assert_eq!(get_todo(&repo, 1), Ok(item(1, "a", 10)));
    assert_eq!(get_todo(&repo, 2), Ok(item(2, "b", 20)));
    assert_eq!(get_todo(&repo, 4), Err(RepositoryError::NotFound(4)));
    assert_eq!(get_todo(&repo, 5), Err(RepositoryError::NotFound(5)));
    assert_eq!(get_todo(&repo, 7), Ok(item(7, "there", 1)));
    assert_eq!(notifier.sent.len(), 1);
}

#[test]
fn batch_whose_first_item_fails_creates_nothing() {
    let mut repo = MemoryTodoRepository::new();
    let mut notifier = reliable();
    create_todo_as(&mut repo, &mut notifier, 7, request("there"), at(1)).unwrap();
    let response = submit_batch(&mut repo, &mut notifier, vec![item(7, "c", 30), item(4, "d", 40)]);
    assert_eq!(response.total, 2);
    assert!(response.created.is_empty());
    assert_eq!(response.errors.len(), 1);
    assert_eq!(list_todos(&repo).unwrap().len(), 1);
}

#[test]
fn empty_batch_succeeds_and_announces_zero() {
    let mut repo = MemoryTodoRepository::new();
    let mut notifier = reliable();
    let response = create_batch(&mut repo, &mut notifier, BatchCreateRequest { todos: vec![] });
    assert_eq!(response.total, 0);
    assert!(response.created.is_empty());
    assert!(response.errors.is_empty());
    assert_eq!(notifier.sent, vec![Notification::BatchSummary { count: 0 }]);
}

#[test]
fn batch_from_requests_stamps_every_item() {
    let mut repo = MemoryTodoRepository::new();
    let mut notifier = reliable();
    let payload = BatchCreateRequest {
        todos: vec![
            request("a"),
            CreateTodoRequest { title: "b".to_string(), description: Some("bee".to_string()) },
            request("c"),
        ],
    };
    let response = create_batch(&mut repo, &mut notifier, payload);
    assert_eq!(response.total, 3);
    assert!(response.errors.is_empty());
    let titles: Vec<&str> = response.created.iter().map(|t| t.title.as_str()).collect();
    assert_eq!(titles, vec!["a", "b", "c"]);
    assert_eq!(response.created[1].description, Some("bee".to_string()));
    for todo in &response.created {
        assert!(is_v4(todo.id));
        assert!(!todo.completed);
        assert_eq!(todo.created_at, todo.updated_at);
        assert_eq!(get_todo(&repo, todo.id).as_ref(), Ok(todo));
    }
    assert_eq!(notifier.sent, vec![Notification::BatchSummary { count: 3 }]);
    assert_eq!(list_todos(&repo).unwrap().len(), 3);
}

#[test]
fn stamping_keeps_the_inputs_in_order() {
    let inputs = vec![request("x"), request("y")];
    let todos = stamp_batch(&inputs);
    assert_eq!(todos.len(), 2);
    assert_eq!(todos[0].title, "x");
    assert_eq!(todos[1].title, "y");
    assert_ne!(todos[0].id, todos[1].id);
}

#[test]
fn delete_completed_reports_the_count() {
    let mut repo = MemoryTodoRepository::new();
    let mut notifier = reliable();
    for n in 1..=4u128 {
        create_todo_as(&mut repo, &mut notifier, n, request("t"), at(n as i64)).unwrap();
    }
    update_todo_at(&mut repo, &mut notifier, 1, change(Some(true)), at(10)).unwrap();
    update_todo_at(&mut repo, &mut notifier, 4, change(Some(true)), at(11)).unwrap();
    let sent_before = notifier.sent.len();
    assert_eq!(delete_completed(&mut repo).unwrap().deleted_count, 2);
    assert_eq!(delete_completed(&mut repo).unwrap().deleted_count, 0);
    assert_eq!(notifier.sent.len(), sent_before);
    let listed = list_todos(&repo).unwrap();
    assert_eq!(listed.iter().map(|t| t.id).collect::<Vec<u128>>(), vec![3, 2]);
}
