use todo_api::external_service::{FaultInjection, MockNotificationService, Notification};
use todo_api::models::{CreateTodoRequest, UpdateTodoRequest};
use todo_api::repository::{MemoryTodoRepository, RepositoryError};
use todo_api::service::{create_todo, delete_completed, get_todo, update_todo};

#[test]
fn buy_milk_is_created_completed_and_swept() {
    let mut repo = MemoryTodoRepository::new();
    let mut notifier = MockNotificationService::with_faults(FaultInjection::Fixed {
        delay_ms: 0,
        roll: 99,
    });
    let created = create_todo(
        &mut repo,
        &mut notifier,
        CreateTodoRequest { title: "buy milk".to_string(), description: None },
    )
    .unwrap();
    assert!(!created.completed);
    assert_ne!(created.id, 0);
    assert_eq!(created.title, "buy milk");
    assert_eq!(created.created_at, created.updated_at);
    assert!(created.created_at.secs >= 0);

    let updated = update_todo(
        &mut repo,
        &mut notifier,
        created.id,
        UpdateTodoRequest { title: None, description: None, completed: Some(true) },
    )
    .unwrap();
    assert!(updated.completed);
    let completed: Vec<&Notification> = notifier
        .sent
        .iter()
        .filter(|n| matches!(n, Notification::Completed { .. }))
        .collect();
    assert_eq!(completed.len(), 1);
    assert_eq!(
        completed[0],
        &Notification::Completed { todo_id: created.id, title: "buy milk".to_string() }
    );

    let swept = delete_completed(&mut repo).unwrap();
    assert_eq!(swept.deleted_count, 1);
    assert_eq!(get_todo(&repo, created.id), Err(RepositoryError::NotFound(created.id)));
}
