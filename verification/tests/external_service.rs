use todo_api::external_service::{
    api_call_outcome, ApiCall, FaultInjection, MockNotificationService, Notification,
    NotificationService, ServiceError,
};

fn fixed(delay_ms: u64, roll: u64) -> MockNotificationService {
    MockNotificationService::with_faults(FaultInjection::Fixed { delay_ms, roll })
}

fn call(endpoint: &str, delay_ms: u64, roll: u64) -> ApiCall {
    ApiCall { endpoint: endpoint.to_string(), delay_ms, roll }
}

#[test]
fn rolls_decide_the_fate_of_a_call() {
    let failed = Err(ServiceError::NotificationFailed("Random failure".to_string()));
    assert_eq!(api_call_outcome(0), failed);
    assert_eq!(api_call_outcome(9), failed);
    assert_eq!(api_call_outcome(10), Err(ServiceError::RateLimited));
    assert_eq!(api_call_outcome(14), Err(ServiceError::RateLimited));
    assert_eq!(api_call_outcome(15), Ok(()));
    assert_eq!(api_call_outcome(99), Ok(()));
}

#[test]
fn of_a_hundred_rolls_ten_fail_and_five_are_throttled() {
    let mut failed = 0;
    let mut throttled = 0;
    let mut fine = 0;
    for roll in 0..100u64 {
        match api_call_outcome(roll) {
            Err(ServiceError::NotificationFailed(_)) => failed += 1,
            Err(ServiceError::RateLimited) => throttled += 1,
            Err(ServiceError::Timeout) => panic!("no roll times out"),
            Ok(()) => fine += 1,
        }
    }
    assert_eq!((failed, throttled, fine), (10, 5, 85));
}

#[test]
fn a_new_mock_has_recorded_nothing() {
    let mock = MockNotificationService::new();
    assert_eq!(mock.faults, FaultInjection::Random);
    assert!(mock.calls.is_empty());
    assert!(mock.sent.is_empty());
}

#[test]
fn created_notification_calls_the_webhook_then_the_mail() {
    let mut mock = fixed(7, 50);
    assert_eq!(mock.send_created_notification(3, "buy milk"), Ok(()));
    assert_eq!(mock.sent, vec![Notification::Created { todo_id: 3, title: "buy milk".to_string() }]);
    assert_eq!(
        mock.calls,
        vec![call("/webhook/todo-created", 7, 50), call("/email/send", 7, 50)]
    );
}

#[test]
fn created_notification_stops_at_a_failed_webhook() {
    let mut mock = fixed(7, 3);
    assert_eq!(
        mock.send_created_notification(3, "buy milk"),
        Err(ServiceError::NotificationFailed("Random failure".to_string()))
    );
    assert_eq!(mock.calls, vec![call("/webhook/todo-created", 7, 3)]);
    assert_eq!(mock.sent.len(), 1);
}

#[test]
fn completed_notification_calls_analytics() {
    let mut mock = fixed(1, 12);
    assert_eq!(mock.send_completed_notification(4, "done"), Err(ServiceError::RateLimited));
    assert_eq!(mock.sent, vec![Notification::Completed { todo_id: 4, title: "done".to_string() }]);
    assert_eq!(mock.calls, vec![call("/analytics/track", 1, 12)]);
}

#[test]
fn batch_summary_calls_the_aggregation_service() {
    let mut mock = fixed(2, 15);
    assert_eq!(mock.send_batch_summary(6), Ok(()));
    assert_eq!(mock.sent, vec![Notification::BatchSummary { count: 6 }]);
    assert_eq!(mock.calls, vec![call("/aggregate/batch-summary", 2, 15)]);
}

#[test]
fn simulate_api_call_records_the_call() {
    let mut mock = fixed(120, 10);
    assert_eq!(mock.simulate_api_call("/anywhere"), Err(ServiceError::RateLimited));
    assert_eq!(mock.calls, vec![call("/anywhere", 120, 10)]);
    assert!(mock.sent.is_empty());
}

#[test]
fn random_faults_stay_in_their_ranges() {
    let mut mock = MockNotificationService::new();
    let mut delays = Vec::new();
    for _ in 0..200 {
        let outcome = mock.simulate_api_call("/probe");
        let made = mock.calls.last().unwrap();
        assert!(50 <= made.delay_ms && made.delay_ms < 250);
        assert!(made.roll < 100);
        assert_eq!(outcome, api_call_outcome(made.roll));
        delays.push(made.delay_ms);
    }
    assert_eq!(mock.calls.len(), 200);
    assert!(delays.iter().any(|d| *d != delays[0]));
}

#[test]
fn latency_adds_up_the_calls_since() {
    let mut mock = fixed(40, 99);
    mock.send_created_notification(1, "a").unwrap();
    mock.send_completed_notification(1, "a").unwrap();
    assert_eq!(mock.latency_since(0), 120);
    assert_eq!(mock.latency_since(2), 40);
    assert_eq!(mock.latency_since(3), 0);
    assert_eq!(mock.latency_since(10), 0);
}

#[test]
fn latency_that_does_not_fit_is_capped() {
    let mut mock = fixed(u64::MAX - 1, 99);
    mock.send_created_notification(1, "a").unwrap();
    assert_eq!(mock.latency_since(1), u64::MAX - 1);
    assert_eq!(mock.latency_since(0), u64::MAX);
}

#[test]
fn service_error_texts() {
    assert_eq!(
        ServiceError::NotificationFailed("Random failure".to_string()).message(),
        "Notification service error: Random failure"
    );
    assert_eq!(ServiceError::Timeout.message(), "External API timeout");
    assert_eq!(ServiceError::RateLimited.message(), "Rate limited");
}
