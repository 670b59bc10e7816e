use task_api::handlers::{
    create_task, delete_task, get_task, health_check, health_payload, list_tasks, metrics,
    metrics_report, root, update_task,
};
use task_api::store::TaskStore;
use task_api::task::{TaskCreate, TaskUpdate};
use task_api::text::{not_found_message, render_metrics, render_usize};

fn no_change() -> TaskUpdate {
    TaskUpdate { title: None, description: None, completed: None }
}

#[test]
fn create_then_get_returns_identical_record() {
    let mut store = TaskStore::new();
    let created = create_task(
        &mut store,
        TaskCreate { title: "write report".to_string(), description: "for Monday".to_string() },
    );
    assert_eq!(created.title, "write report");
    assert_eq!(created.description, "for Monday");
    assert!(!created.completed);
    assert_eq!(created.created_at, created.updated_at);
    assert_eq!(created.id.len(), 36);

    let fetched = get_task(&store, &created.id).expect("created task must be retrievable");
    assert_eq!(fetched.id, created.id);
    assert_eq!(fetched.title, created.title);
    assert_eq!(fetched.description, created.description);
    assert!(!fetched.completed);
    assert_eq!(fetched.created_at, fetched.updated_at);
}

#[test]
fn update_changes_only_present_fields() {
    let mut store = TaskStore::new();
    let created = create_task(
        &mut store,
        TaskCreate { title: "water plants".to_string(), description: "balcony".to_string() },
    );

    let up = TaskUpdate { title: None, description: None, completed: Some(true) };
    let updated = update_task(&mut store, &created.id, &up).expect("task is live");
    assert_eq!(updated.title, "water plants");
    assert_eq!(updated.description, "balcony");
    assert!(updated.completed);
    assert_eq!(updated.created_at, created.created_at);
    assert!(updated.updated_at >= created.updated_at);

    let up2 = TaskUpdate { title: Some("water all plants".to_string()), description: None, completed: None };
    let updated2 = update_task(&mut store, &created.id, &up2).expect("task is live");
    assert_eq!(updated2.title, "water all plants");
    assert_eq!(updated2.description, "balcony");
    assert!(updated2.completed);
    assert!(updated2.updated_at >= updated.updated_at);
}

#[test]
fn delete_makes_every_operation_report_not_found() {
    let mut store = TaskStore::new();
    let created = create_task(
        &mut store,
        TaskCreate { title: "a".to_string(), description: "b".to_string() },
    );
    delete_task(&mut store, &created.id).expect("task is live");

    let expected = format!("Task with id {} not found", created.id);
    match get_task(&store, &created.id) {
        Ok(_) => panic!("get found a deleted task"),
        Err(m) => assert_eq!(m, expected),
    }
    match update_task(&mut store, &created.id, &no_change()) {
        Ok(_) => panic!("update found a deleted task"),
        Err(m) => assert_eq!(m, expected),
    }
    match delete_task(&mut store, &created.id) {
        Ok(_) => panic!("delete found a deleted task"),
        Err(m) => assert_eq!(m, expected),
    }
}

#[test]
fn totals_partition_the_store() {
    let mut store = TaskStore::new();
    let mut ids: Vec<String> = Vec::new();
    for i in 0..3 {
        let t = create_task(
            &mut store,
            TaskCreate { title: format!("task {}", i), description: "d".to_string() },
        );
        ids.push(t.id);
    }
    let done = TaskUpdate { title: None, description: None, completed: Some(true) };
    update_task(&mut store, &ids[1], &done).expect("task is live");

    let report = metrics_report(&store);
    assert_eq!(report.total, 3);
    assert_eq!(report.completed, 1);
    assert_eq!(report.pending, 2);
    assert_eq!(report.total, report.completed + report.pending);

    let listing = list_tasks(&store);
    assert_eq!(listing.total, 3);
    assert_eq!(listing.tasks.len(), 3);
    assert_eq!(listing.total, report.total);
}

#[test]
fn metrics_body_is_exact_exposition_text() {
    let mut store = TaskStore::new();
    assert_eq!(
        metrics(&store),
        "# HELP tasks_total Total number of tasks\n\
         # TYPE tasks_total counter\n\
         tasks_total 0\n\n\
         # HELP tasks_completed Number of completed tasks\n\
         # TYPE tasks_completed gauge\n\
         tasks_completed 0\n\n\
         # HELP tasks_pending Number of pending tasks\n\
         # TYPE tasks_pending gauge\n\
         tasks_pending 0\n"
    );

    create_task(&mut store, TaskCreate { title: "t".to_string(), description: "d".to_string() });
    let body = metrics(&store);
    assert_eq!(
        body,
        "# HELP tasks_total Total number of tasks\n\
         # TYPE tasks_total counter\n\
         tasks_total 1\n\n\
         # HELP tasks_completed Number of completed tasks\n\
         # TYPE tasks_completed gauge\n\
         tasks_completed 0\n\n\
         # HELP tasks_pending Number of pending tasks\n\
         # TYPE tasks_pending gauge\n\
         tasks_pending 1\n"
    );
    assert_eq!(body, render_metrics(1, 0, 1));
}

#[test]
fn decimal_rendering_is_exact() {
    assert_eq!(render_usize(0), "0");
    assert_eq!(render_usize(7), "7");
    assert_eq!(render_usize(10), "10");
    assert_eq!(render_usize(409), "409");
    assert_eq!(render_usize(18446744073709551615), "18446744073709551615");
}

#[test]
fn distinct_creates_are_independent() {
    let mut store = TaskStore::new();
    let first = create_task(
        &mut store,
        TaskCreate { title: "first".to_string(), description: "1".to_string() },
    );
    let second = create_task(
        &mut store,
        TaskCreate { title: "second".to_string(), description: "2".to_string() },
    );
    assert_ne!(first.id, second.id);
    assert!(uuid::Uuid::parse_str(&first.id).is_ok());
    assert!(uuid::Uuid::parse_str(&second.id).is_ok());

    let got_first = get_task(&store, &first.id).expect("first task is live");
    let got_second = get_task(&store, &second.id).expect("second task is live");
    assert_eq!(got_first.title, "first");
    assert_eq!(got_second.title, "second");
    assert_eq!(list_tasks(&store).total, 2);
}

#[test]
fn buy_milk_scenario() {
    let mut store = TaskStore::new();
    let created = create_task(
        &mut store,
        TaskCreate { title: "Buy milk".to_string(), description: "2%".to_string() },
    );
    assert!(!created.completed);
    assert_eq!(created.id.len(), 36);

    let fetched = get_task(&store, &created.id).expect("created task must be retrievable");
    assert_eq!(fetched.title, "Buy milk");
    assert_eq!(fetched.description, "2%");

    let done = TaskUpdate { title: None, description: None, completed: Some(true) };
    let updated = update_task(&mut store, &created.id, &done).expect("task is live");
    assert!(updated.completed);
    assert_eq!(updated.title, "Buy milk");

    delete_task(&mut store, &created.id).expect("task is live");
    match get_task(&store, &created.id) {
        Ok(_) => panic!("get found a deleted task"),
        Err(m) => assert_eq!(m, format!("Task with id {} not found", created.id)),
    }
}

#[test]
fn not_found_message_is_exact() {
    assert_eq!(
        not_found_message(&"abc-123".to_string()),
        "Task with id abc-123 not found"
    );
}

#[test]
fn health_payload_renders_clock_and_environment() {
    let h = health_payload(0, None);
    assert_eq!(h.status, "healthy");
    assert_eq!(h.version, "1.0.0");
    assert_eq!(h.database, "connected");
    assert_eq!(h.environment, "production");
    assert_eq!(h.timestamp, "1970-01-01T00:00:00+00:00");

    let h2 = health_payload(947638923004, Some("staging".to_string()));
    assert_eq!(h2.environment, "staging");
    assert_eq!(
        h2.timestamp,
        chrono::DateTime::<chrono::Utc>::from_timestamp_millis(947638923004)
            .unwrap()
            .to_rfc3339()
    );

    let live = health_check(None);
    assert_eq!(live.status, "healthy");
    assert!(!live.timestamp.is_empty());
}

#[test]
fn root_payload_is_fixed() {
    let r = root();
    assert_eq!(r.message, "Task Management API - Rust Edition");
    assert_eq!(r.version, "1.0.0");
    assert_eq!(r.docker_track, "rust");
    assert_eq!(r.endpoint_health, "/health");
    assert_eq!(r.endpoint_tasks, "/api/tasks");
    assert_eq!(r.endpoint_metrics, "/metrics");
    assert_eq!(r.quick_create, "POST /api/tasks");
    assert_eq!(r.quick_list, "GET /api/tasks");
}
