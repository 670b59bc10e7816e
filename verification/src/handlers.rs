//! One function per endpoint: each computes exactly the payload the service
//! returns for that endpoint, against the store's map view. Encoding the
//! payloads as JSON and speaking HTTP are left to the surrounding process.

use vstd::prelude::*;

use crate::ext::{format_rfc3339, fresh_id, now_millis, rfc3339_of, rfc3339_representable};
use crate::store::{completed_count, lemma_completed_count_le_len, lemma_map_of_len, TaskStore};
use crate::task::{apply_update, Task, TaskCreate, TaskUpdate};
use crate::text::{metrics_text, not_found_message, not_found_text, render_metrics};

verus! {

/// The health payload: four fixed fields and the current time.
pub struct HealthInfo {
    pub status: String,
    pub version: String,
    pub timestamp: String,
    pub environment: String,
    pub database: String,
}

/// The health payload for clock reading `now` and environment setting
/// `env`; the environment field falls back to `"production"` when the
/// variable is unset.
pub fn health_payload(now: i64, env: Option<String>) -> (r: HealthInfo)
    ensures
        r.status@ == "healthy"@,
        r.version@ == "1.0.0"@,
        r.database@ == "connected"@,
        (match env {
            Some(e) => r.environment@ == e@,
            None => r.environment@ == "production"@,
        }),
        rfc3339_representable(now as int) ==> r.timestamp@ == rfc3339_of(now as int),
        r.timestamp@ == rfc3339_of(now as int) || r.timestamp@ == Seq::<char>::empty(),
{
    let timestamp = match format_rfc3339(now) {
        Some(s) => s,
        None => String::new(),
    };
    let environment = match env {
        Some(e) => e,
        None => "production".to_owned(),
    };
    HealthInfo {
        status: "healthy".to_owned(),
        version: "1.0.0".to_owned(),
        timestamp,
        environment,
        database: "connected".to_owned(),
    }
}

/// The health endpoint: reads the clock and builds the payload. The
/// timestamp field renders whatever instant the clock reported.
pub fn health_check(env: Option<String>) -> (r: HealthInfo)
    ensures
        r.status@ == "healthy"@,
        r.version@ == "1.0.0"@,
        r.database@ == "connected"@,
        (match env {
            Some(e) => r.environment@ == e@,
            None => r.environment@ == "production"@,
        }),
{
    let now = now_millis();
    health_payload(now, env)
}

/// The list payload: a snapshot of every live record, and their number.
pub struct TaskList {
    pub tasks: Vec<Task>,
    pub total: usize,
}

/// The list endpoint: `total` is both the length of the returned snapshot
/// and the number of live records in the store.
pub fn list_tasks(store: &TaskStore) -> (r: TaskList)
    requires
        store.wf(),
    ensures
        r.total == r.tasks@.len(),
        r.total == store@.len(),
        (r.tasks@.map_values(|t: Task| t@) == store.views()),
{
    proof {
        lemma_map_of_len(store.views());
    }
    let tasks = store.list();
    let total = tasks.len();
    TaskList { tasks, total }
}

/// The create endpoint: draws a fresh identifier and one clock reading,
/// inserts the new record, and returns it. Both timestamps of the new
/// record are that single reading.
pub fn create_task(store: &mut TaskStore, req: TaskCreate) -> (t: Task)
    requires
        old(store).wf(),
    ensures
        final(store).wf(),
        t@.title == req.title@,
        t@.description == req.description@,
        !t.completed,
        t.created_at == t.updated_at,
        t@.id.len() == 36,
        final(store)@ == old(store)@.insert(t@.id, t@),
{
    let id = fresh_id();
    let now = now_millis();
    let task = Task {
        id,
        title: req.title,
        description: req.description,
        completed: false,
        created_at: now,
        updated_at: now,
    };
    let snapshot = task.clone();
    store.insert(task);
    snapshot
}

/// The single-task endpoint: the record for `id`, or the not-found message
/// exactly when no live record has that identifier.
pub fn get_task(store: &TaskStore, id: &String) -> (r: Result<Task, String>)
    requires
        store.wf(),
    ensures
        (match r {
            Ok(t) => store@.contains_key(id@) && t@ == store@[id@],
            Err(m) => !store@.contains_key(id@) && m@ == not_found_text(id@),
        }),
{
    match store.get(id) {
        Some(t) => Ok(t),
        None => Err(not_found_message(id)),
    }
}

/// The update endpoint: applies the present fields of `up` to the record
/// for `id`, stamps it with a fresh clock reading (returned in the
/// record's `updated_at`), and returns the updated record; the not-found
/// message, with the store untouched, exactly when no live record has that
/// identifier.
pub fn update_task(store: &mut TaskStore, id: &String, up: &TaskUpdate) -> (r: Result<
    Task,
    String,
>)
    requires
        old(store).wf(),
    ensures
        final(store).wf(),
        (match r {
            Ok(t) => old(store)@.contains_key(id@) && t@ == apply_update(
                old(store)@[id@],
                up@,
                t@.updated_at,
            ) && final(store)@ == old(store)@.insert(id@, t@),
            Err(m) => !old(store)@.contains_key(id@) && m@ == not_found_text(id@)
                && *final(store) == *old(store),
        }),
{
    let now = now_millis();
    match store.update(id, up, now) {
        Some(t) => Ok(t),
        None => Err(not_found_message(id)),
    }
}

/// The delete endpoint: removes the record for `id`; the not-found
/// message, with the store untouched, exactly when no live record has that
/// identifier.
pub fn delete_task(store: &mut TaskStore, id: &String) -> (r: Result<(), String>)
    requires
        old(store).wf(),
    ensures
        final(store).wf(),
        (match r {
            Ok(u) => old(store)@.contains_key(id@) && final(store)@ == old(store)@.remove(id@),
            Err(m) => !old(store)@.contains_key(id@) && m@ == not_found_text(id@)
                && *final(store) == *old(store),
        }),
{
    let removed = store.remove(id);
    if removed {
        Ok(())
    } else {
        Err(not_found_message(id))
    }
}

/// The counts behind the metrics endpoint.
pub struct MetricsReport {
    pub total: usize,
    pub completed: usize,
    pub pending: usize,
}

/// The task counts: `total` is the number of live records, `completed` the
/// number of them that are completed, and the two partition the store:
/// `total == completed + pending`.
pub fn metrics_report(store: &TaskStore) -> (r: MetricsReport)
    requires
        store.wf(),
    ensures
        r.total == store@.len(),
        r.completed == completed_count(store.views()),
        r.total == r.completed + r.pending,
{
    proof {
        lemma_map_of_len(store.views());
        lemma_completed_count_le_len(store.views());
    }
    let total = store.len();
    let completed = store.count_completed();
    let pending = total - completed;
    MetricsReport { total, completed, pending }
}

/// The metrics endpoint: the exposition body for the store's counts, with
/// `pending` the difference of the other two.
pub fn metrics(store: &TaskStore) -> (r: String)
    requires
        store.wf(),
    ensures
        r@ == metrics_text(
            store@.len(),
            completed_count(store.views()),
            (store@.len() - completed_count(store.views())) as nat,
        ),
{
    proof {
        lemma_map_of_len(store.views());
    }
    let report = metrics_report(store);
    render_metrics(report.total, report.completed, report.pending)
}

/// The informational payload of the root endpoint.
pub struct RootInfo {
    pub message: String,
    pub version: String,
    pub docker_track: String,
    pub endpoint_health: String,
    pub endpoint_tasks: String,
    pub endpoint_metrics: String,
    pub quick_create: String,
    pub quick_list: String,
    pub performance: String,
}

/// The root endpoint: a fixed informational payload, no store access.
pub fn root() -> (r: RootInfo)
    ensures
        r.message@ == "Task Management API - Rust Edition"@,
        r.version@ == "1.0.0"@,
        r.docker_track@ == "rust"@,
        r.endpoint_health@ == "/health"@,
        r.endpoint_tasks@ == "/api/tasks"@,
        r.endpoint_metrics@ == "/metrics"@,
        r.quick_create@ == "POST /api/tasks"@,
        r.quick_list@ == "GET /api/tasks"@,
        r.performance@ == "Blazingly fast!"@,
{
    RootInfo {
        message: "Task Management API - Rust Edition".to_owned(),
        version: "1.0.0".to_owned(),
        docker_track: "rust".to_owned(),
        endpoint_health: "/health".to_owned(),
        endpoint_tasks: "/api/tasks".to_owned(),
        endpoint_metrics: "/metrics".to_owned(),
        quick_create: "POST /api/tasks".to_owned(),
        quick_list: "GET /api/tasks".to_owned(),
        performance: "Blazingly fast!".to_owned(),
    }
}

} // verus!
