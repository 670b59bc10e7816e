//! The task record and the partial-update request, with their mathematical
//! views.

use vstd::prelude::*;

verus! {

/// A task record: the sole entity the service manages.
///
/// Timestamps are milliseconds since the Unix epoch; `created_at` is set once
/// at creation, `updated_at` changes on every successful mutation.
pub struct Task {
    pub id: String,
    pub title: String,
    pub description: String,
    pub completed: bool,
    pub created_at: i64,
    pub updated_at: i64,
}

/// The mathematical view of a task record.
pub struct TaskView {
    pub id: Seq<char>,
    pub title: Seq<char>,
    pub description: Seq<char>,
    pub completed: bool,
    pub created_at: int,
    pub updated_at: int,
}

impl View for Task {
    type V = TaskView;

    open spec fn view(&self) -> TaskView {
        TaskView {
            id: self.id@,
            title: self.title@,
            description: self.description@,
            completed: self.completed,
            created_at: self.created_at as int,
            updated_at: self.updated_at as int,
        }
    }
}

impl Clone for Task {
    fn clone(&self) -> (r: Self)
        ensures
            r == *self,
    {
        Task {
            id: self.id.clone(),
            title: self.title.clone(),
            description: self.description.clone(),
            completed: self.completed,
            created_at: self.created_at,
            updated_at: self.updated_at,
        }
    }
}

/// The body of a creation request: both fields are required.
pub struct TaskCreate {
    pub title: String,
    pub description: String,
}

/// The body of an update request: any subset of the three fields may be
/// present, and only the present ones change the record.
pub struct TaskUpdate {
    pub title: Option<String>,
    pub description: Option<String>,
    pub completed: Option<bool>,
}

/// The mathematical view of an update request.
pub struct TaskUpdateView {
    pub title: Option<Seq<char>>,
    pub description: Option<Seq<char>>,
    pub completed: Option<bool>,
}

impl View for TaskUpdate {
    type V = TaskUpdateView;

    open spec fn view(&self) -> TaskUpdateView {
        TaskUpdateView {
            title: match self.title {
                Some(t) => Some(t@),
                None => None,
            },
            description: match self.description {
                Some(d) => Some(d@),
                None => None,
            },
            completed: self.completed,
        }
    }
}

/// What an update request does to a record: fields present in the request are
/// replaced, absent ones are kept; `id` and `created_at` never change, and
/// `updated_at` becomes `now`.
pub open spec fn apply_update(t: TaskView, up: TaskUpdateView, now: int) -> TaskView {
    TaskView {
        id: t.id,
        title: match up.title {
            Some(s) => s,
            None => t.title,
        },
        description: match up.description {
            Some(s) => s,
            None => t.description,
        },
        completed: match up.completed {
            Some(c) => c,
            None => t.completed,
        },
        created_at: t.created_at,
        updated_at: now,
    }
}

} // verus!
