//! An in-memory task store with verified CRUD operations, together with the
//! pure request-handling logic of a small task-management HTTP service.
//!
//! The store is a mapping from server-generated task identifiers to task
//! records; every operation's effect is stated against a `Map` view of that
//! store. The handler functions compute, for each endpoint, exactly the
//! payload the service returns; the surrounding process (socket, routing,
//! JSON encoding) lives outside this crate.

pub mod ext;
pub mod handlers;
pub mod laws;
pub mod store;
pub mod task;
pub mod text;
