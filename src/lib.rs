//! A small user-directory HTTP service, split into verified decisions and the
//! I/O around them: counters for requests and errors, request routing, the
//! parsing of a user id from a path, and the reply chosen for each outcome of
//! the backing store.

pub mod handler;
pub mod laws;
pub mod metric;
pub mod model;
pub mod path;

pub use handler::{
    failure_reply, route, start, step, Action, Event, Failure, Method, Payload, Reply, Route,
};
pub use metric::{MetricsCollector, MetricsStats};
pub use model::{CreateUser, StoreError, User};
