//! A resiliency core for a message-streaming client: retry with backoff,
//! single-flight connection recovery, structural error classification, and
//! a partition checkpoint/ownership store, together with the data models
//! the client exposes.

pub mod checkpoint_store;
pub mod connection;
pub mod error;
pub mod management;
pub mod models;
pub mod resource;
pub mod retry;

pub use checkpoint_store::{Checkpoint, InMemoryCheckpointStore, Ownership};
pub use connection::ConnectionGuard;
pub use error::{AmqpError, Error, ErrorClassification, ErrorKind};
pub use management::RecoverableManagementClient;
pub use resource::{AsId, ResourceId};
pub use retry::{RetryOptions, RetryPolicy};
