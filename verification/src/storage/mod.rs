//! The stores of tasks.

pub mod calls;
pub mod in_memory;
pub mod laws;
pub mod model;
pub mod postgres;
pub mod postgres_calls;
pub mod postgres_laws;
pub mod postgres_promises;
pub mod promises;
pub mod sql;
pub mod tables;
pub mod tenants;

pub use in_memory::{InMemoryTaskStore, StoreErrorView, TaskStoreError};
pub use postgres::{PostgresTaskStore, PostgresTaskStoreError};
