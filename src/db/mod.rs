//! The pool settings and the task repository.
pub mod connection;
pub mod laws;
pub mod outcome;
pub mod repository;
pub mod statement;

pub use connection::PoolConfig;
pub use repository::{TaskFilter, TaskRepository, TaskTable};
pub use outcome::{delete_outcome, found_or_not_found, owned_from_count};
pub use statement::{TaskColumn, update_sql};
