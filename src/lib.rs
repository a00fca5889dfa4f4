//! Data-access layer for a multi-user task tracker: the task and user
//! models, the error taxonomy, the pool settings and the task repository,
//! whose operations are specified over a mathematical view of the `tasks`
//! table.
use vstd::prelude::*;

pub mod constants;
pub mod db;
pub mod error;
pub mod models;

pub use db::{PoolConfig, TaskRepository, TaskTable};
pub use error::{AppError, AppResult};
pub use models::{
    CreateTask, CreateUser, Task, TaskPriority, TaskStatus, Timestamp, UpdateTask, UpdateUser,
    User, UserResponse,
};

verus! {

/// Version of this library.
pub const VERSION: &'static str = "0.1.0";

/// Name of this library.
pub const APP_NAME: &'static str = "shared";

/// Connection string of the default store file.
pub const DEFAULT_DB_PATH: &'static str = "sqlite:tasks.db";

} // verus!
