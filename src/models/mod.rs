//! Domain models: tasks, users and their create/update projections.
pub mod task;
pub mod user;

pub use task::{CreateTask, Task, TaskPriority, TaskStatus, Timestamp, UpdateTask};
pub use user::{CreateUser, UpdateUser, User, UserResponse};
