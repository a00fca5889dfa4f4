use shared::db::connection::{JournalMode, Synchronous};
use shared::db::{delete_outcome, found_or_not_found, owned_from_count, update_sql, TaskColumn};
use shared::{
    AppError, CreateTask, PoolConfig, Task, TaskPriority, TaskStatus, UpdateTask, User, UserResponse,
};

fn sample_task() -> Task {
    Task {
        id: 7,
        title: "Learn Rust".to_string(),
        description: "Master ownership".to_string(),
        status: TaskStatus::Todo,
        priority: TaskPriority::High,
        due_date: None,
        user_id: 1,
        created_at: 100,
        updated_at: 100,
    }
}

#[test]
fn status_text_mapping() {
    assert_eq!(TaskStatus::Todo.as_str(), "todo");
    assert_eq!(TaskStatus::InProgress.as_str(), "in_progress");
    assert_eq!(TaskStatus::Done.as_str(), "done");
}

#[test]
fn priority_text_mapping_and_order() {
    assert_eq!(TaskPriority::Low.as_str(), "low");
    assert_eq!(TaskPriority::Medium.as_str(), "medium");
    assert_eq!(TaskPriority::High.as_str(), "high");
    assert_eq!(TaskPriority::Urgent.as_str(), "urgent");
    assert!(TaskPriority::Low < TaskPriority::Medium);
    assert!(TaskPriority::Medium < TaskPriority::High);
    assert!(TaskPriority::High < TaskPriority::Urgent);
    assert_eq!(TaskPriority::Low.rank(), 0);
    assert_eq!(TaskPriority::Urgent.rank(), 3);
}

#[test]
fn enum_defaults() {
    assert_eq!(TaskStatus::default(), TaskStatus::Todo);
    assert_eq!(TaskPriority::default(), TaskPriority::Medium);
}

#[test]
fn error_classification() {
    assert!(AppError::TaskNotFound(1).is_not_found());
    assert!(AppError::UserNotFound(1).is_not_found());
    assert!(!AppError::Database("locked".to_string()).is_not_found());
    assert!(AppError::Validation("too long".to_string()).is_validation());
    assert!(!AppError::Internal("x".to_string()).is_validation());
    assert!(AppError::InvalidCredentials.is_auth());
    assert!(AppError::Unauthorized("no".to_string()).is_auth());
    assert!(!AppError::UsernameExists("bob".to_string()).is_auth());
    assert!(!AppError::TaskNotFound(1).is_auth());
}

#[test]
fn user_response_drops_password_hash() {
    let user = User {
        id: 3,
        username: "alice".to_string(),
        password_hash: "SECRET-REDACTED".to_string(),
        email: Some("a@example.com".to_string()),
        created_at: 50,
        updated_at: 60,
    };
    let r = user.to_response();
    assert_eq!(r.id, 3);
    assert_eq!(r.username, "alice");
    assert_eq!(r.email, Some("a@example.com".to_string()));
    assert_eq!(r.created_at, 50);
    let r2: UserResponse = UserResponse::from(user);
    assert_eq!(r2.id, 3);
    assert_eq!(r2.username, "alice");
    assert_eq!(r2.created_at, 50);
}

#[test]
fn pool_settings() {
    let c = PoolConfig::standard();
    assert!(c.create_if_missing);
    assert!(c.foreign_keys);
    assert_eq!(c.journal_mode, JournalMode::Wal);
    assert_eq!(c.synchronous, Synchronous::Normal);
    assert_eq!(c.busy_timeout_secs, 5);
    assert_eq!(c.max_connections, 5);
    assert_eq!(c.min_connections, 1);
    assert_eq!(c.max_lifetime_secs, 3600);
    assert_eq!(c.acquire_timeout_secs, 3);
    assert!(c.test_before_acquire);
}

#[test]
fn empty_update_statement_only_refreshes_timestamp() {
    let u = UpdateTask::empty();
    assert!(u.set_columns().is_empty());
    assert_eq!(
        update_sql(&u),
        "UPDATE tasks SET updated_at = datetime('now') WHERE id = ?"
    );
}

#[test]
fn partial_update_statement() {
    let u = UpdateTask {
        title: Some("X".to_string()),
        description: None,
        status: Some(TaskStatus::Done),
        priority: None,
        due_date: Some(1_700_000_000),
    };
    assert_eq!(
        u.set_columns(),
        vec![TaskColumn::Title, TaskColumn::Status, TaskColumn::DueDate]
    );
    assert_eq!(
        update_sql(&u),
        "UPDATE tasks SET title = ?, status = ?, due_date = ?, updated_at = datetime('now') WHERE id = ?"
    );
}

#[test]
fn full_update_statement() {
    let u = UpdateTask {
        title: Some("a".to_string()),
        description: Some("b".to_string()),
        status: Some(TaskStatus::Todo),
        priority: Some(TaskPriority::Low),
        due_date: Some(5),
    };
    assert_eq!(u.set_columns().len(), 5);
    assert_eq!(
        update_sql(&u),
        "UPDATE tasks SET title = ?, description = ?, status = ?, priority = ?, due_date = ?, updated_at = datetime('now') WHERE id = ?"
    );
    assert_eq!(TaskColumn::DueDate.name(), "due_date");
}

#[test]
fn store_results_become_repository_results() {
    let found = found_or_not_found(Some(sample_task()), 7).unwrap();
    assert_eq!(found.title, "Learn Rust");
    assert!(matches!(found_or_not_found(None, 9), Err(AppError::TaskNotFound(9))));
    assert!(delete_outcome(1, 4).is_ok());
    assert!(matches!(delete_outcome(0, 4), Err(AppError::TaskNotFound(4))));
    assert!(owned_from_count(1));
    assert!(!owned_from_count(0));
}

#[test]
fn stored_text_parses_back() {
    assert_eq!(TaskStatus::parse("todo"), Some(TaskStatus::Todo));
    assert_eq!(TaskStatus::parse("in_progress"), Some(TaskStatus::InProgress));
    assert_eq!(TaskStatus::parse("done"), Some(TaskStatus::Done));
    assert_eq!(TaskStatus::parse("InProgress"), None);
    assert_eq!(TaskStatus::parse(""), None);
    assert_eq!(TaskPriority::parse("low"), Some(TaskPriority::Low));
    assert_eq!(TaskPriority::parse("medium"), Some(TaskPriority::Medium));
    assert_eq!(TaskPriority::parse("high"), Some(TaskPriority::High));
    assert_eq!(TaskPriority::parse("urgent"), Some(TaskPriority::Urgent));
    assert_eq!(TaskPriority::parse("urgentt"), None);
    for s in [TaskStatus::Todo, TaskStatus::InProgress, TaskStatus::Done] {
        assert_eq!(TaskStatus::parse(s.as_str()), Some(s));
    }
}

#[test]
fn create_task_length_limits() {
    let mut c = CreateTask {
        title: "t".repeat(200),
        description: "é".repeat(2000),
        status: TaskStatus::Todo,
        priority: TaskPriority::Medium,
        due_date: None,
        user_id: 1,
    };
    assert!(c.validate().is_ok());
    c.title = "t".repeat(201);
    assert!(matches!(c.validate(), Err(AppError::Validation(_))));
    c.title = String::new();
    assert!(c.validate().is_ok());
    c.description = "é".repeat(2001);
    assert!(matches!(c.validate(), Err(AppError::Validation(_))));
}

#[test]
fn update_task_length_limits() {
    let mut u = UpdateTask::empty();
    assert!(u.validate().is_ok());
    u.title = Some("x".repeat(200));
    assert!(u.validate().is_ok());
    u.title = Some("x".repeat(201));
    assert!(matches!(u.validate(), Err(AppError::Validation(_))));
    u.title = None;
    u.description = Some("d".repeat(2001));
    assert!(matches!(u.validate(), Err(AppError::Validation(_))));
}
