use shared::{AppError, CreateTask, TaskPriority, TaskRepository, TaskStatus, TaskTable, UpdateTask};

fn new_task(title: &str, user_id: i64) -> CreateTask {
    CreateTask {
        title: title.to_string(),
        description: format!("about {}", title),
        status: TaskStatus::Todo,
        priority: TaskPriority::Medium,
        due_date: None,
        user_id,
    }
}

#[test]
fn create_then_find_by_id_returns_supplied_fields() {
    let mut table = TaskTable::new();
    let input = CreateTask {
        title: "Learn Rust".to_string(),
        description: "Master ownership and borrowing".to_string(),
        status: TaskStatus::InProgress,
        priority: TaskPriority::High,
        due_date: Some(1_800_000_000),
        user_id: 1,
    };
    let created = TaskRepository::create(&mut table, input, 1_000).unwrap();
    assert_eq!(created.id, 1);
    let found = TaskRepository::find_by_id(&table, created.id).unwrap();
    assert_eq!(found.id, created.id);
    assert_eq!(found.title, "Learn Rust");
    assert_eq!(found.description, "Master ownership and borrowing");
    assert_eq!(found.status, TaskStatus::InProgress);
    assert_eq!(found.priority, TaskPriority::High);
    assert_eq!(found.due_date, Some(1_800_000_000));
    assert_eq!(found.user_id, 1);
    assert_eq!(found.created_at, 1_000);
    assert_eq!(found.updated_at, 1_000);
}

#[test]
fn ids_are_assigned_in_sequence() {
    let mut table = TaskTable::new();
    let a = TaskRepository::create(&mut table, new_task("a", 1), 10).unwrap();
    let b = TaskRepository::create(&mut table, new_task("b", 2), 20).unwrap();
    assert_eq!(a.id, 1);
    assert_eq!(b.id, 2);
    assert_eq!(table.len(), 2);
}

#[test]
fn find_by_id_missing_is_task_not_found() {
    let table = TaskTable::new();
    assert!(matches!(TaskRepository::find_by_id(&table, 42), Err(AppError::TaskNotFound(42))));
}

#[test]
fn empty_update_only_advances_updated_at() {
    let mut table = TaskTable::new();
    let t = TaskRepository::create(&mut table, new_task("keep", 1), 500).unwrap();
    let u = TaskRepository::update(&mut table, t.id, UpdateTask::empty(), 500).unwrap();
    assert_eq!(u.title, "keep");
    assert_eq!(u.description, "about keep");
    assert_eq!(u.status, TaskStatus::Todo);
    assert_eq!(u.priority, TaskPriority::Medium);
    assert_eq!(u.due_date, None);
    assert_eq!(u.user_id, 1);
    assert_eq!(u.created_at, 500);
    assert_eq!(u.updated_at, 501);
    let again = TaskRepository::find_by_id(&table, t.id).unwrap();
    assert_eq!(again.updated_at, 501);
}

#[test]
fn title_update_changes_only_title() {
    let mut table = TaskTable::new();
    let mut input = new_task("old", 3);
    input.due_date = Some(9_000);
    input.priority = TaskPriority::Urgent;
    let t = TaskRepository::create(&mut table, input, 100).unwrap();
    let mut change = UpdateTask::empty();
    change.title = Some("X".to_string());
    let u = TaskRepository::update(&mut table, t.id, change, 200).unwrap();
    assert_eq!(u.title, "X");
    assert_eq!(u.description, "about old");
    assert_eq!(u.status, TaskStatus::Todo);
    assert_eq!(u.priority, TaskPriority::Urgent);
    assert_eq!(u.due_date, Some(9_000));
    assert_eq!(u.created_at, 100);
    assert_eq!(u.updated_at, 200);
}

#[test]
fn update_sets_every_present_field() {
    let mut table = TaskTable::new();
    let t = TaskRepository::create(&mut table, new_task("t", 1), 100).unwrap();
    let change = UpdateTask {
        title: Some("t".to_string()),
        description: Some("new".to_string()),
        status: Some(TaskStatus::Done),
        priority: Some(TaskPriority::Low),
        due_date: Some(777),
    };
    let u = TaskRepository::update(&mut table, t.id, change, 150).unwrap();
    assert_eq!(u.title, "t");
    assert_eq!(u.description, "new");
    assert_eq!(u.status, TaskStatus::Done);
    assert_eq!(u.priority, TaskPriority::Low);
    assert_eq!(u.due_date, Some(777));
    assert_eq!(u.updated_at, 150);
}

#[test]
fn update_missing_is_task_not_found() {
    let mut table = TaskTable::new();
    TaskRepository::create(&mut table, new_task("a", 1), 10).unwrap();
    let r = TaskRepository::update(&mut table, 99, UpdateTask::empty(), 20);
    assert!(matches!(r, Err(AppError::TaskNotFound(99))));
}

#[test]
fn delete_missing_is_task_not_found() {
    let mut table = TaskTable::new();
    assert!(matches!(TaskRepository::delete(&mut table, 5), Err(AppError::TaskNotFound(5))));
}

#[test]
fn delete_then_find_is_task_not_found() {
    let mut table = TaskTable::new();
    let a = TaskRepository::create(&mut table, new_task("a", 1), 10).unwrap();
    let b = TaskRepository::create(&mut table, new_task("b", 1), 20).unwrap();
    assert!(TaskRepository::delete(&mut table, a.id).is_ok());
    assert!(matches!(TaskRepository::find_by_id(&table, a.id), Err(AppError::TaskNotFound(1))));
    assert_eq!(TaskRepository::find_by_id(&table, b.id).unwrap().title, "b");
    assert!(matches!(TaskRepository::delete(&mut table, a.id), Err(AppError::TaskNotFound(1))));
}

#[test]
fn find_by_user_lists_newest_first() {
    let mut table = TaskTable::new();
    let t1 = TaskRepository::create(&mut table, new_task("T1", 4), 100).unwrap();
    TaskRepository::create(&mut table, new_task("other", 5), 110).unwrap();
    let t2 = TaskRepository::create(&mut table, new_task("T2", 4), 120).unwrap();
    let list = TaskRepository::find_by_user(&table, 4).unwrap();
    assert_eq!(list.len(), 2);
    assert_eq!(list[0].id, t2.id);
    assert_eq!(list[1].id, t1.id);
    assert!(list[0].created_at > list[1].created_at);
}

#[test]
fn same_second_inserts_still_list_newest_first() {
    let mut table = TaskTable::new();
    let t1 = TaskRepository::create(&mut table, new_task("T1", 4), 100).unwrap();
    let t2 = TaskRepository::create(&mut table, new_task("T2", 4), 100).unwrap();
    assert_eq!(t2.created_at, 101);
    let list = TaskRepository::find_by_user(&table, 4).unwrap();
    assert_eq!(list[0].id, t2.id);
    assert_eq!(list[1].id, t1.id);
}

#[test]
fn find_by_user_without_tasks_is_empty() {
    let mut table = TaskTable::new();
    TaskRepository::create(&mut table, new_task("a", 1), 10).unwrap();
    assert!(TaskRepository::find_by_user(&table, 2).unwrap().is_empty());
    assert_eq!(TaskRepository::count_by_user(&table, 2).unwrap(), 0);
}

#[test]
fn filtered_listings() {
    let mut table = TaskTable::new();
    let mut a = new_task("a", 1);
    a.status = TaskStatus::Done;
    a.priority = TaskPriority::High;
    let a = TaskRepository::create(&mut table, a, 10).unwrap();
    let b = TaskRepository::create(&mut table, new_task("b", 1), 20).unwrap();
    let mut c = new_task("c", 2);
    c.status = TaskStatus::Done;
    TaskRepository::create(&mut table, c, 30).unwrap();
    let done = TaskRepository::find_by_user_and_status(&table, 1, TaskStatus::Done).unwrap();
    assert_eq!(done.len(), 1);
    assert_eq!(done[0].id, a.id);
    let medium = TaskRepository::find_by_user_and_priority(&table, 1, TaskPriority::Medium).unwrap();
    assert_eq!(medium.len(), 1);
    assert_eq!(medium[0].id, b.id);
    assert!(TaskRepository::find_by_user_and_priority(&table, 1, TaskPriority::Urgent).unwrap().is_empty());
}

#[test]
fn belongs_to_user_agrees_with_listing() {
    let mut table = TaskTable::new();
    let a = TaskRepository::create(&mut table, new_task("a", 1), 10).unwrap();
    let b = TaskRepository::create(&mut table, new_task("b", 2), 20).unwrap();
    assert!(TaskRepository::belongs_to_user(&table, a.id, 1).unwrap());
    assert!(!TaskRepository::belongs_to_user(&table, a.id, 2).unwrap());
    assert!(!TaskRepository::belongs_to_user(&table, a.id, 999).unwrap());
    assert!(!TaskRepository::belongs_to_user(&table, 999, 1).unwrap());
    let listed = TaskRepository::find_by_user(&table, 2).unwrap();
    assert!(listed.iter().any(|t| t.id == b.id));
    assert!(TaskRepository::belongs_to_user(&table, b.id, 2).unwrap());
}

#[test]
fn count_equals_listing_length() {
    let mut table = TaskTable::new();
    for i in 0..5 {
        TaskRepository::create(&mut table, new_task("t", if i % 2 == 0 { 1 } else { 2 }), 10 * i).unwrap();
    }
    let n1 = TaskRepository::count_by_user(&table, 1).unwrap();
    let n2 = TaskRepository::count_by_user(&table, 2).unwrap();
    assert_eq!(n1, 3);
    assert_eq!(n2, 2);
    assert_eq!(n1 as usize, TaskRepository::find_by_user(&table, 1).unwrap().len());
    assert_eq!(n2 as usize, TaskRepository::find_by_user(&table, 2).unwrap().len());
    TaskRepository::delete(&mut table, 1).unwrap();
    assert_eq!(TaskRepository::count_by_user(&table, 1).unwrap(), 2);
}

#[test]
fn successive_updates_each_apply_whole() {
    let mut table = TaskTable::new();
    let t = TaskRepository::create(&mut table, new_task("t", 1), 10).unwrap();
    let first = UpdateTask {
        title: Some("first".to_string()),
        description: Some("one".to_string()),
        status: None,
        priority: None,
        due_date: None,
    };
    let second = UpdateTask {
        title: Some("second".to_string()),
        description: None,
        status: Some(TaskStatus::Done),
        priority: None,
        due_date: None,
    };
    TaskRepository::update(&mut table, t.id, first, 20).unwrap();
    let last = TaskRepository::update(&mut table, t.id, second, 20).unwrap();
    assert_eq!(last.title, "second");
    assert_eq!(last.description, "one");
    assert_eq!(last.status, TaskStatus::Done);
    assert_eq!(last.updated_at, 21);
}
