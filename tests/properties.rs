use task_tracker::db::{init_db, TaskStore, UserStore};
use task_tracker::errors::AppError;
use task_tracker::models::{NewTask, NewUser, Task, TaskStatus, UpdateTask, User};
use task_tracker::operations::{
    create_task, create_user, delete_task, get_task, list_tasks, update_task,
};
use task_tracker::text::is_blank_str;

fn add_user(users: &mut UserStore, name: &str) -> User {
    create_user(users, NewUser { username: String::from(name) })
}

fn request(title: &str, description: &str, status: TaskStatus) -> NewTask {
    NewTask {
        title: String::from(title),
        description: String::from(description),
        due_date: None,
        status,
    }
}

fn add_task(users: &UserStore, tasks: &mut TaskStore, user_id: u128, title: &str) -> Task {
    let known = users.contains(user_id);
    create_task(known, tasks, user_id, request(title, "", TaskStatus::Todo)).unwrap()
}

#[test]
fn create_user_keeps_username_and_registers() {
    let (_tasks, mut users) = init_db();
    let user = add_user(&mut users, "bob");
    assert_eq!(user.username, "bob");
    let stored = users.get(user.id).unwrap();
    assert_eq!(stored.id, user.id);
    assert_eq!(stored.username, "bob");
}

#[test]
fn created_users_have_distinct_ids() {
    let (_tasks, mut users) = init_db();
    let mut ids: Vec<u128> = Vec::new();
    for k in 0..100 {
        let user = add_user(&mut users, &format!("user{}", k));
        assert!(!ids.contains(&user.id));
        ids.push(user.id);
    }
    for id in &ids {
        assert!(users.contains(*id));
    }
}

#[test]
fn user_ids_are_version_four() {
    let (_tasks, mut users) = init_db();
    let user = add_user(&mut users, "carol");
    assert_eq!((user.id >> 76) & 0xf, 4);
}

#[test]
fn create_task_for_unknown_user_fails_and_leaves_store() {
    let (mut tasks, users) = init_db();
    let user_id: u128 = 42;
    let known = users.contains(user_id);
    assert!(!known);
    let r = create_task(known, &mut tasks, user_id, request("ok", "d", TaskStatus::Todo));
    assert_eq!(r.unwrap_err(), AppError::UserNotFound);
    assert!(!tasks.contains_user(user_id));
    assert_eq!(list_tasks(&tasks, user_id).unwrap_err(), AppError::UserNotFound);
}

#[test]
fn create_task_with_blank_title_is_invalid() {
    let (mut tasks, mut users) = init_db();
    let user = add_user(&mut users, "dave");
    for title in ["", "   ", " \t\n\r ", "\u{3000}\u{2003}\u{a0}"] {
        let r = create_task(true, &mut tasks, user.id, request(title, "d", TaskStatus::Todo));
        assert_eq!(r.unwrap_err(), AppError::InvalidInput);
    }
    assert!(!tasks.contains_user(user.id));
}

#[test]
fn title_with_surrounding_space_is_accepted() {
    let (mut tasks, mut users) = init_db();
    let user = add_user(&mut users, "erin");
    let r = create_task(true, &mut tasks, user.id, request("  x  ", "d", TaskStatus::Todo));
    assert_eq!(r.unwrap().title, "  x  ");
}

#[test]
fn blank_strings() {
    assert!(is_blank_str(""));
    assert!(is_blank_str(" \t\u{85}\u{2028}"));
    assert!(!is_blank_str("a"));
    assert!(!is_blank_str(" a "));
    assert!(!is_blank_str("\u{200b}"));
}

#[test]
fn create_task_always_starts_as_todo() {
    let (mut tasks, mut users) = init_db();
    let user = add_user(&mut users, "frank");
    for status in [TaskStatus::Todo, TaskStatus::InProgress, TaskStatus::Done] {
        let r = create_task(true, &mut tasks, user.id, request("t", "d", status));
        let task = r.unwrap();
        assert_eq!(task.status, TaskStatus::Todo);
        assert_eq!(task.description, "d");
    }
}

#[test]
fn list_without_tasks_is_user_not_found() {
    let (tasks, mut users) = init_db();
    let user = add_user(&mut users, "gina");
    assert_eq!(list_tasks(&tasks, user.id).unwrap_err(), AppError::UserNotFound);
    assert_eq!(get_task(&tasks, user.id, 1).unwrap_err(), AppError::UserNotFound);
}

#[test]
fn unknown_task_under_known_user_is_task_not_found() {
    let (mut tasks, mut users) = init_db();
    let user = add_user(&mut users, "hank");
    let task = add_task(&users, &mut tasks, user.id, "one");
    let other = task.id.wrapping_add(1);
    assert_eq!(get_task(&tasks, user.id, other).unwrap_err(), AppError::TaskNotFound);
    let upd = UpdateTask { title: Some(String::from("x")), description: None, status: None };
    assert_eq!(update_task(&mut tasks, user.id, other, upd).unwrap_err(), AppError::TaskNotFound);
    assert_eq!(delete_task(&mut tasks, user.id, other).unwrap_err(), AppError::TaskNotFound);
    assert_eq!(get_task(&tasks, user.id, task.id).unwrap().title, "one");
}

#[test]
fn missing_list_gives_user_not_found_except_on_delete() {
    let (mut tasks, _users) = init_db();
    let upd = UpdateTask { title: None, description: None, status: Some(TaskStatus::Done) };
    assert_eq!(update_task(&mut tasks, 7, 8, upd).unwrap_err(), AppError::UserNotFound);
    assert_eq!(get_task(&tasks, 7, 8).unwrap_err(), AppError::UserNotFound);
    assert_eq!(delete_task(&mut tasks, 7, 8).unwrap_err(), AppError::TaskNotFound);
}

#[test]
fn status_only_update_keeps_text() {
    let (mut tasks, mut users) = init_db();
    let user = add_user(&mut users, "iris");
    let known = users.contains(user.id);
    let task = create_task(known, &mut tasks, user.id, request("title", "desc", TaskStatus::Todo))
        .unwrap();
    let upd = UpdateTask { title: None, description: None, status: Some(TaskStatus::Done) };
    let after = update_task(&mut tasks, user.id, task.id, upd).unwrap();
    assert_eq!(after.id, task.id);
    assert_eq!(after.title, "title");
    assert_eq!(after.description, "desc");
    assert_eq!(after.status, TaskStatus::Done);
    let fetched = get_task(&tasks, user.id, task.id).unwrap();
    assert_eq!(fetched.title, "title");
    assert_eq!(fetched.status, TaskStatus::Done);
}

#[test]
fn empty_update_changes_nothing() {
    let (mut tasks, mut users) = init_db();
    let user = add_user(&mut users, "jack");
    let task = add_task(&users, &mut tasks, user.id, "keep");
    let upd = UpdateTask { title: None, description: None, status: None };
    let after = update_task(&mut tasks, user.id, task.id, upd).unwrap();
    assert_eq!(after.title, "keep");
    assert_eq!(after.status, TaskStatus::Todo);
}

#[test]
fn update_does_not_check_title() {
    let (mut tasks, mut users) = init_db();
    let user = add_user(&mut users, "kate");
    let task = add_task(&users, &mut tasks, user.id, "keep");
    let upd = UpdateTask { title: Some(String::new()), description: None, status: None };
    assert_eq!(update_task(&mut tasks, user.id, task.id, upd).unwrap().title, "");
}

#[test]
fn deleted_task_stays_deleted() {
    let (mut tasks, mut users) = init_db();
    let user = add_user(&mut users, "liam");
    let a = add_task(&users, &mut tasks, user.id, "a");
    let b = add_task(&users, &mut tasks, user.id, "b");
    assert!(delete_task(&mut tasks, user.id, a.id).is_ok());
    assert_eq!(get_task(&tasks, user.id, a.id).unwrap_err(), AppError::TaskNotFound);
    assert_eq!(delete_task(&mut tasks, user.id, a.id).unwrap_err(), AppError::TaskNotFound);
    let left = list_tasks(&tasks, user.id).unwrap();
    assert_eq!(left.len(), 1);
    assert_eq!(left[0].id, b.id);
    assert!(delete_task(&mut tasks, user.id, b.id).is_ok());
    assert_eq!(list_tasks(&tasks, user.id).unwrap().len(), 0);
}

#[test]
fn many_creates_for_one_user() {
    let (mut tasks, mut users) = init_db();
    let user = add_user(&mut users, "mia");
    let n = 64;
    let mut ids: Vec<u128> = Vec::new();
    for k in 0..n {
        let task = add_task(&users, &mut tasks, user.id, &format!("task {}", k));
        assert!(!ids.contains(&task.id));
        ids.push(task.id);
    }
    let listed = list_tasks(&tasks, user.id).unwrap();
    assert_eq!(listed.len(), n);
    for k in 0..n {
        assert_eq!(listed[k].id, ids[k]);
        assert_eq!(listed[k].title, format!("task {}", k));
    }
}

#[test]
fn task_lists_are_kept_per_user() {
    let (mut tasks, mut users) = init_db();
    let u1 = add_user(&mut users, "nora");
    let u2 = add_user(&mut users, "owen");
    let t1 = add_task(&users, &mut tasks, u1.id, "first");
    add_task(&users, &mut tasks, u2.id, "second");
    assert_eq!(list_tasks(&tasks, u1.id).unwrap().len(), 1);
    assert_eq!(get_task(&tasks, u2.id, t1.id).unwrap_err(), AppError::TaskNotFound);
}

#[test]
fn end_to_end() {
    let (mut tasks, mut users) = init_db();
    let alice = add_user(&mut users, "alice");
    let known = users.contains(alice.id);
    let task = create_task(known, &mut tasks, alice.id, request("buy milk", "2%", TaskStatus::Done))
        .unwrap();
    assert_eq!(task.status, TaskStatus::Todo);
    let upd = UpdateTask { title: None, description: None, status: Some(TaskStatus::Done) };
    assert!(update_task(&mut tasks, alice.id, task.id, upd).is_ok());
    let fetched = get_task(&tasks, alice.id, task.id).unwrap();
    assert_eq!(fetched.status, TaskStatus::Done);
    assert_eq!(fetched.title, "buy milk");
    assert_eq!(fetched.description, "2%");
    assert!(delete_task(&mut tasks, alice.id, task.id).is_ok());
    let gone = get_task(&tasks, alice.id, task.id).unwrap_err();
    assert_eq!(gone, AppError::TaskNotFound);
    assert_eq!(gone.status_code(), 404);
}

#[test]
fn error_messages_and_codes() {
    assert_eq!(AppError::UserNotFound.to_string(), "User not found");
    assert_eq!(AppError::TaskNotFound.to_string(), "Task not found");
    assert_eq!(AppError::InvalidInput.to_string(), "Invalid input");
    assert_eq!(AppError::UserNotFound.status_code(), 404);
    assert_eq!(AppError::TaskNotFound.status_code(), 404);
    assert_eq!(AppError::InvalidInput.status_code(), 400);
    let (code, body) = AppError::InvalidInput.error_response();
    assert_eq!(code, 400);
    assert_eq!(body.error, "Invalid input");
}

#[test]
fn duplicates_are_equal() {
    let task = Task {
        id: 5,
        title: String::from("t"),
        description: String::from("d"),
        status: TaskStatus::InProgress,
    };
    let copy = task.duplicate();
    assert_eq!(copy.id, 5);
    assert_eq!(copy.title, "t");
    assert_eq!(copy.description, "d");
    assert_eq!(copy.status, TaskStatus::InProgress);
}
