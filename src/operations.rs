use vstd::prelude::*;
use crate::db::{TaskStore, UserStore, lookup, position_of, tasks_of};
use crate::errors::AppError;
use crate::models::{NewTask, NewUser, Task, TaskStatus, UpdateTask, User, updated};
use crate::text::{is_blank, is_blank_str};

verus! {

/// Registers a user under an identifier that no registered user has.
pub fn create_user(users: &mut UserStore, payload: NewUser) -> (r: User)
    requires
        old(users).wf(),
    ensures
        final(users).wf(),
        r.username == payload.username,
        !old(users)@.contains_key(r.id),
        final(users)@ == old(users)@.insert(r.id, r),
{
    let user = User { id: users.fresh_id(), username: payload.username };
    let out = user.duplicate();
    users.insert(user);
    out
}

/// Creates a task for `user_id` from `payload`.
///
/// `user_known` is what the user store answered, beforehand, on whether
/// `user_id` is registered; the user store is not consulted here, so that it
/// need not be held while the task store is. The new task starts as `Todo`
/// whatever status `payload` asks for.
pub fn create_task(user_known: bool, tasks: &mut TaskStore, user_id: u128, payload: NewTask) -> (r:
    Result<Task, AppError>)
    requires
        old(tasks).wf(),
    ensures
        final(tasks).wf(),
        !user_known ==> r == Err::<Task, AppError>(AppError::UserNotFound),
        user_known && is_blank(payload.title@) ==> r == Err::<Task, AppError>(
            AppError::InvalidInput,
        ),
        r is Err ==> final(tasks)@ == old(tasks)@ && final(tasks).issued() == old(tasks).issued(),
        user_known && !is_blank(payload.title@) ==> r is Ok,
        r matches Ok(t) ==> {
            &&& t.title == payload.title
            &&& t.description == payload.description
            &&& t.status == TaskStatus::Todo
            &&& !old(tasks).issued().contains(t.id)
            &&& final(tasks)@ == old(tasks)@.insert(user_id, tasks_of(old(tasks)@, user_id).push(t))
            &&& final(tasks).issued() == old(tasks).issued().insert(t.id)
        },
{
    if !user_known {
        return Err(AppError::UserNotFound);
    }
    if is_blank_str(payload.title.as_str()) {
        return Err(AppError::InvalidInput);
    }
    let task = Task {
        id: tasks.fresh_id(),
        title: payload.title,
        description: payload.description,
        status: TaskStatus::Todo,
    };
    let out = task.duplicate();
    tasks.append(user_id, task);
    Ok(out)
}

/// The tasks of `user_id` in the order they were created. A user for whom
/// no task was ever created has no list and is reported as not found.
pub fn list_tasks(tasks: &TaskStore, user_id: u128) -> (r: Result<Vec<Task>, AppError>)
    ensures
        !tasks@.contains_key(user_id) ==> r == Err::<Vec<Task>, AppError>(AppError::UserNotFound),
        tasks@.contains_key(user_id) ==> (r matches Ok(v) && v@ == tasks@[user_id]),
{
    match tasks.list(user_id) {
        Some(v) => Ok(v),
        None => Err(AppError::UserNotFound),
    }
}

/// The task `task_id` of user `user_id`.
pub fn get_task(tasks: &TaskStore, user_id: u128, task_id: u128) -> (r: Result<Task, AppError>)
    requires
        tasks.wf(),
    ensures
        !tasks@.contains_key(user_id) ==> r == Err::<Task, AppError>(AppError::UserNotFound),
        tasks@.contains_key(user_id) ==> r == match lookup(tasks@, user_id, task_id) {
            Some(t) => Ok::<Task, AppError>(t),
            None => Err(AppError::TaskNotFound),
        },
{
    if !tasks.contains_user(user_id) {
        return Err(AppError::UserNotFound);
    }
    match tasks.find(user_id, task_id) {
        Some(t) => Ok(t),
        None => Err(AppError::TaskNotFound),
    }
}

/// Overwrites the fields of task `task_id` of user `user_id` that `payload`
/// carries, keeps the others, and returns the task as it then stands.
pub fn update_task(tasks: &mut TaskStore, user_id: u128, task_id: u128, payload: UpdateTask) -> (r:
    Result<Task, AppError>)
    requires
        old(tasks).wf(),
    ensures
        final(tasks).wf(),
        final(tasks).issued() == old(tasks).issued(),
        !old(tasks)@.contains_key(user_id) ==> r == Err::<Task, AppError>(AppError::UserNotFound),
        old(tasks)@.contains_key(user_id) && lookup(old(tasks)@, user_id, task_id) is None ==> r
            == Err::<Task, AppError>(AppError::TaskNotFound),
        r is Err ==> final(tasks)@ == old(tasks)@,
        lookup(old(tasks)@, user_id, task_id) matches Some(t) ==> {
            let s = old(tasks)@[user_id];
            &&& r == Ok::<Task, AppError>(updated(t, payload))
            &&& final(tasks)@ == old(tasks)@.insert(
                user_id,
                s.update(position_of(s, task_id), updated(t, payload)),
            )
        },
{
    if !tasks.contains_user(user_id) {
        return Err(AppError::UserNotFound);
    }
    match tasks.update(user_id, task_id, &payload) {
        Some(t) => Ok(t),
        None => Err(AppError::TaskNotFound),
    }
}

/// Deletes task `task_id` of user `user_id`. Where the user has no list at
/// all, that too is reported as the task not being found.
pub fn delete_task(tasks: &mut TaskStore, user_id: u128, task_id: u128) -> (r: Result<(), AppError>)
    requires
        old(tasks).wf(),
    ensures
        final(tasks).wf(),
        final(tasks).issued() == old(tasks).issued(),
        lookup(old(tasks)@, user_id, task_id) is None ==> r == Err::<(), AppError>(
            AppError::TaskNotFound,
        ) && final(tasks)@ == old(tasks)@,
        lookup(old(tasks)@, user_id, task_id) is Some ==> {
            let s = old(tasks)@[user_id];
            &&& r == Ok::<(), AppError>(())
            &&& final(tasks)@ == old(tasks)@.insert(
                user_id,
                s.remove(position_of(s, task_id)),
            )
        },
{
    if tasks.remove(user_id, task_id) {
        Ok(())
    } else {
        Err(AppError::TaskNotFound)
    }
}

} // verus!
