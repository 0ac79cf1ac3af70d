use vstd::prelude::*;

verus! {

/// The progress of a task.
#[derive(Clone, Copy, PartialEq, Eq, Structural, Debug)]
pub enum TaskStatus {
    Todo,
    InProgress,
    Done,
}

/// A registered user, identified by a 128-bit identifier.
#[derive(Clone, Debug)]
pub struct User {
    pub id: u128,
    pub username: String,
}

/// The body of a create-user request.
#[derive(Clone, Debug)]
pub struct NewUser {
    pub username: String,
}

/// A task owned by a user.
#[derive(Clone, Debug)]
pub struct Task {
    pub id: u128,
    pub title: String,
    pub description: String,
    pub status: TaskStatus,
}

/// The body of a create-task request. `due_date` and `status` are accepted
/// but not stored: a new task always starts as `Todo`.
#[derive(Clone, PartialEq, Debug)]
pub struct NewTask {
    pub title: String,
    pub description: String,
    pub due_date: Option<String>,
    pub status: TaskStatus,
}

/// The body of an update-task request: each field that is present replaces
/// the stored one, each absent field is kept.
#[derive(Clone, PartialEq, Debug)]
pub struct UpdateTask {
    pub title: Option<String>,
    pub description: Option<String>,
    pub status: Option<TaskStatus>,
}

impl User {
    /// A copy of the user, equal to it field by field.
    pub fn duplicate(&self) -> (r: User)
        ensures
            r == *self,
    {
        User { id: self.id, username: self.username.clone() }
    }
}

impl Task {
    /// A copy of the task, equal to it field by field.
    pub fn duplicate(&self) -> (r: Task)
        ensures
            r == *self,
    {
        Task {
            id: self.id,
            title: self.title.clone(),
            description: self.description.clone(),
            status: self.status,
        }
    }
}

/// The task that results from applying `upd` to `t`.
pub open spec fn updated(t: Task, upd: UpdateTask) -> Task {
    Task {
        id: t.id,
        title: match upd.title {
            Some(s) => s,
            None => t.title,
        },
        description: match upd.description {
            Some(s) => s,
            None => t.description,
        },
        status: match upd.status {
            Some(s) => s,
            None => t.status,
        },
    }
}

impl UpdateTask {
    /// Overwrites each field of `task` that this update carries.
    pub fn apply(&self, task: &mut Task)
        ensures
            *final(task) == updated(*old(task), *self),
    {
        match &self.title {
            Some(s) => task.title = s.clone(),
            None => {},
        }
        match &self.description {
            Some(s) => task.description = s.clone(),
            None => {},
        }
        match self.status {
            Some(s) => task.status = s,
            None => {},
        }
    }
}

} // verus!
