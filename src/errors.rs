use vstd::prelude::*;

verus! {

/// The body of an error response: a human-readable message.
#[derive(Clone, Debug)]
pub struct ErrorResponse {
    pub error: String,
}

/// The ways an operation can fail.
#[derive(Clone, Copy, PartialEq, Eq, Structural, Debug)]
pub enum AppError {
    UserNotFound,
    TaskNotFound,
    InvalidInput,
}

/// The fixed message of each error kind.
pub open spec fn message_of(e: AppError) -> Seq<char> {
    match e {
        AppError::UserNotFound => "User not found"@,
        AppError::TaskNotFound => "Task not found"@,
        AppError::InvalidInput => "Invalid input"@,
    }
}

/// The HTTP status of each error kind: 404 for what is missing, 400 for a
/// request that is refused.
pub open spec fn status_of(e: AppError) -> u16 {
    match e {
        AppError::UserNotFound => 404,
        AppError::TaskNotFound => 404,
        AppError::InvalidInput => 400,
    }
}

impl AppError {
    /// The message that describes this error.
    pub fn to_string(&self) -> (r: String)
        ensures
            r@ == message_of(*self),
    {
        match self {
            AppError::UserNotFound => {
                proof { reveal_strlit("User not found"); }
                "User not found".to_string()
            },
            AppError::TaskNotFound => {
                proof { reveal_strlit("Task not found"); }
                "Task not found".to_string()
            },
            AppError::InvalidInput => {
                proof { reveal_strlit("Invalid input"); }
                "Invalid input".to_string()
            },
        }
    }

    /// The HTTP status code that reports this error.
    pub fn status_code(&self) -> (r: u16)
        ensures
            r == status_of(*self),
    {
        match self {
            AppError::UserNotFound => 404,
            AppError::TaskNotFound => 404,
            AppError::InvalidInput => 400,
        }
    }

    /// The status code and the body of the response that reports this error.
    pub fn error_response(&self) -> (r: (u16, ErrorResponse))
        ensures
            r.0 == status_of(*self),
            r.1.error@ == message_of(*self),
    {
        let error_message = self.to_string();
        (self.status_code(), ErrorResponse { error: error_message })
    }
}

} // verus!
