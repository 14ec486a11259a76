use vstd::prelude::*;
use vstd::string::StringExecFns;

verus! {

/// The errors that the graph service answers with.
#[derive(Debug)]
pub enum AppError {
    UserNotFound,
    RepositoryNotFound,
    CommitNotFound,
    UserAlreadyExists,
    RepositoryAlreadyExists,
    CommitAlreadyExists,
    InternalServerError(String),
    ValidationError(String),
}

/// HTTP status code that an error is answered with.
pub open spec fn status_of(e: AppError) -> u16 {
    match e {
        AppError::UserNotFound | AppError::RepositoryNotFound | AppError::CommitNotFound => 404,
        AppError::InternalServerError(_) => 500,
        AppError::UserAlreadyExists | AppError::RepositoryAlreadyExists
        | AppError::CommitAlreadyExists => 409,
        AppError::ValidationError(_) => 400,
    }
}

/// The text that an error displays as.
pub open spec fn message_of(e: AppError) -> Seq<char> {
    match e {
        AppError::UserNotFound => "User Not Found"@,
        AppError::RepositoryNotFound => "Repository Not Found"@,
        AppError::CommitNotFound => "Commit Not Found"@,
        AppError::UserAlreadyExists => "User already exists"@,
        AppError::RepositoryAlreadyExists => "Repository already exists"@,
        AppError::CommitAlreadyExists => "Commit already exists"@,
        AppError::InternalServerError(_) => "Internal Server Error"@,
        AppError::ValidationError(m) => "Invalid input: "@ + m@,
    }
}

impl AppError {
    /// The HTTP status of the response that carries this error.
    pub fn status_code(&self) -> (s: u16)
        ensures
            s == status_of(*self),
    {
        match self {
            AppError::UserNotFound => 404,
            AppError::RepositoryNotFound => 404,
            AppError::CommitNotFound => 404,
            AppError::InternalServerError(_) => 500,
            AppError::UserAlreadyExists => 409,
            AppError::RepositoryAlreadyExists => 409,
            AppError::CommitAlreadyExists => 409,
            AppError::ValidationError(_) => 400,
        }
    }

    /// The message of this error, as it is displayed to a client.
    pub fn message(&self) -> (m: String)
        ensures
            m@ == message_of(*self),
    {
        match self {
            AppError::UserNotFound => String::from_str("User Not Found"),
            AppError::RepositoryNotFound => String::from_str("Repository Not Found"),
            AppError::CommitNotFound => String::from_str("Commit Not Found"),
            AppError::UserAlreadyExists => String::from_str("User already exists"),
            AppError::RepositoryAlreadyExists => String::from_str("Repository already exists"),
            AppError::CommitAlreadyExists => String::from_str("Commit already exists"),
            AppError::InternalServerError(_) => String::from_str("Internal Server Error"),
            AppError::ValidationError(m) => {
                let mut s = String::from_str("Invalid input: ");
                s.append(m.as_str());
                s
            },
        }
    }
}

} // verus!
