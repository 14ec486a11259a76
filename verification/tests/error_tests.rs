use sdlc_graph::domain::{Commit, Repository, User};
use sdlc_graph::error::AppError;

#[test]
fn status_codes() {
    assert_eq!(AppError::UserNotFound.status_code(), 404);
    assert_eq!(AppError::RepositoryNotFound.status_code(), 404);
    assert_eq!(AppError::CommitNotFound.status_code(), 404);
    assert_eq!(AppError::UserAlreadyExists.status_code(), 409);
    assert_eq!(AppError::RepositoryAlreadyExists.status_code(), 409);
    assert_eq!(AppError::CommitAlreadyExists.status_code(), 409);
    assert_eq!(AppError::InternalServerError("boom".into()).status_code(), 500);
    assert_eq!(AppError::ValidationError("bad".into()).status_code(), 400);
}

#[test]
fn messages() {
    assert_eq!(AppError::UserNotFound.message(), "User Not Found");
    assert_eq!(AppError::RepositoryNotFound.message(), "Repository Not Found");
    assert_eq!(AppError::CommitNotFound.message(), "Commit Not Found");
    assert_eq!(AppError::UserAlreadyExists.message(), "User already exists");
    assert_eq!(AppError::RepositoryAlreadyExists.message(), "Repository already exists");
    assert_eq!(AppError::CommitAlreadyExists.message(), "Commit already exists");
    assert_eq!(AppError::InternalServerError("db down".into()).message(), "Internal Server Error");
    assert_eq!(AppError::ValidationError("id cannot be empty".into()).message(), "Invalid input: id cannot be empty");
}

#[test]
fn constructors_keep_fields() {
    let u = User::new("1".into(), "n".into(), "e".into());
    assert_eq!((u.id.as_str(), u.username.as_str(), u.email.as_str()), ("1", "n", "e"));
    let r = Repository::new("2".into(), "r".into());
    assert_eq!((r.id.as_str(), r.name.as_str()), ("2", "r"));
    let c = Commit::new("3".into(), "m".into());
    assert_eq!((c.id.as_str(), c.message.as_str()), ("3", "m"));
    let c2 = c.clone();
    assert_eq!(c2.id, c.id);
    assert_eq!(c2.message, c.message);
}
