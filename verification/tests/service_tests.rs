use sdlc_graph::domain::{Commit, Repository, User};
use sdlc_graph::error::AppError;
use sdlc_graph::handlers::{
    create_commit, create_repository, create_user, db_health, get_commits_by_repository,
    get_commits_by_user, get_user_repositories, link_commit_to_repository, link_commit_to_user,
    CreateCommitRequest, CreateRepositoryRequest, CreateUserRequest, CursorPagination,
};
use sdlc_graph::service::GraphService;
use sdlc_graph::store::InMemoryGraphRepository;

fn service() -> GraphService<InMemoryGraphRepository> {
    GraphService::new(InMemoryGraphRepository::new())
}

fn user_req(id: &str, username: &str, email: &str) -> CreateUserRequest {
    CreateUserRequest { id: id.to_string(), username: username.to_string(), email: email.to_string() }
}

fn validation_message(e: AppError) -> String {
    match e {
        AppError::ValidationError(m) => m,
        other => panic!("expected a validation error, got {:?}", other),
    }
}

fn page(limit: Option<u32>, cursor: Option<&str>) -> CursorPagination {
    CursorPagination { limit, cursor: cursor.map(|c| c.to_string()) }
}

#[test]
fn service_create_returns_what_it_stored() {
    let mut s = service();
    let u = s.create_user(User::new("u1".into(), "alice".into(), "a@x.io".into())).unwrap();
    assert_eq!(u.id, "u1");
    assert_eq!(s.get_user("u1").unwrap().username, "alice");
    let r = s.create_repository(Repository::new("r1".into(), "core".into())).unwrap();
    assert_eq!(r.name, "core");
    let c = s.create_commit(Commit::new("c1".into(), "init".into())).unwrap();
    assert_eq!(c.message, "init");
    assert_eq!(s.get_repository("r1").unwrap().id, "r1");
    assert_eq!(s.get_commit("c1").unwrap().id, "c1");
    assert!(matches!(
        s.create_user(User::new("u1".into(), "x".into(), "x@x".into())),
        Err(AppError::UserAlreadyExists)
    ));
}

#[test]
fn service_forwards_links_and_listings() {
    let mut s = service();
    s.create_user(User::new("u1".into(), "alice".into(), "a@x.io".into())).unwrap();
    s.create_repository(Repository::new("r1".into(), "core".into())).unwrap();
    s.create_commit(Commit::new("c1".into(), "init".into())).unwrap();
    s.link_commit_to_repository("c1", "r1").unwrap();
    s.link_commit_to_user("c1", "u1").unwrap();
    assert_eq!(s.get_commits_by_repository("r1", 10, None).unwrap().len(), 1);
    assert_eq!(s.get_commits_by_user("u1", 10, None).unwrap()[0].id, "c1");
    assert_eq!(s.get_repositories_by_user("u1", 10, None).unwrap()[0].id, "r1");
    assert!(s.db_health().is_ok());
}

#[test]
fn create_user_handler_checks_fields_in_order() {
    let mut s = service();
    let e = create_user(&mut s, user_req("", "", "")).unwrap_err();
    assert_eq!(validation_message(e), "id cannot be empty");
    let e = create_user(&mut s, user_req("u1", "  \t", "")).unwrap_err();
    assert_eq!(validation_message(e), "username cannot be empty");
    let e = create_user(&mut s, user_req("u1", "alice", "\n")).unwrap_err();
    assert_eq!(validation_message(e), "email cannot be empty");
    let e = create_user(&mut s, user_req("u1", "alice", "alice.example.com")).unwrap_err();
    assert_eq!(validation_message(e), "email must contain '@'");
    // nothing was stored by the refused requests
    assert!(matches!(s.get_user("u1"), Err(AppError::UserNotFound)));
    let u = create_user(&mut s, user_req("u1", "alice", "alice@example.com")).unwrap();
    assert_eq!(u.email, "alice@example.com");
    assert!(matches!(
        create_user(&mut s, user_req("u1", "bob", "bob@example.com")),
        Err(AppError::UserAlreadyExists)
    ));
}

#[test]
fn fields_with_inner_text_are_kept_as_given() {
    let mut s = service();
    let u = create_user(&mut s, user_req(" u1 ", " alice ", " a@b ")).unwrap();
    assert_eq!(u.id, " u1 ");
    assert_eq!(u.username, " alice ");
    assert!(s.get_user(" u1 ").is_ok());
    assert!(s.get_user("u1").is_err());
}

#[test]
fn unicode_white_space_counts_as_empty() {
    let mut s = service();
    let e = create_user(&mut s, user_req("\u{3000}\u{00A0}\u{2028}", "a", "a@b")).unwrap_err();
    assert_eq!(validation_message(e), "id cannot be empty");
    // a zero-width space is not white space
    assert!(create_user(&mut s, user_req("\u{200B}", "a", "a@b")).is_ok());
}

#[test]
fn create_repository_and_commit_handlers_check_fields() {
    let mut s = service();
    let e = create_repository(&mut s, CreateRepositoryRequest { id: " ".into(), name: "n".into() }).unwrap_err();
    assert_eq!(validation_message(e), "id cannot be empty");
    let e = create_repository(&mut s, CreateRepositoryRequest { id: "r1".into(), name: "".into() }).unwrap_err();
    assert_eq!(validation_message(e), "name cannot be empty");
    assert_eq!(create_repository(&mut s, CreateRepositoryRequest { id: "r1".into(), name: "core".into() }).unwrap().id, "r1");
    let e = create_commit(&mut s, CreateCommitRequest { id: "".into(), message: "m".into() }).unwrap_err();
    assert_eq!(validation_message(e), "id cannot be empty");
    let e = create_commit(&mut s, CreateCommitRequest { id: "c1".into(), message: "\t".into() }).unwrap_err();
    assert_eq!(validation_message(e), "message cannot be empty");
    assert_eq!(create_commit(&mut s, CreateCommitRequest { id: "c1".into(), message: "init".into() }).unwrap().id, "c1");
    assert!(matches!(
        create_commit(&mut s, CreateCommitRequest { id: "c1".into(), message: "again".into() }),
        Err(AppError::CommitAlreadyExists)
    ));
}

#[test]
fn link_handlers_answer_with_text() {
    let mut s = service();
    assert!(matches!(link_commit_to_repository(&mut s, "c1", "r1"), Err(AppError::CommitNotFound)));
    create_commit(&mut s, CreateCommitRequest { id: "c1".into(), message: "m".into() }).unwrap();
    create_repository(&mut s, CreateRepositoryRequest { id: "r1".into(), name: "core".into() }).unwrap();
    create_user(&mut s, user_req("u1", "alice", "a@b")).unwrap();
    assert_eq!(link_commit_to_repository(&mut s, "c1", "r1").unwrap(), "Commit linked to Repository");
    assert_eq!(link_commit_to_user(&mut s, "c1", "u1").unwrap(), "Commit linked to User");
    assert!(matches!(link_commit_to_user(&mut s, "c1", "u2"), Err(AppError::UserNotFound)));
}

#[test]
fn listing_handlers_page_as_asked() {
    let mut s = service();
    create_user(&mut s, user_req("u1", "alice", "a@b")).unwrap();
    for i in 0..12 {
        let r = format!("r{:02}", i);
        let c = format!("c{:02}", i);
        create_repository(&mut s, CreateRepositoryRequest { id: r.clone(), name: "n".into() }).unwrap();
        create_commit(&mut s, CreateCommitRequest { id: c.clone(), message: "m".into() }).unwrap();
        link_commit_to_repository(&mut s, &c, &r).unwrap();
        link_commit_to_user(&mut s, &c, "u1").unwrap();
    }
    // default page size is 10
    assert_eq!(get_user_repositories(&s, "u1", page(None, None)).unwrap().len(), 10);
    assert_eq!(get_user_repositories(&s, "u1", page(Some(3), Some("r05"))).unwrap()[0].id, "r06");
    assert_eq!(get_user_repositories(&s, "u1", page(Some(500), None)).unwrap().len(), 12);
    assert_eq!(get_commits_by_user(&s, "u1", page(Some(1), None)).unwrap().len(), 12);
    assert_eq!(get_commits_by_repository(&s, "r00", page(None, None)).unwrap().len(), 1);
    assert!(matches!(get_commits_by_repository(&s, "nope", page(None, None)), Err(AppError::RepositoryNotFound)));
}

#[test]
fn health_handler_says_ok_for_memory() {
    let s = service();
    assert_eq!(db_health(&s), "DB_OK");
}
