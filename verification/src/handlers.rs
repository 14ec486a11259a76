use vstd::prelude::*;
use vstd::string::StringExecFns;
use crate::domain::{User, Repository, Commit};
use crate::error::AppError;
use crate::model::{
    repository_commits_within, user_commits_within, repositories_by_user_answer, cursor_view,
};
use crate::repository::GraphRepository;
use crate::service::{GraphService, created};
use crate::text::{is_blank, is_blank_text, contains_char};

verus! {

/// The body of a request to create a user.
pub struct CreateUserRequest {
    pub id: String,
    pub username: String,
    pub email: String,
}

/// The body of a request to create a repository.
pub struct CreateRepositoryRequest {
    pub id: String,
    pub name: String,
}

/// The body of a request to create a commit.
pub struct CreateCommitRequest {
    pub id: String,
    pub message: String,
}

/// The paging parameters of a listing request.
pub struct CursorPagination {
    pub limit: Option<u32>,
    pub cursor: Option<String>,
}

/// `e` is a validation error with the message `m`.
pub open spec fn is_validation_error(e: AppError, m: Seq<char>) -> bool {
    e matches AppError::ValidationError(text) && text@ == m
}

/// The message that a blank field is refused with.
pub open spec fn blank_field_message(field: Seq<char>) -> Seq<char> {
    field + " cannot be empty"@
}

/// The message that an email without `@` is refused with.
pub open spec fn email_message() -> Seq<char> {
    "email must contain '@'"@
}

/// Refuses a field that holds nothing but white space.
pub fn validate_non_empty(field: &str, value: &str) -> (r: Result<(), AppError>)
    ensures
        is_blank_text(value@) ==> (r matches Err(e) && is_validation_error(e, blank_field_message(field@))),
        !is_blank_text(value@) ==> r is Ok,
{
    if is_blank(value) {
        let mut m = String::from_str(field);
        m.append(" cannot be empty");
        return Err(AppError::ValidationError(m));
    }
    Ok(())
}

/// Refuses an email address that holds no `@`.
pub fn validate_email(email: &str) -> (r: Result<(), AppError>)
    ensures
        !email@.contains('@') ==> (r matches Err(e) && is_validation_error(e, email_message())),
        email@.contains('@') ==> r is Ok,
{
    if !contains_char(email, '@') {
        return Err(AppError::ValidationError(String::from_str("email must contain '@'")));
    }
    Ok(())
}

/// The message of the first check that a user request fails, if any.
pub open spec fn user_request_problem(p: CreateUserRequest) -> Option<Seq<char>> {
    if is_blank_text(p.id@) {
        Some(blank_field_message("id"@))
    } else if is_blank_text(p.username@) {
        Some(blank_field_message("username"@))
    } else if is_blank_text(p.email@) {
        Some(blank_field_message("email"@))
    } else if !p.email@.contains('@') {
        Some(email_message())
    } else {
        None
    }
}

/// The message of the first check that a repository request fails, if any.
pub open spec fn repository_request_problem(p: CreateRepositoryRequest) -> Option<Seq<char>> {
    if is_blank_text(p.id@) {
        Some(blank_field_message("id"@))
    } else if is_blank_text(p.name@) {
        Some(blank_field_message("name"@))
    } else {
        None
    }
}

/// The message of the first check that a commit request fails, if any.
pub open spec fn commit_request_problem(p: CreateCommitRequest) -> Option<Seq<char>> {
    if is_blank_text(p.id@) {
        Some(blank_field_message("id"@))
    } else if is_blank_text(p.message@) {
        Some(blank_field_message("message"@))
    } else {
        None
    }
}

/// Checks a user request and builds the user that it asks for.
pub fn prepare_user(payload: CreateUserRequest) -> (r: Result<User, AppError>)
    ensures
        match user_request_problem(payload) {
            Some(m) => r matches Err(e) && is_validation_error(e, m),
            None => r == Ok::<User, AppError>(
                User { id: payload.id, username: payload.username, email: payload.email },
            ),
        },
{
    validate_non_empty("id", payload.id.as_str())?;
    validate_non_empty("username", payload.username.as_str())?;
    validate_non_empty("email", payload.email.as_str())?;
    validate_email(payload.email.as_str())?;
    Ok(User::new(payload.id, payload.username, payload.email))
}

/// Checks a repository request and builds the repository that it asks for.
pub fn prepare_repository(payload: CreateRepositoryRequest) -> (r: Result<Repository, AppError>)
    ensures
        match repository_request_problem(payload) {
            Some(m) => r matches Err(e) && is_validation_error(e, m),
            None => r == Ok::<Repository, AppError>(Repository { id: payload.id, name: payload.name }),
        },
{
    validate_non_empty("id", payload.id.as_str())?;
    validate_non_empty("name", payload.name.as_str())?;
    Ok(Repository::new(payload.id, payload.name))
}

/// Checks a commit request and builds the commit that it asks for.
pub fn prepare_commit(payload: CreateCommitRequest) -> (r: Result<Commit, AppError>)
    ensures
        match commit_request_problem(payload) {
            Some(m) => r matches Err(e) && is_validation_error(e, m),
            None => r == Ok::<Commit, AppError>(Commit { id: payload.id, message: payload.message }),
        },
{
    validate_non_empty("id", payload.id.as_str())?;
    validate_non_empty("message", payload.message.as_str())?;
    Ok(Commit::new(payload.id, payload.message))
}

/// The page size of a commit listing: 10 unless asked, and never over 100.
pub open spec fn commits_page_size(requested: Option<u32>) -> u32 {
    match requested {
        Some(k) => if k < 100 {
            k
        } else {
            100
        },
        None => 10,
    }
}

/// The page size of a repository listing: 10 unless asked.
pub open spec fn repositories_page_size(requested: Option<u32>) -> u32 {
    match requested {
        Some(k) => k,
        None => 10,
    }
}

/// The page size of a commit listing: 10 unless asked, and never over 100.
pub fn commits_page_limit(requested: Option<u32>) -> (n: u32)
    ensures
        n == commits_page_size(requested),
{
    let k: u32 = match requested {
        Some(k) => k,
        None => 10,
    };
    if k < 100 {
        k
    } else {
        100
    }
}

/// The page size of a repository listing: 10 unless asked.
pub fn repositories_page_limit(requested: Option<u32>) -> (n: u32)
    ensures
        n == repositories_page_size(requested),
{
    match requested {
        Some(k) => k,
        None => 10,
    }
}

/// What the health endpoint says of the store's answer.
pub fn health_text(r: &Result<(), AppError>) -> (t: &'static str)
    ensures
        r is Ok ==> t@ == "DB_OK"@,
        r is Err ==> t@ == "DB_DOWN"@,
{
    match r {
        Ok(_) => "DB_OK",
        Err(_) => "DB_DOWN",
    }
}

/// The health endpoint: asks the store and says `DB_OK` or `DB_DOWN`.
pub fn db_health<R: GraphRepository>(service: &GraphService<R>) -> (t: &'static str)
    requires
        service.valid(),
    ensures
        (t@ == "DB_OK"@ && service.store().health_answer(Ok(()))) || (t@ == "DB_DOWN"@ && exists|e: AppError|
            service.store().health_answer(Err(e))),
{
    let r = service.db_health();
    proof {
        assert(service.store().health_answer(r));
        if r is Err {
            assert(r == Err::<(), AppError>(r->Err_0));
            assert(service.store().health_answer(Err(r->Err_0)));
        } else {
            assert(r->Ok_0 == ());
            assert(r == Ok::<(), AppError>(()));
            assert(service.store().health_answer(Ok(())));
        }
    }
    health_text(&r)
}

/// Creates a user from a request: refuses an invalid request, else hands
/// the user to the service.
pub fn create_user<R: GraphRepository>(service: &mut GraphService<R>, payload: CreateUserRequest) -> (r:
    Result<User, AppError>)
    requires
        old(service).valid(),
    ensures
        final(service).valid(),
        match user_request_problem(payload) {
            Some(m) => {
                &&& r matches Err(e) && is_validation_error(e, m)
                &&& final(service).state() == old(service).state()
            },
            None => {
                let u = User { id: payload.id, username: payload.username, email: payload.email };
                &&& final(service).state() == old(service).state().create_user(u).0
                &&& r == created(old(service).state().create_user(u).1, u)
            },
        },
{
    let user = prepare_user(payload)?;
    service.create_user(user)
}

/// Creates a repository from a request: refuses an invalid request, else
/// hands the repository to the service.
pub fn create_repository<R: GraphRepository>(
    service: &mut GraphService<R>,
    payload: CreateRepositoryRequest,
) -> (r: Result<Repository, AppError>)
    requires
        old(service).valid(),
    ensures
        final(service).valid(),
        match repository_request_problem(payload) {
            Some(m) => {
                &&& r matches Err(e) && is_validation_error(e, m)
                &&& final(service).state() == old(service).state()
            },
            None => {
                let x = Repository { id: payload.id, name: payload.name };
                &&& final(service).state() == old(service).state().create_repository(x).0
                &&& r == created(old(service).state().create_repository(x).1, x)
            },
        },
{
    let repo = prepare_repository(payload)?;
    service.create_repository(repo)
}

/// Creates a commit from a request: refuses an invalid request, else hands
/// the commit to the service.
pub fn create_commit<R: GraphRepository>(service: &mut GraphService<R>, payload: CreateCommitRequest) -> (r:
    Result<Commit, AppError>)
    requires
        old(service).valid(),
    ensures
        final(service).valid(),
        match commit_request_problem(payload) {
            Some(m) => {
                &&& r matches Err(e) && is_validation_error(e, m)
                &&& final(service).state() == old(service).state()
            },
            None => {
                let x = Commit { id: payload.id, message: payload.message };
                &&& final(service).state() == old(service).state().create_commit(x).0
                &&& r == created(old(service).state().create_commit(x).1, x)
            },
        },
{
    let commit = prepare_commit(payload)?;
    service.create_commit(commit)
}

/// Places a commit in a repository and says so.
pub fn link_commit_to_repository<R: GraphRepository>(
    service: &mut GraphService<R>,
    commit_id: &str,
    repo_id: &str,
) -> (r: Result<&'static str, AppError>)
    requires
        old(service).valid(),
    ensures
        final(service).valid(),
        final(service).state() == old(service).state().link_commit_to_repository(
            commit_id@,
            repo_id@,
        ).0,
        match old(service).state().link_commit_to_repository(commit_id@, repo_id@).1 {
            Ok(_) => r matches Ok(t) && t@ == "Commit linked to Repository"@,
            Err(e) => r == Err::<&'static str, AppError>(e),
        },
{
    service.link_commit_to_repository(commit_id, repo_id)?;
    Ok("Commit linked to Repository")
}

/// Attributes a commit to a user and says so.
pub fn link_commit_to_user<R: GraphRepository>(
    service: &mut GraphService<R>,
    commit_id: &str,
    user_id: &str,
) -> (r: Result<&'static str, AppError>)
    requires
        old(service).valid(),
    ensures
        final(service).valid(),
        final(service).state() == old(service).state().link_commit_to_user(commit_id@, user_id@).0,
        match old(service).state().link_commit_to_user(commit_id@, user_id@).1 {
            Ok(_) => r matches Ok(t) && t@ == "Commit linked to User"@,
            Err(e) => r == Err::<&'static str, AppError>(e),
        },
{
    service.link_commit_to_user(commit_id, user_id)?;
    Ok("Commit linked to User")
}

/// Lists the commits of a repository, with the page size that the request asks for.
pub fn get_commits_by_repository<R: GraphRepository>(
    service: &GraphService<R>,
    repo_id: &str,
    pagination: CursorPagination,
) -> (r: Result<Vec<Commit>, AppError>)
    requires
        service.valid(),
    ensures
        repository_commits_within(service.state(), repo_id@, r),
        service.store().repository_commits_answer(
            repo_id@,
            commits_page_size(pagination.limit),
            cursor_view(pagination.cursor),
            r,
        ),
{
    let limit: u32 = commits_page_limit(pagination.limit);
    service.get_commits_by_repository(repo_id, limit, pagination.cursor)
}

/// Lists the commits of a user, with the page size that the request asks for.
pub fn get_commits_by_user<R: GraphRepository>(
    service: &GraphService<R>,
    user_id: &str,
    pagination: CursorPagination,
) -> (r: Result<Vec<Commit>, AppError>)
    requires
        service.valid(),
    ensures
        user_commits_within(service.state(), user_id@, r),
        service.store().user_commits_answer(
            user_id@,
            commits_page_size(pagination.limit),
            cursor_view(pagination.cursor),
            r,
        ),
{
    let limit: u32 = commits_page_limit(pagination.limit);
    service.get_commits_by_user(user_id, limit, pagination.cursor)
}

/// Lists a page of the repositories that a user committed to.
pub fn get_user_repositories<R: GraphRepository>(
    service: &GraphService<R>,
    user_id: &str,
    pagination: CursorPagination,
) -> (r: Result<Vec<Repository>, AppError>)
    requires
        service.valid(),
    ensures
        repositories_by_user_answer(
            service.state(),
            user_id@,
            repositories_page_size(pagination.limit) as nat,
            cursor_view(pagination.cursor),
            r,
        ),
{
    let limit: u32 = repositories_page_limit(pagination.limit);
    service.get_repositories_by_user(user_id, limit, pagination.cursor)
}

} // verus!
