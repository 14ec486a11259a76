use vstd::prelude::*;
use vstd::string::StringExecFns;
use crate::error::AppError;
use crate::text::{occurs_in, contains_text};

verus! {

/// What the store keeps of a failed database call: the name of the
/// constraint that a database error broke, if any, and the error's text.
pub struct DbFailure {
    pub constraint: Option<String>,
    pub message: String,
}

/// The kinds of entities the database stores.
#[derive(Clone, Copy, Debug)]
pub enum EntityKind {
    User,
    Repository,
    Commit,
}

/// The kinds of links between a commit and another entity.
#[derive(Clone, Copy, Debug)]
pub enum LinkKind {
    Repository,
    User,
}

/// What a database call is reported to the metrics as: its duration as a
/// query, a failure, or nothing.
#[derive(Clone, Copy, Debug, PartialEq, Eq, Structural)]
pub enum MetricEvent {
    QueryTime,
    Failure,
    Nothing,
}

/// A write or a listing: its time when it succeeds, a failure when it fails.
pub fn write_event<T>(r: &Result<T, DbFailure>) -> (m: MetricEvent)
    ensures
        r is Ok ==> m == MetricEvent::QueryTime,
        r is Err ==> m == MetricEvent::Failure,
{
    match r {
        Ok(_) => MetricEvent::QueryTime,
        Err(_) => MetricEvent::Failure,
    }
}

/// A lookup by id: its time when the row is there, a failure when it is
/// missing, and nothing when the call itself failed.
pub fn lookup_event<T>(r: &Result<Option<T>, DbFailure>) -> (m: MetricEvent)
    ensures
        r matches Ok(Some(_)) ==> m == MetricEvent::QueryTime,
        r matches Ok(None) ==> m == MetricEvent::Failure,
        r is Err ==> m == MetricEvent::Nothing,
{
    match r {
        Ok(Some(_)) => MetricEvent::QueryTime,
        Ok(None) => MetricEvent::Failure,
        Err(_) => MetricEvent::Nothing,
    }
}

/// An existence check ahead of a listing: a failure when the call failed,
/// and nothing otherwise, whether or not the entity is there.
pub fn check_event<T>(r: &Result<T, DbFailure>) -> (m: MetricEvent)
    ensures
        r is Ok ==> m == MetricEvent::Nothing,
        r is Err ==> m == MetricEvent::Failure,
{
    match r {
        Ok(_) => MetricEvent::Nothing,
        Err(_) => MetricEvent::Failure,
    }
}

/// The existence check ahead of a repository's commits: the database
/// answered, so the check counts as a query whether or not the repository
/// is there; only a failed call is a failure.
pub fn answered_check_event<T>(r: &Result<T, DbFailure>) -> (m: MetricEvent)
    ensures
        r is Ok ==> m == MetricEvent::QueryTime,
        r is Err ==> m == MetricEvent::Failure,
{
    match r {
        Ok(_) => MetricEvent::QueryTime,
        Err(_) => MetricEvent::Failure,
    }
}

/// `e` is the internal error that carries `m`.
pub open spec fn is_internal_error(e: AppError, m: Seq<char>) -> bool {
    e matches AppError::InternalServerError(text) && text@ == m
}

pub open spec fn already_exists(kind: EntityKind) -> AppError {
    match kind {
        EntityKind::User => AppError::UserAlreadyExists,
        EntityKind::Repository => AppError::RepositoryAlreadyExists,
        EntityKind::Commit => AppError::CommitAlreadyExists,
    }
}

pub open spec fn not_found(kind: EntityKind) -> AppError {
    match kind {
        EntityKind::User => AppError::UserNotFound,
        EntityKind::Repository => AppError::RepositoryNotFound,
        EntityKind::Commit => AppError::CommitNotFound,
    }
}

pub fn already_exists_error(kind: EntityKind) -> (e: AppError)
    ensures
        e == already_exists(kind),
{
    match kind {
        EntityKind::User => AppError::UserAlreadyExists,
        EntityKind::Repository => AppError::RepositoryAlreadyExists,
        EntityKind::Commit => AppError::CommitAlreadyExists,
    }
}

pub fn not_found_error(kind: EntityKind) -> (e: AppError)
    ensures
        e == not_found(kind),
{
    match kind {
        EntityKind::User => AppError::UserNotFound,
        EntityKind::Repository => AppError::RepositoryNotFound,
        EntityKind::Commit => AppError::CommitNotFound,
    }
}

/// The error for a failed insert: a broken constraint means the entity is
/// already there; anything else is an internal error with the failure's text.
pub fn insert_failure(kind: EntityKind, failure: DbFailure) -> (e: AppError)
    ensures
        failure.constraint is Some ==> e == already_exists(kind),
        failure.constraint is None ==> is_internal_error(e, failure.message@),
{
    match failure.constraint {
        Some(_) => already_exists_error(kind),
        None => AppError::InternalServerError(failure.message),
    }
}

/// The answer to an insert: done, or the error for its failure.
pub fn insert_outcome<T>(kind: EntityKind, r: Result<T, DbFailure>) -> (out: Result<(), AppError>)
    ensures
        match r {
            Ok(_) => out is Ok,
            Err(f) => {
                &&& f.constraint is Some ==> out == Err::<(), AppError>(already_exists(kind))
                &&& f.constraint is None ==> (out matches Err(e) && is_internal_error(e, f.message@))
            },
        },
{
    match r {
        Ok(_) => Ok(()),
        Err(f) => Err(insert_failure(kind, f)),
    }
}

/// The answer to a link insert: done, or the error for its failure.
pub fn link_outcome<T>(kind: LinkKind, r: Result<T, DbFailure>) -> (out: Result<(), AppError>)
    ensures
        match r {
            Ok(_) => out is Ok,
            Err(f) => out matches Err(e) && link_failure_is(kind, f, e),
        },
{
    match r {
        Ok(_) => Ok(()),
        Err(f) => Err(link_failure(kind, f)),
    }
}

/// Any other failed call is an internal error with the failure's text.
pub fn internal_failure(failure: DbFailure) -> (e: AppError)
    ensures
        is_internal_error(e, failure.message@),
{
    AppError::InternalServerError(failure.message)
}

/// The answer to a lookup by id: the row, or not found, or an internal error.
pub fn lookup_outcome<T>(kind: EntityKind, r: Result<Option<T>, DbFailure>) -> (out: Result<T, AppError>)
    ensures
        match r {
            Ok(Some(row)) => out == Ok::<T, AppError>(row),
            Ok(None) => out == Err::<T, AppError>(not_found(kind)),
            Err(f) => out matches Err(e) && is_internal_error(e, f.message@),
        },
{
    match r {
        Ok(Some(row)) => Ok(row),
        Ok(None) => Err(not_found_error(kind)),
        Err(f) => Err(internal_failure(f)),
    }
}

/// The answer to an existence check ahead of a listing.
pub fn existence_outcome(kind: EntityKind, r: Result<bool, DbFailure>) -> (out: Result<(), AppError>)
    ensures
        match r {
            Ok(true) => out is Ok,
            Ok(false) => out == Err::<(), AppError>(not_found(kind)),
            Err(f) => out matches Err(e) && is_internal_error(e, f.message@),
        },
{
    match r {
        Ok(true) => Ok(()),
        Ok(false) => Err(not_found_error(kind)),
        Err(f) => Err(internal_failure(f)),
    }
}

/// The answer to a call that only succeeds or fails.
pub fn write_outcome(r: Result<(), DbFailure>) -> (out: Result<(), AppError>)
    ensures
        match r {
            Ok(()) => out is Ok,
            Err(f) => out matches Err(e) && is_internal_error(e, f.message@),
        },
{
    match r {
        Ok(()) => Ok(()),
        Err(f) => Err(internal_failure(f)),
    }
}

/// The answer to a listing.
pub fn listing_outcome<T>(r: Result<Vec<T>, DbFailure>) -> (out: Result<Vec<T>, AppError>)
    ensures
        match r {
            Ok(rows) => out == Ok::<Vec<T>, AppError>(rows),
            Err(f) => out matches Err(e) && is_internal_error(e, f.message@),
        },
{
    match r {
        Ok(rows) => Ok(rows),
        Err(f) => Err(internal_failure(f)),
    }
}

/// The names of the constraints of a link table: the key to the commit,
/// the key to the other entity, and the primary key.
pub open spec fn link_constraints(kind: LinkKind) -> (Seq<char>, Seq<char>, Seq<char>) {
    match kind {
        LinkKind::Repository => (
            "commit_repository_commit_id_fkey"@,
            "commit_repository_repo_id_fkey"@,
            "commit_repository_pkey"@,
        ),
        LinkKind::User => (
            "commit_user_commit_id_fkey"@,
            "commit_user_user_id_fkey"@,
            "commit_user_pkey"@,
        ),
    }
}

/// The message for a link that is already there.
pub open spec fn duplicate_link_message(kind: LinkKind) -> Seq<char> {
    match kind {
        LinkKind::Repository => "commit already linked to repository"@,
        LinkKind::User => "commit already linked to user"@,
    }
}

pub open spec fn linked_entity_missing(kind: LinkKind) -> AppError {
    match kind {
        LinkKind::Repository => AppError::RepositoryNotFound,
        LinkKind::User => AppError::UserNotFound,
    }
}

/// What a failed link insert is answered with, by the constraint it broke.
pub open spec fn link_failure_is(kind: LinkKind, failure: DbFailure, e: AppError) -> bool {
    let (commit_key, other_key, primary) = link_constraints(kind);
    match failure.constraint {
        Some(c) => if occurs_in(c@, commit_key) {
            e == AppError::CommitNotFound
        } else if occurs_in(c@, other_key) {
            e == linked_entity_missing(kind)
        } else if occurs_in(c@, primary) {
            e matches AppError::ValidationError(m) && m@ == duplicate_link_message(kind)
        } else {
            is_internal_error(e, failure.message@)
        },
        None => is_internal_error(e, failure.message@),
    }
}

/// The error for a failed link insert: a broken key to the commit or to
/// the other entity means it is missing; a broken primary key means the
/// link is already there.
pub fn link_failure(kind: LinkKind, failure: DbFailure) -> (e: AppError)
    ensures
        link_failure_is(kind, failure, e),
{
    let (commit_key, other_key, primary) = match kind {
        LinkKind::Repository => (
            "commit_repository_commit_id_fkey",
            "commit_repository_repo_id_fkey",
            "commit_repository_pkey",
        ),
        LinkKind::User => ("commit_user_commit_id_fkey", "commit_user_user_id_fkey", "commit_user_pkey"),
    };
    if let Some(c) = &failure.constraint {
        if contains_text(c.as_str(), commit_key) {
            return AppError::CommitNotFound;
        }
        if contains_text(c.as_str(), other_key) {
            return match kind {
                LinkKind::Repository => AppError::RepositoryNotFound,
                LinkKind::User => AppError::UserNotFound,
            };
        }
        if contains_text(c.as_str(), primary) {
            let m = match kind {
                LinkKind::Repository => String::from_str("commit already linked to repository"),
                LinkKind::User => String::from_str("commit already linked to user"),
            };
            return AppError::ValidationError(m);
        }
    }
    AppError::InternalServerError(failure.message)
}

/// The character of a decimal digit.
pub open spec fn digit_char(d: int) -> char {
    if d == 0 {
        '0'
    } else if d == 1 {
        '1'
    } else if d == 2 {
        '2'
    } else if d == 3 {
        '3'
    } else if d == 4 {
        '4'
    } else if d == 5 {
        '5'
    } else if d == 6 {
        '6'
    } else if d == 7 {
        '7'
    } else if d == 8 {
        '8'
    } else {
        '9'
    }
}

/// The decimal numeral of `n`.
pub open spec fn decimal_text(n: nat) -> Seq<char>
    decreases n,
{
    if n < 10 {
        seq![digit_char(n as int)]
    } else {
        decimal_text(n / 10) + seq![digit_char((n % 10) as int)]
    }
}

fn digit_str(d: u32) -> (s: &'static str)
    requires
        d < 10,
    ensures
        s@ == seq![digit_char(d as int)],
{
    proof {
        reveal_strlit("0");
        reveal_strlit("1");
        reveal_strlit("2");
        reveal_strlit("3");
        reveal_strlit("4");
        reveal_strlit("5");
        reveal_strlit("6");
        reveal_strlit("7");
        reveal_strlit("8");
        reveal_strlit("9");
    }
    let s = if d == 0 {
        "0"
    } else if d == 1 {
        "1"
    } else if d == 2 {
        "2"
    } else if d == 3 {
        "3"
    } else if d == 4 {
        "4"
    } else if d == 5 {
        "5"
    } else if d == 6 {
        "6"
    } else if d == 7 {
        "7"
    } else if d == 8 {
        "8"
    } else {
        "9"
    };
    assert(s@ =~= seq![digit_char(d as int)]);
    s
}

/// Writes `n` in decimal.
pub fn decimal(n: u32) -> (s: String)
    ensures
        s@ == decimal_text(n as nat),
    decreases n,
{
    if n < 10 {
        String::from_str(digit_str(n))
    } else {
        let mut s = decimal(n / 10);
        s.append(digit_str(n % 10));
        s
    }
}

/// The fixed head of the query for a user's commits.
pub open spec fn user_commits_head() -> Seq<char> {
    "\n        SELECT c.id, c.message\n        FROM commit_user cu\n        JOIN commits c ON c.id = cu.commit_id\n        WHERE cu.user_id = $1\n        "@
}

/// A condition `clause` followed by the placeholder `$n`.
pub open spec fn placeholder(clause: Seq<char>, n: nat) -> Seq<char> {
    clause + "$"@ + decimal_text(n)
}

/// The query for a user's commits: each filter that is given adds a
/// condition with the next placeholder, and the limit takes the last one.
pub open spec fn user_commits_query_text(has_cursor: bool, has_from: bool, has_to: bool) -> Seq<char> {
    let n1: nat = 2;
    let q1 = if has_cursor {
        user_commits_head() + placeholder(" AND cu.commit_id > "@, n1)
    } else {
        user_commits_head()
    };
    let n2: nat = if has_cursor { n1 + 1 } else { n1 };
    let q2 = if has_from { q1 + placeholder(" AND c.created_at >= "@, n2) } else { q1 };
    let n3: nat = if has_from { n2 + 1 } else { n2 };
    let q3 = if has_to { q2 + placeholder(" AND c.created_at <= "@, n3) } else { q2 };
    let n4: nat = if has_to { n3 + 1 } else { n3 };
    q3 + placeholder(" ORDER BY cu.commit_id LIMIT "@, n4)
}

fn push_placeholder(q: &mut String, clause: &str, n: u32)
    ensures
        final(q)@ == old(q)@ + placeholder(clause@, n as nat),
{
    q.append(clause);
    q.append("$");
    let d = decimal(n);
    q.append(d.as_str());
    assert(final(q)@ =~= old(q)@ + placeholder(clause@, n as nat));
}

/// Builds the query for a user's commits, numbering the placeholders in
/// the order the values are bound: user, cursor, from, to, limit.
pub fn user_commits_query(has_cursor: bool, has_from: bool, has_to: bool) -> (q: String)
    ensures
        q@ == user_commits_query_text(has_cursor, has_from, has_to),
{
    let mut q = String::from_str(
        "\n        SELECT c.id, c.message\n        FROM commit_user cu\n        JOIN commits c ON c.id = cu.commit_id\n        WHERE cu.user_id = $1\n        ",
    );
    let mut n: u32 = 2;
    if has_cursor {
        push_placeholder(&mut q, " AND cu.commit_id > ", n);
        n = n + 1;
    }
    if has_from {
        push_placeholder(&mut q, " AND c.created_at >= ", n);
        n = n + 1;
    }
    if has_to {
        push_placeholder(&mut q, " AND c.created_at <= ", n);
        n = n + 1;
    }
    push_placeholder(&mut q, " ORDER BY cu.commit_id LIMIT ", n);
    q
}

/// The query for a repository's commits, after the cursor when there is one.
pub fn repository_commits_query(has_cursor: bool) -> (q: &'static str)
    ensures
        has_cursor ==> q@
            == "\n                SELECT c.id, c.message\n                FROM commit_repository cr\n                JOIN commits c ON c.id = cr.commit_id\n                WHERE cr.repo_id = $1 AND cr.commit_id > $2\n                ORDER BY cr.commit_id ASC\n                LIMIT $3\n                "@,
        !has_cursor ==> q@
            == "\n                SELECT c.id, c.message\n                FROM commit_repository cr\n                JOIN commits c ON c.id = cr.commit_id\n                WHERE cr.repo_id = $1\n                ORDER BY cr.commit_id ASC\n                LIMIT $2\n                "@,
{
    if has_cursor {
        "\n                SELECT c.id, c.message\n                FROM commit_repository cr\n                JOIN commits c ON c.id = cr.commit_id\n                WHERE cr.repo_id = $1 AND cr.commit_id > $2\n                ORDER BY cr.commit_id ASC\n                LIMIT $3\n                "
    } else {
        "\n                SELECT c.id, c.message\n                FROM commit_repository cr\n                JOIN commits c ON c.id = cr.commit_id\n                WHERE cr.repo_id = $1\n                ORDER BY cr.commit_id ASC\n                LIMIT $2\n                "
    }
}

/// The query for the distinct repositories a user committed to, ordered
/// by id, after the cursor when there is one.
pub fn user_repositories_query(has_cursor: bool) -> (q: &'static str)
    ensures
        has_cursor ==> q@
            == "\n            SELECT DISTINCT r.id, r.name\n            FROM commit_user cu\n            JOIN commits c ON c.id = cu.commit_id\n            JOIN commit_repository cr ON cr.commit_id = c.id\n            JOIN repositories r ON r.id = cr.repo_id\n            WHERE cu.user_id = $1\n              AND r.id > $2\n            ORDER BY r.id\n            LIMIT $3\n            "@,
        !has_cursor ==> q@
            == "\n            SELECT DISTINCT r.id, r.name\n            FROM commit_user cu\n            JOIN commits c ON c.id = cu.commit_id\n            JOIN commit_repository cr ON cr.commit_id = c.id\n            JOIN repositories r ON r.id = cr.repo_id\n            WHERE cu.user_id = $1\n            ORDER BY r.id\n            LIMIT $2\n            "@,
{
    if has_cursor {
        "\n            SELECT DISTINCT r.id, r.name\n            FROM commit_user cu\n            JOIN commits c ON c.id = cu.commit_id\n            JOIN commit_repository cr ON cr.commit_id = c.id\n            JOIN repositories r ON r.id = cr.repo_id\n            WHERE cu.user_id = $1\n              AND r.id > $2\n            ORDER BY r.id\n            LIMIT $3\n            "
    } else {
        "\n            SELECT DISTINCT r.id, r.name\n            FROM commit_user cu\n            JOIN commits c ON c.id = cu.commit_id\n            JOIN commit_repository cr ON cr.commit_id = c.id\n            JOIN repositories r ON r.id = cr.repo_id\n            WHERE cu.user_id = $1\n            ORDER BY r.id\n            LIMIT $2\n            "
    }
}

/// The limit as the database's 32-bit signed integer, wrapping as `as i32` does.
pub fn sql_limit(limit: u32) -> (n: i32)
    ensures
        limit <= 0x7fff_ffff ==> n == limit,
        limit > 0x7fff_ffff ==> n == limit - 0x1_0000_0000,
{
    if limit <= 0x7fff_ffff {
        limit as i32
    } else {
        let below: u32 = limit - 0x8000_0000;
        (below as i32) - 0x7fff_ffff - 1
    }
}

} // verus!
