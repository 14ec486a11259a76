use sdlc_graph::error::AppError;
use sdlc_graph::postgres::{
    decimal, existence_outcome, insert_failure, internal_failure, link_failure, listing_outcome,
    lookup_outcome, repository_commits_query, sql_limit, user_commits_query, user_repositories_query,
    write_outcome, DbFailure, EntityKind, LinkKind, check_event, lookup_event, write_event, MetricEvent,
    answered_check_event, insert_outcome, link_outcome,
};

#[test]
fn answered_repository_check_counts_as_a_query() {
    assert_eq!(answered_check_event(&Ok(false)), MetricEvent::QueryTime);
    assert_eq!(answered_check_event(&Ok(true)), MetricEvent::QueryTime);
    assert_eq!(answered_check_event::<bool>(&Err(failure(None, "e"))), MetricEvent::Failure);
}

#[test]
fn write_outcomes() {
    assert!(insert_outcome(EntityKind::User, Ok(())).is_ok());
    assert!(matches!(insert_outcome::<()>(EntityKind::Commit, Err(failure(Some("pk"), "dup"))), Err(AppError::CommitAlreadyExists)));
    assert_eq!(internal_text(insert_outcome::<()>(EntityKind::User, Err(failure(None, "io"))).unwrap_err()), "io");
    assert!(link_outcome(LinkKind::User, Ok(5)).is_ok());
    assert!(matches!(
        link_outcome::<()>(LinkKind::Repository, Err(failure(Some("commit_repository_repo_id_fkey"), "fk"))),
        Err(AppError::RepositoryNotFound)
    ));
}

#[test]
fn metric_events() {
    assert_eq!(write_event::<()>(&Ok(())), MetricEvent::QueryTime);
    assert_eq!(write_event::<()>(&Err(failure(None, "e"))), MetricEvent::Failure);
    assert_eq!(lookup_event(&Ok(Some(1))), MetricEvent::QueryTime);
    assert_eq!(lookup_event::<i32>(&Ok(None)), MetricEvent::Failure);
    assert_eq!(lookup_event::<i32>(&Err(failure(None, "e"))), MetricEvent::Nothing);
    assert_eq!(check_event(&Ok(false)), MetricEvent::Nothing);
    assert_eq!(check_event::<bool>(&Err(failure(None, "e"))), MetricEvent::Failure);
}

fn failure(constraint: Option<&str>, message: &str) -> DbFailure {
    DbFailure { constraint: constraint.map(|c| c.to_string()), message: message.to_string() }
}

fn internal_text(e: AppError) -> String {
    match e {
        AppError::InternalServerError(m) => m,
        other => panic!("unexpected {:?}", other),
    }
}

#[test]
fn insert_failures() {
    assert!(matches!(insert_failure(EntityKind::User, failure(Some("users_pkey"), "dup")), AppError::UserAlreadyExists));
    assert!(matches!(insert_failure(EntityKind::Repository, failure(Some("x"), "dup")), AppError::RepositoryAlreadyExists));
    assert!(matches!(insert_failure(EntityKind::Commit, failure(Some("x"), "dup")), AppError::CommitAlreadyExists));
    assert_eq!(internal_text(insert_failure(EntityKind::User, failure(None, "pool timed out"))), "pool timed out");
    assert_eq!(internal_text(internal_failure(failure(None, "gone"))), "gone");
}

#[test]
fn link_failures_by_constraint() {
    let r = LinkKind::Repository;
    assert!(matches!(link_failure(r, failure(Some("commit_repository_commit_id_fkey"), "fk")), AppError::CommitNotFound));
    assert!(matches!(link_failure(r, failure(Some("commit_repository_repo_id_fkey"), "fk")), AppError::RepositoryNotFound));
    match link_failure(r, failure(Some("commit_repository_pkey"), "dup")) {
        AppError::ValidationError(m) => assert_eq!(m, "commit already linked to repository"),
        other => panic!("unexpected {:?}", other),
    }
    assert_eq!(internal_text(link_failure(r, failure(Some("other_constraint"), "weird"))), "weird");
    assert_eq!(internal_text(link_failure(r, failure(None, "io"))), "io");
    let u = LinkKind::User;
    assert!(matches!(link_failure(u, failure(Some("public.commit_user_commit_id_fkey"), "fk")), AppError::CommitNotFound));
    assert!(matches!(link_failure(u, failure(Some("commit_user_user_id_fkey"), "fk")), AppError::UserNotFound));
    match link_failure(u, failure(Some("commit_user_pkey"), "dup")) {
        AppError::ValidationError(m) => assert_eq!(m, "commit already linked to user"),
        other => panic!("unexpected {:?}", other),
    }
    // the constraints of the other link table do not count
    assert_eq!(internal_text(link_failure(u, failure(Some("commit_repository_pkey"), "x"))), "x");
}

#[test]
fn outcomes() {
    assert_eq!(lookup_outcome(EntityKind::User, Ok(Some(7))).unwrap(), 7);
    assert!(matches!(lookup_outcome::<i32>(EntityKind::User, Ok(None)), Err(AppError::UserNotFound)));
    assert!(matches!(lookup_outcome::<i32>(EntityKind::Repository, Ok(None)), Err(AppError::RepositoryNotFound)));
    assert!(matches!(lookup_outcome::<i32>(EntityKind::Commit, Ok(None)), Err(AppError::CommitNotFound)));
    assert_eq!(internal_text(lookup_outcome::<i32>(EntityKind::User, Err(failure(None, "e"))).unwrap_err()), "e");
    assert!(existence_outcome(EntityKind::Repository, Ok(true)).is_ok());
    assert!(matches!(existence_outcome(EntityKind::Repository, Ok(false)), Err(AppError::RepositoryNotFound)));
    assert!(matches!(existence_outcome(EntityKind::User, Err(failure(None, "e"))), Err(AppError::InternalServerError(_))));
    assert_eq!(listing_outcome(Ok(vec![1, 2])).unwrap(), vec![1, 2]);
    assert!(listing_outcome::<i32>(Err(failure(None, "e"))).is_err());
    assert!(write_outcome(Ok(())).is_ok());
    assert_eq!(internal_text(write_outcome(Err(failure(None, "down"))).unwrap_err()), "down");
}

const HEAD: &str = "\n        SELECT c.id, c.message\n        FROM commit_user cu\n        JOIN commits c ON c.id = cu.commit_id\n        WHERE cu.user_id = $1\n        ";

#[test]
fn user_commits_query_numbers_placeholders() {
    assert_eq!(user_commits_query(false, false, false), format!("{} ORDER BY cu.commit_id LIMIT $2", HEAD));
    assert_eq!(
        user_commits_query(true, false, false),
        format!("{} AND cu.commit_id > $2 ORDER BY cu.commit_id LIMIT $3", HEAD)
    );
    assert_eq!(
        user_commits_query(false, true, true),
        format!("{} AND c.created_at >= $2 AND c.created_at <= $3 ORDER BY cu.commit_id LIMIT $4", HEAD)
    );
    assert_eq!(
        user_commits_query(true, true, true),
        format!(
            "{} AND cu.commit_id > $2 AND c.created_at >= $3 AND c.created_at <= $4 ORDER BY cu.commit_id LIMIT $5",
            HEAD
        )
    );
    assert_eq!(
        user_commits_query(false, false, true),
        format!("{} AND c.created_at <= $2 ORDER BY cu.commit_id LIMIT $3", HEAD)
    );
}

#[test]
fn fixed_queries() {
    assert_eq!(
        repository_commits_query(true),
        "\n                SELECT c.id, c.message\n                FROM commit_repository cr\n                JOIN commits c ON c.id = cr.commit_id\n                WHERE cr.repo_id = $1 AND cr.commit_id > $2\n                ORDER BY cr.commit_id ASC\n                LIMIT $3\n                "
    );
    assert!(repository_commits_query(false).contains("WHERE cr.repo_id = $1\n"));
    assert!(repository_commits_query(false).trim_end().ends_with("LIMIT $2"));
    assert!(user_repositories_query(true).contains("\n              AND r.id > $2\n"));
    assert!(user_repositories_query(true).trim_end().ends_with("LIMIT $3"));
    assert!(user_repositories_query(false).trim_start().starts_with("SELECT DISTINCT r.id, r.name"));
    assert!(!user_repositories_query(false).contains("$3"));
}

#[test]
fn decimals_and_limits() {
    for n in [0u32, 7, 10, 99, 123, 4096, u32::MAX] {
        assert_eq!(decimal(n), n.to_string());
    }
    assert_eq!(sql_limit(10), 10);
    assert_eq!(sql_limit(i32::MAX as u32), i32::MAX);
    assert_eq!(sql_limit(u32::MAX), -1);
    assert_eq!(sql_limit(0x8000_0000), i32::MIN);
}
