use sdlc_graph::domain::{Commit, Repository, User};
use sdlc_graph::error::AppError;
use sdlc_graph::repository::GraphRepository;
use sdlc_graph::store::InMemoryGraphRepository;

fn user(id: &str, name: &str) -> User {
    User::new(id.to_string(), name.to_string(), format!("{}@example.com", name))
}

fn repo(id: &str, name: &str) -> Repository {
    Repository::new(id.to_string(), name.to_string())
}

fn commit(id: &str, msg: &str) -> Commit {
    Commit::new(id.to_string(), msg.to_string())
}

fn ids_of_commits(v: &[Commit]) -> Vec<String> {
    let mut ids: Vec<String> = v.iter().map(|c| c.id.clone()).collect();
    ids.sort();
    ids
}

fn ids_of_repos(v: &[Repository]) -> Vec<String> {
    v.iter().map(|r| r.id.clone()).collect()
}

#[test]
fn in_memory_db_health_is_ok() {
    let store = InMemoryGraphRepository::new();
    assert!(store.db_health().is_ok());
}

#[test]
fn create_then_get_user() {
    let mut store = InMemoryGraphRepository::new();
    assert!(store.create_user(user("u1", "alice")).is_ok());
    let got = store.get_user("u1").unwrap();
    assert_eq!(got.id, "u1");
    assert_eq!(got.username, "alice");
    assert_eq!(got.email, "alice@example.com");
}

#[test]
fn duplicate_user_is_refused_and_first_stays() {
    let mut store = InMemoryGraphRepository::new();
    store.create_user(user("u1", "alice")).unwrap();
    let second = store.create_user(user("u1", "bob"));
    assert!(matches!(second, Err(AppError::UserAlreadyExists)));
    assert_eq!(store.get_user("u1").unwrap().username, "alice");
}

#[test]
fn missing_entities_are_not_found() {
    let store = InMemoryGraphRepository::new();
    assert!(matches!(store.get_user("x"), Err(AppError::UserNotFound)));
    assert!(matches!(store.get_repository("x"), Err(AppError::RepositoryNotFound)));
    assert!(matches!(store.get_commit("x"), Err(AppError::CommitNotFound)));
}

#[test]
fn create_then_get_repository_and_commit() {
    let mut store = InMemoryGraphRepository::new();
    store.create_repository(repo("r1", "core")).unwrap();
    store.create_commit(commit("c1", "init")).unwrap();
    assert_eq!(store.get_repository("r1").unwrap().name, "core");
    assert_eq!(store.get_commit("c1").unwrap().message, "init");
    assert!(matches!(store.create_repository(repo("r1", "other")), Err(AppError::RepositoryAlreadyExists)));
    assert!(matches!(store.create_commit(commit("c1", "again")), Err(AppError::CommitAlreadyExists)));
    assert_eq!(store.get_repository("r1").unwrap().name, "core");
    assert_eq!(store.get_commit("c1").unwrap().message, "init");
}

#[test]
fn ids_are_case_sensitive_and_exact() {
    let mut store = InMemoryGraphRepository::new();
    store.create_user(user("Alice", "a")).unwrap();
    assert!(store.get_user("alice").is_err());
    assert!(store.get_user("Alice ").is_err());
    assert!(store.create_user(user("alice", "b")).is_ok());
}

#[test]
fn link_refusals_come_in_order() {
    let mut store = InMemoryGraphRepository::new();
    // Neither commit nor repository: the commit is reported.
    assert!(matches!(store.link_commit_to_repository("c1", "r1"), Err(AppError::CommitNotFound)));
    assert!(matches!(store.link_commit_to_user("c1", "u1"), Err(AppError::CommitNotFound)));
    store.create_commit(commit("c1", "m")).unwrap();
    assert!(matches!(store.link_commit_to_repository("c1", "r1"), Err(AppError::RepositoryNotFound)));
    assert!(matches!(store.link_commit_to_user("c1", "u1"), Err(AppError::UserNotFound)));
    store.create_repository(repo("r1", "core")).unwrap();
    store.create_user(user("u1", "alice")).unwrap();
    assert!(store.link_commit_to_repository("c1", "r1").is_ok());
    assert!(store.link_commit_to_user("c1", "u1").is_ok());
}

#[test]
fn commits_by_repository_lists_linked_commits() {
    let mut store = InMemoryGraphRepository::new();
    store.create_repository(repo("r1", "core")).unwrap();
    store.create_repository(repo("r2", "web")).unwrap();
    for c in ["c1", "c2", "c3"] {
        store.create_commit(commit(c, "m")).unwrap();
    }
    store.link_commit_to_repository("c1", "r1").unwrap();
    store.link_commit_to_repository("c2", "r2").unwrap();
    store.link_commit_to_repository("c3", "r1").unwrap();
    let r1 = store.get_commits_by_repository("r1", 10, None).unwrap();
    assert_eq!(ids_of_commits(&r1), vec!["c1".to_string(), "c3".to_string()]);
    let r2 = store.get_commits_by_repository("r2", 10, None).unwrap();
    assert_eq!(ids_of_commits(&r2), vec!["c2".to_string()]);
    assert!(matches!(store.get_commits_by_repository("r9", 10, None), Err(AppError::RepositoryNotFound)));
}

#[test]
fn relinking_moves_a_commit_between_repositories() {
    let mut store = InMemoryGraphRepository::new();
    store.create_repository(repo("r1", "core")).unwrap();
    store.create_repository(repo("r2", "web")).unwrap();
    store.create_commit(commit("c1", "m")).unwrap();
    store.link_commit_to_repository("c1", "r1").unwrap();
    store.link_commit_to_repository("c1", "r2").unwrap();
    assert!(store.get_commits_by_repository("r1", 10, None).unwrap().is_empty());
    assert_eq!(ids_of_commits(&store.get_commits_by_repository("r2", 10, None).unwrap()), vec!["c1".to_string()]);
    // linking again to the same place changes nothing
    store.link_commit_to_repository("c1", "r2").unwrap();
    assert_eq!(store.get_commits_by_repository("r2", 10, None).unwrap().len(), 1);
}

#[test]
fn commits_by_user_lists_attributed_commits() {
    let mut store = InMemoryGraphRepository::new();
    store.create_user(user("u1", "alice")).unwrap();
    store.create_user(user("u2", "bob")).unwrap();
    store.create_commit(commit("c1", "first")).unwrap();
    store.create_commit(commit("c2", "second")).unwrap();
    store.link_commit_to_user("c1", "u1").unwrap();
    store.link_commit_to_user("c2", "u1").unwrap();
    let mine = store.get_commits_by_user("u1", 10, None).unwrap();
    assert_eq!(ids_of_commits(&mine), vec!["c1".to_string(), "c2".to_string()]);
    assert!(mine.iter().any(|c| c.id == "c2" && c.message == "second"));
    assert!(store.get_commits_by_user("u2", 10, None).unwrap().is_empty());
    assert!(matches!(store.get_commits_by_user("u9", 10, None), Err(AppError::UserNotFound)));
    store.link_commit_to_user("c1", "u2").unwrap();
    assert_eq!(ids_of_commits(&store.get_commits_by_user("u1", 10, None).unwrap()), vec!["c2".to_string()]);
    assert_eq!(ids_of_commits(&store.get_commits_by_user("u2", 10, None).unwrap()), vec!["c1".to_string()]);
}

#[test]
fn commit_listings_ignore_limit_and_cursor() {
    let mut store = InMemoryGraphRepository::new();
    store.create_repository(repo("r1", "core")).unwrap();
    for c in ["c1", "c2", "c3"] {
        store.create_commit(commit(c, "m")).unwrap();
        store.link_commit_to_repository(c, "r1").unwrap();
    }
    let listed = store.get_commits_by_repository("r1", 1, Some("c2".to_string())).unwrap();
    assert_eq!(listed.len(), 3);
}

fn graph_for_paging() -> InMemoryGraphRepository {
    let mut store = InMemoryGraphRepository::new();
    store.create_user(user("u1", "alice")).unwrap();
    store.create_user(user("u2", "bob")).unwrap();
    for (r, n) in [("r3", "three"), ("r1", "one"), ("r2", "two"), ("r4", "four")] {
        store.create_repository(repo(r, n)).unwrap();
    }
    // alice commits to r3, r1 (twice), r2; bob to r4
    let plan = [("c1", "r3", "u1"), ("c2", "r1", "u1"), ("c3", "r1", "u1"), ("c4", "r2", "u1"), ("c5", "r4", "u2")];
    for (c, r, u) in plan {
        store.create_commit(commit(c, "m")).unwrap();
        store.link_commit_to_repository(c, r).unwrap();
        store.link_commit_to_user(c, u).unwrap();
    }
    // a commit of alice's in no repository
    store.create_commit(commit("c6", "loose")).unwrap();
    store.link_commit_to_user("c6", "u1").unwrap();
    store
}

#[test]
fn repositories_by_user_are_distinct_and_ordered() {
    let store = graph_for_paging();
    let page = store.get_repositories_by_user("u1", 10, None).unwrap();
    assert_eq!(ids_of_repos(&page), vec!["r1", "r2", "r3"]);
    assert_eq!(page[0].name, "one");
    assert_eq!(ids_of_repos(&store.get_repositories_by_user("u2", 10, None).unwrap()), vec!["r4"]);
}

#[test]
fn repositories_by_user_page_by_cursor_and_limit() {
    let store = graph_for_paging();
    let first = store.get_repositories_by_user("u1", 2, None).unwrap();
    assert_eq!(ids_of_repos(&first), vec!["r1", "r2"]);
    let next = store.get_repositories_by_user("u1", 2, Some(first[1].id.clone())).unwrap();
    assert_eq!(ids_of_repos(&next), vec!["r3"]);
    let after_all = store.get_repositories_by_user("u1", 2, Some("r3".to_string())).unwrap();
    assert!(after_all.is_empty());
    // the cursor need not be an existing id
    let mid = store.get_repositories_by_user("u1", 10, Some("r1a".to_string())).unwrap();
    assert_eq!(ids_of_repos(&mid), vec!["r2", "r3"]);
    let none = store.get_repositories_by_user("u1", 0, None).unwrap();
    assert!(none.is_empty());
}

#[test]
fn next_page_continues_the_listing() {
    // law: a full page followed by the page after its last id is the page of both sizes
    let store = graph_for_paging();
    let p = store.get_repositories_by_user("u1", 1, None).unwrap();
    let q = store.get_repositories_by_user("u1", 2, Some(p[0].id.clone())).unwrap();
    let both = store.get_repositories_by_user("u1", 3, None).unwrap();
    let joined: Vec<String> = ids_of_repos(&p).into_iter().chain(ids_of_repos(&q)).collect();
    assert_eq!(joined, ids_of_repos(&both));
}

#[test]
fn repositories_by_unknown_user_is_not_found() {
    let store = graph_for_paging();
    assert!(matches!(store.get_repositories_by_user("nobody", 10, None), Err(AppError::UserNotFound)));
}

#[test]
fn repositories_are_ordered_by_code_point() {
    let mut store = InMemoryGraphRepository::new();
    store.create_user(user("u", "u")).unwrap();
    let ids = ["b", "B", "é", "a", "ab", "z"];
    for (i, r) in ids.iter().enumerate() {
        store.create_repository(repo(r, r)).unwrap();
        let c = format!("c{}", i);
        store.create_commit(commit(&c, "m")).unwrap();
        store.link_commit_to_repository(&c, r).unwrap();
        store.link_commit_to_user(&c, "u").unwrap();
    }
    let page = store.get_repositories_by_user("u", 10, None).unwrap();
    let mut expected: Vec<String> = ids.iter().map(|s| s.to_string()).collect();
    expected.sort();
    assert_eq!(ids_of_repos(&page), expected);
    assert_eq!(ids_of_repos(&page), vec!["B", "a", "ab", "b", "z", "é"]);
}

#[test]
fn repeated_queries_agree() {
    // laws: a page is determined by the graph; two commit listings hold the same commits
    let store = graph_for_paging();
    let a = store.get_repositories_by_user("u1", 2, Some("r1".to_string())).unwrap();
    let b = store.get_repositories_by_user("u1", 2, Some("r1".to_string())).unwrap();
    assert_eq!(ids_of_repos(&a), ids_of_repos(&b));
    let x = store.get_commits_by_user("u1", 10, None).unwrap();
    let y = store.get_commits_by_user("u1", 3, Some("zzz".to_string())).unwrap();
    let in_order = |v: &[Commit]| v.iter().map(|c| c.id.clone()).collect::<Vec<String>>();
    assert_eq!(in_order(&x), in_order(&y));
    // listed in the order the commits were attributed
    assert_eq!(in_order(&x), vec!["c1", "c2", "c3", "c4", "c6"]);
    assert_eq!(ids_of_commits(&x), vec!["c1", "c2", "c3", "c4", "c6"]);
}

#[test]
fn creating_one_entity_leaves_other_reads() {
    let mut store = InMemoryGraphRepository::new();
    store.create_user(user("u1", "alice")).unwrap();
    store.create_user(user("u2", "bob")).unwrap();
    assert_eq!(store.get_user("u1").unwrap().username, "alice");
    assert_eq!(store.get_user("u2").unwrap().username, "bob");
}

#[test]
fn an_empty_store_lists_nothing() {
    let mut store = InMemoryGraphRepository::new();
    store.create_user(user("u1", "alice")).unwrap();
    store.create_repository(repo("r1", "core")).unwrap();
    assert!(store.get_repositories_by_user("u1", 10, None).unwrap().is_empty());
    assert!(store.get_commits_by_user("u1", 10, None).unwrap().is_empty());
    assert!(store.get_commits_by_repository("r1", 10, None).unwrap().is_empty());
}
