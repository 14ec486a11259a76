use vstd::prelude::*;
use crate::domain::{User, Repository, Commit};
use crate::error::AppError;
use crate::repository::GraphRepository;
use crate::store::InMemoryGraphRepository;
use crate::model::{GraphState, is_repository_page, wanted_repository, lists_commits};
use crate::service::created;
use crate::handlers::{
    CreateUserRequest, CreateRepositoryRequest, CreateCommitRequest, user_request_problem,
    repository_request_problem, commit_request_problem, blank_field_message, email_message,
    repositories_page_size, commits_page_size,
};
use crate::text::is_blank_text;
use crate::text::{
    text_lt, lemma_text_lt_irreflexive, lemma_text_lt_transitive, lemma_text_lt_total,
    lemma_text_lt_asymmetric,
};

verus! {

/// An empty graph is well formed.
pub proof fn law_empty_graph_well_formed()
    ensures
        GraphState::empty().well_formed(),
{
}

/// Every operation that changes the graph keeps it well formed: entities
/// stay under their ids, and links only ever join stored entities.
pub proof fn law_operations_keep_graph_well_formed(
    s: GraphState,
    user: User,
    repo: Repository,
    commit: Commit,
    commit_id: Seq<char>,
    other_id: Seq<char>,
)
    requires
        s.well_formed(),
    ensures
        s.create_user(user).0.well_formed(),
        s.create_repository(repo).0.well_formed(),
        s.create_commit(commit).0.well_formed(),
        s.link_commit_to_repository(commit_id, other_id).0.well_formed(),
        s.link_commit_to_user(commit_id, other_id).0.well_formed(),
{
}

/// A refused operation leaves the graph as it was.
pub proof fn law_refused_operations_change_nothing(
    s: GraphState,
    user: User,
    repo: Repository,
    commit: Commit,
    commit_id: Seq<char>,
    other_id: Seq<char>,
)
    ensures
        s.create_user(user).1 is Err ==> s.create_user(user).0 == s,
        s.create_repository(repo).1 is Err ==> s.create_repository(repo).0 == s,
        s.create_commit(commit).1 is Err ==> s.create_commit(commit).0 == s,
        s.link_commit_to_repository(commit_id, other_id).1 is Err
            ==> s.link_commit_to_repository(commit_id, other_id).0 == s,
        s.link_commit_to_user(commit_id, other_id).1 is Err ==> s.link_commit_to_user(
            commit_id,
            other_id,
        ).0 == s,
{
}

/// Creating succeeds exactly when the id is free, and a read by the id then
/// gives back what was created.
pub proof fn law_create_then_get(s: GraphState, user: User, repo: Repository, commit: Commit)
    ensures
        s.create_user(user).1 is Ok <==> !s.users.contains_key(user.id@),
        s.create_user(user).1 is Ok ==> s.create_user(user).0.get_user(user.id@) == Ok::<
            User,
            AppError,
        >(user),
        s.create_repository(repo).1 is Ok <==> !s.repositories.contains_key(repo.id@),
        s.create_repository(repo).1 is Ok ==> s.create_repository(repo).0.get_repository(repo.id@)
            == Ok::<Repository, AppError>(repo),
        s.create_commit(commit).1 is Ok <==> !s.commits.contains_key(commit.id@),
        s.create_commit(commit).1 is Ok ==> s.create_commit(commit).0.get_commit(commit.id@) == Ok::<
            Commit,
            AppError,
        >(commit),
{
}

/// A second creation under a taken id is refused as a conflict, and what
/// was stored first stays.
pub proof fn law_duplicate_create_refused(s: GraphState, user: User, repo: Repository, commit: Commit)
    ensures
        s.users.contains_key(user.id@) ==> s.create_user(user) == (
            s,
            Err::<(), AppError>(AppError::UserAlreadyExists),
        ),
        s.repositories.contains_key(repo.id@) ==> s.create_repository(repo) == (
            s,
            Err::<(), AppError>(AppError::RepositoryAlreadyExists),
        ),
        s.commits.contains_key(commit.id@) ==> s.create_commit(commit) == (
            s,
            Err::<(), AppError>(AppError::CommitAlreadyExists),
        ),
{
}

/// Creating one entity does not change what a read of another id gives.
pub proof fn law_create_leaves_other_reads(s: GraphState, user: User, id: Seq<char>)
    requires
        id != user.id@,
    ensures
        s.create_user(user).0.get_user(id) == s.get_user(id),
{
}

/// A link is refused when the commit is missing (checked first), then when
/// the repository or user is missing; otherwise it succeeds.
pub proof fn law_link_refusals(s: GraphState, commit_id: Seq<char>, other_id: Seq<char>)
    ensures
        !s.commits.contains_key(commit_id) ==> s.link_commit_to_repository(commit_id, other_id).1
            == Err::<(), AppError>(AppError::CommitNotFound),
        !s.commits.contains_key(commit_id) ==> s.link_commit_to_user(commit_id, other_id).1 == Err::<
            (),
            AppError,
        >(AppError::CommitNotFound),
        s.commits.contains_key(commit_id) && !s.repositories.contains_key(other_id)
            ==> s.link_commit_to_repository(commit_id, other_id).1 == Err::<(), AppError>(
            AppError::RepositoryNotFound,
        ),
        s.commits.contains_key(commit_id) && !s.users.contains_key(other_id)
            ==> s.link_commit_to_user(commit_id, other_id).1 == Err::<(), AppError>(
            AppError::UserNotFound,
        ),
        s.commits.contains_key(commit_id) && s.repositories.contains_key(other_id)
            ==> s.link_commit_to_repository(commit_id, other_id).1 is Ok,
        s.commits.contains_key(commit_id) && s.users.contains_key(other_id)
            ==> s.link_commit_to_user(commit_id, other_id).1 is Ok,
{
}

/// After a commit is placed in a repository, it is listed there and in no
/// other repository: a commit belongs to one repository at a time, and the
/// other commits keep their places.
pub proof fn law_link_places_commit_in_one_repository(
    s: GraphState,
    commit_id: Seq<char>,
    repo_id: Seq<char>,
    other_repo: Seq<char>,
)
    requires
        s.link_commit_to_repository(commit_id, repo_id).1 is Ok,
    ensures
        s.link_commit_to_repository(commit_id, repo_id).0.commits_in_repository(repo_id)
            == s.commits_in_repository(repo_id).insert(commit_id),
        other_repo != repo_id ==> s.link_commit_to_repository(commit_id, repo_id).0.commits_in_repository(
            other_repo,
        ) == s.commits_in_repository(other_repo).remove(commit_id),
{
    let t = s.link_commit_to_repository(commit_id, repo_id).0;
    assert(t.commits_in_repository(repo_id) =~= s.commits_in_repository(repo_id).insert(commit_id));
    if other_repo != repo_id {
        assert(t.commits_in_repository(other_repo) =~= s.commits_in_repository(other_repo).remove(
            commit_id,
        ));
    }
}

/// After a commit is attributed to a user, it is listed for that user and
/// for no other.
pub proof fn law_link_attributes_commit_to_one_user(
    s: GraphState,
    commit_id: Seq<char>,
    user_id: Seq<char>,
    other_user: Seq<char>,
)
    requires
        s.link_commit_to_user(commit_id, user_id).1 is Ok,
    ensures
        s.link_commit_to_user(commit_id, user_id).0.commits_of_user(user_id)
            == s.commits_of_user(user_id).insert(commit_id),
        other_user != user_id ==> s.link_commit_to_user(commit_id, user_id).0.commits_of_user(
            other_user,
        ) == s.commits_of_user(other_user).remove(commit_id),
{
    let t = s.link_commit_to_user(commit_id, user_id).0;
    assert(t.commits_of_user(user_id) =~= s.commits_of_user(user_id).insert(commit_id));
    if other_user != user_id {
        assert(t.commits_of_user(other_user) =~= s.commits_of_user(other_user).remove(commit_id));
    }
}

/// Linking a commit again to where it already is changes nothing.
pub proof fn law_relink_is_idempotent(s: GraphState, commit_id: Seq<char>, repo_id: Seq<char>)
    requires
        s.link_commit_to_repository(commit_id, repo_id).1 is Ok,
    ensures
        s.link_commit_to_repository(commit_id, repo_id).0.link_commit_to_repository(
            commit_id,
            repo_id,
        ).0 == s.link_commit_to_repository(commit_id, repo_id).0,
{
    let t = s.link_commit_to_repository(commit_id, repo_id).0;
    assert(t.link_commit_to_repository(commit_id, repo_id).0.commit_repo =~= t.commit_repo);
}

/// Creating an entity touches nothing but the entities of its own kind:
/// the links, and with them every user's commits and repositories and every
/// repository's commits, stay as they were.
pub proof fn law_create_changes_only_its_kind(
    s: GraphState,
    user: User,
    repo: Repository,
    commit: Commit,
    who: Seq<char>,
    place: Seq<char>,
)
    requires
        s.well_formed(),
    ensures
        ({
            let t = s.create_user(user).0;
            &&& t.repositories == s.repositories
            &&& t.commits == s.commits
            &&& t.commit_repo == s.commit_repo
            &&& t.commit_user == s.commit_user
            &&& t.commits_of_user(who) == s.commits_of_user(who)
            &&& t.repositories_of_user(who) == s.repositories_of_user(who)
            &&& t.commits_in_repository(place) == s.commits_in_repository(place)
        }),
        ({
            let t = s.create_repository(repo).0;
            &&& t.users == s.users
            &&& t.commits == s.commits
            &&& t.commit_repo == s.commit_repo
            &&& t.commit_user == s.commit_user
            &&& t.commits_of_user(who) == s.commits_of_user(who)
            &&& t.commits_in_repository(place) == s.commits_in_repository(place)
        }),
        ({
            let t = s.create_commit(commit).0;
            &&& t.users == s.users
            &&& t.repositories == s.repositories
            &&& t.commit_repo == s.commit_repo
            &&& t.commit_user == s.commit_user
            &&& t.commits_of_user(who) == s.commits_of_user(who)
            &&& t.repositories_of_user(who) == s.repositories_of_user(who)
            &&& t.commits_in_repository(place) == s.commits_in_repository(place)
        }),
{
    let t = s.create_user(user).0;
    assert(t.commits_of_user(who) =~= s.commits_of_user(who));
    assert(t.repositories_of_user(who) =~= s.repositories_of_user(who));
    assert(t.commits_in_repository(place) =~= s.commits_in_repository(place));
    let t = s.create_repository(repo).0;
    assert(t.commits_of_user(who) =~= s.commits_of_user(who));
    assert(t.commits_in_repository(place) =~= s.commits_in_repository(place));
    let t = s.create_commit(commit).0;
    assert(t.commits_of_user(who) =~= s.commits_of_user(who));
    assert(t.repositories_of_user(who) =~= s.repositories_of_user(who));
    assert(t.commits_in_repository(place) =~= s.commits_in_repository(place));
}

/// Placing a commit in a repository leaves its author as it was: every
/// user keeps exactly the commits attributed to them, and the author of the
/// placed commit now has that repository among theirs.
pub proof fn law_placing_keeps_authors(
    s: GraphState,
    commit_id: Seq<char>,
    repo_id: Seq<char>,
    who: Seq<char>,
)
    requires
        s.well_formed(),
    ensures
        ({
            let t = s.link_commit_to_repository(commit_id, repo_id).0;
            &&& t.users == s.users
            &&& t.repositories == s.repositories
            &&& t.commits == s.commits
            &&& t.commit_user == s.commit_user
            &&& t.commits_of_user(who) == s.commits_of_user(who)
        }),
        s.link_commit_to_repository(commit_id, repo_id).1 is Ok && s.commit_user.contains_key(
            commit_id,
        ) ==> s.link_commit_to_repository(commit_id, repo_id).0.repositories_of_user(
            s.commit_user[commit_id],
        ).contains(repo_id),
{
    let t = s.link_commit_to_repository(commit_id, repo_id).0;
    assert(t.commits_of_user(who) =~= s.commits_of_user(who));
    if s.link_commit_to_repository(commit_id, repo_id).1 is Ok && s.commit_user.contains_key(
        commit_id,
    ) {
        let u = s.commit_user[commit_id];
        assert(t.commit_user[commit_id] == u && t.commit_repo[commit_id] == repo_id);
        assert(t.repositories_of_user(u).contains(repo_id));
    }
}

/// Attributing a commit to a user leaves its place as it was: every
/// repository keeps exactly the commits placed in it.
pub proof fn law_attributing_keeps_places(
    s: GraphState,
    commit_id: Seq<char>,
    user_id: Seq<char>,
    place: Seq<char>,
)
    requires
        s.well_formed(),
    ensures
        ({
            let t = s.link_commit_to_user(commit_id, user_id).0;
            &&& t.users == s.users
            &&& t.repositories == s.repositories
            &&& t.commits == s.commits
            &&& t.commit_repo == s.commit_repo
            &&& t.commits_in_repository(place) == s.commits_in_repository(place)
        }),
{
    let t = s.link_commit_to_user(commit_id, user_id).0;
    assert(t.commits_in_repository(place) =~= s.commits_in_repository(place));
}

/// The service answers a create with the value exactly when the store
/// accepted it, and otherwise with the store's own error; so a create under
/// a taken id is answered as a conflict.
pub proof fn law_service_create_answers_as_store(
    s: GraphState,
    r: Result<(), AppError>,
    user: User,
    repo: Repository,
    commit: Commit,
)
    ensures
        created(r, repo) is Ok <==> r is Ok,
        r matches Err(e) ==> created(r, repo) == Err::<Repository, AppError>(e),
        r is Ok ==> created(r, repo) == Ok::<Repository, AppError>(repo),
        s.users.contains_key(user.id@) ==> created(s.create_user(user).1, user) == Err::<User, AppError>(
            AppError::UserAlreadyExists,
        ),
        s.repositories.contains_key(repo.id@) ==> created(s.create_repository(repo).1, repo) == Err::<
            Repository,
            AppError,
        >(AppError::RepositoryAlreadyExists),
        s.commits.contains_key(commit.id@) ==> created(s.create_commit(commit).1, commit) == Err::<
            Commit,
            AppError,
        >(AppError::CommitAlreadyExists),
        !s.repositories.contains_key(repo.id@) ==> created(s.create_repository(repo).1, repo) == Ok::<
            Repository,
            AppError,
        >(repo),
{
}

/// A request is accepted exactly when each of its fields holds something
/// other than white space (and, for a user, the email holds an `@`); a
/// field of nothing but white space is refused as empty, whatever its length.
pub proof fn law_requests_refuse_blank_fields(
    u: CreateUserRequest,
    r: CreateRepositoryRequest,
    c: CreateCommitRequest,
)
    ensures
        user_request_problem(u) is None <==> (!is_blank_text(u.id@) && !is_blank_text(u.username@)
            && !is_blank_text(u.email@) && u.email@.contains('@')),
        is_blank_text(u.id@) ==> user_request_problem(u) == Some(blank_field_message("id"@)),
        !is_blank_text(u.id@) && !is_blank_text(u.username@) && !is_blank_text(u.email@)
            && !u.email@.contains('@') ==> user_request_problem(u) == Some(email_message()),
        repository_request_problem(r) is None <==> (!is_blank_text(r.id@) && !is_blank_text(r.name@)),
        is_blank_text(r.id@) ==> repository_request_problem(r) == Some(blank_field_message("id"@)),
        commit_request_problem(c) is None <==> (!is_blank_text(c.id@) && !is_blank_text(c.message@)),
        is_blank_text(c.id@) ==> commit_request_problem(c) == Some(blank_field_message("id"@)),
        !is_blank_text(c.id@) && is_blank_text(c.message@) ==> commit_request_problem(c) == Some(
            blank_field_message("message"@),
        ),
{
}

/// A page of repositories asked for with a limit holds at most that many,
/// and holds fewer only when nothing more is there to give; with no limit
/// asked, at most ten. A commit page is never asked for more than a hundred.
pub proof fn law_repository_page_keeps_requested_limit(
    s: GraphState,
    user_id: Seq<char>,
    requested: Option<u32>,
    cursor: Option<Seq<char>>,
    p: Seq<Repository>,
)
    requires
        is_repository_page(s, user_id, repositories_page_size(requested) as nat, cursor, p),
    ensures
        requested matches Some(k) ==> p.len() <= k,
        requested matches Some(k) && p.len() < k ==> forall|r: Seq<char>|
            #[trigger] wanted_repository(s, user_id, cursor, r) ==> exists|i: int|
                0 <= i < p.len() && p[i].id@ == r,
        requested is None ==> p.len() <= 10,
        commits_page_size(requested) <= 100,
        match requested {
            Some(k) => k <= 100 ==> commits_page_size(requested) == k,
            None => commits_page_size(requested) == 10,
        },
{
}

/// There is only one page of repositories for a user, a limit and a
/// cursor: the answer of `get_repositories_by_user` is determined by the graph.
pub proof fn law_repository_page_unique(
    s: GraphState,
    user_id: Seq<char>,
    limit: nat,
    cursor: Option<Seq<char>>,
    p: Seq<Repository>,
    q: Seq<Repository>,
)
    requires
        is_repository_page(s, user_id, limit, cursor, p),
        is_repository_page(s, user_id, limit, cursor, q),
    ensures
        p == q,
{
    lemma_pages_agree(s, user_id, limit, cursor, p, q);
    lemma_pages_agree(s, user_id, limit, cursor, q, p);
    assert(p.len() == q.len());
    assert forall|i: int| 0 <= i < p.len() implies p[i] == q[i] by {
        assert(p[i].id@ == q[i].id@);
    }
    assert(p =~= q);
}

/// Paging by cursor loses and repeats nothing: a full page followed by the
/// page that starts after its last repository is the page of both sizes
/// together.
pub proof fn law_next_page_continues(
    s: GraphState,
    user_id: Seq<char>,
    limit: nat,
    next_limit: nat,
    cursor: Option<Seq<char>>,
    p: Seq<Repository>,
    q: Seq<Repository>,
)
    requires
        is_repository_page(s, user_id, limit, cursor, p),
        p.len() == limit,
        limit > 0,
        is_repository_page(s, user_id, next_limit, Some(p[p.len() - 1].id@), q),
    ensures
        is_repository_page(s, user_id, limit + next_limit, cursor, p + q),
{
    let last = p[p.len() - 1].id@;
    let pq = p + q;
    assert forall|i: int, j: int| 0 <= i < j < pq.len() implies text_lt(pq[i].id@, pq[j].id@) by {
        if j < p.len() {
        } else if i >= p.len() {
            assert(pq[i] == q[i - p.len()] && pq[j] == q[j - p.len()]);
        } else {
            assert(pq[j] == q[j - p.len()]);
            assert(text_lt(last, q[j - p.len()].id@));
            if i < p.len() - 1 {
                assert(text_lt(p[i].id@, last));
                lemma_text_lt_transitive(p[i].id@, last, q[j - p.len()].id@);
            }
        }
    }
    assert forall|i: int| 0 <= i < pq.len() implies {
        &&& wanted_repository(s, user_id, cursor, #[trigger] pq[i].id@)
        &&& s.repositories.contains_key(pq[i].id@)
        &&& pq[i] == s.repositories[pq[i].id@]
    } by {
        if i >= p.len() {
            let k: int = i - p.len();
            assert(pq[i] == q[k]);
            assert(wanted_repository(s, user_id, Some(last), q[k].id@));
            assert(wanted_repository(s, user_id, cursor, last));
            if let Some(c) = cursor {
                lemma_text_lt_transitive(c, last, q[k].id@);
            }
        }
    }
    assert forall|r: Seq<char>|
        #[trigger] wanted_repository(s, user_id, cursor, r) && !(exists|i: int|
            0 <= i < pq.len() && #[trigger] pq[i].id@ == r) implies {
        &&& pq.len() == limit + next_limit
        &&& limit + next_limit > 0 ==> text_lt(pq[pq.len() - 1].id@, r)
    } by {
        if exists|i: int| 0 <= i < p.len() && #[trigger] p[i].id@ == r {
            let i = choose|i: int| 0 <= i < p.len() && #[trigger] p[i].id@ == r;
            assert(pq[i] == p[i]);
        }
        assert(text_lt(last, r));
        assert(wanted_repository(s, user_id, Some(last), r));
        if exists|k: int| 0 <= k < q.len() && #[trigger] q[k].id@ == r {
            let k = choose|k: int| 0 <= k < q.len() && #[trigger] q[k].id@ == r;
            assert(pq[k + p.len()] == q[k]);
        }
        if next_limit == 0 {
            assert(pq[pq.len() - 1] == p[p.len() - 1]);
        } else {
            assert(pq[pq.len() - 1] == q[q.len() - 1]);
        }
    }
}

/// Two answers to a commit listing hold the same commits; they can differ
/// only in order.
pub proof fn law_commit_listing_same_commits(
    commits: Map<Seq<char>, Commit>,
    ids: Set<Seq<char>>,
    a: Seq<Commit>,
    b: Seq<Commit>,
)
    requires
        lists_commits(commits, ids, a),
        lists_commits(commits, ids, b),
    ensures
        forall|c: Commit| a.contains(c) <==> b.contains(c),
{
    assert forall|c: Commit| a.contains(c) implies b.contains(c) by {
        let i = choose|i: int| 0 <= i < a.len() && a[i] == c;
        assert(ids.contains(a[i].id@));
        let j = choose|j: int| 0 <= j < b.len() && b[j].id@ == a[i].id@;
        assert(ids.contains(b[j].id@));
        assert(b[j] == c);
    }
    assert forall|c: Commit| b.contains(c) implies a.contains(c) by {
        let i = choose|i: int| 0 <= i < b.len() && b[i] == c;
        assert(ids.contains(b[i].id@));
        let j = choose|j: int| 0 <= j < a.len() && a[j].id@ == b[i].id@;
        assert(ids.contains(a[j].id@));
        assert(a[j] == c);
    }
}

/// A store in memory answers a commit listing the same way each time it is
/// asked, whatever page size and cursor come with it.
pub proof fn law_commit_listing_repeatable(
    s: InMemoryGraphRepository,
    id: Seq<char>,
    limit: u32,
    cursor: Option<Seq<char>>,
    other_limit: u32,
    other_cursor: Option<Seq<char>>,
    r: Result<Vec<Commit>, AppError>,
    q: Result<Vec<Commit>, AppError>,
)
    ensures
        s.repository_commits_answer(id, limit, cursor, r) && s.repository_commits_answer(
            id,
            other_limit,
            other_cursor,
            q,
        ) ==> same_listing(r, q),
        s.user_commits_answer(id, limit, cursor, r) && s.user_commits_answer(
            id,
            other_limit,
            other_cursor,
            q,
        ) ==> same_listing(r, q),
{
}

/// Two answers to a listing are the same: the same commits in the same
/// order, or the same error.
pub open spec fn same_listing(r: Result<Vec<Commit>, AppError>, q: Result<Vec<Commit>, AppError>) -> bool {
    match (r, q) {
        (Ok(a), Ok(b)) => a@ == b@,
        (Err(x), Err(y)) => x == y,
        _ => false,
    }
}

/// If two pages agree before position `i`, they agree at `i`.
proof fn lemma_page_position(
    s: GraphState,
    user_id: Seq<char>,
    limit: nat,
    cursor: Option<Seq<char>>,
    p: Seq<Repository>,
    q: Seq<Repository>,
    i: int,
)
    requires
        is_repository_page(s, user_id, limit, cursor, p),
        is_repository_page(s, user_id, limit, cursor, q),
        0 <= i < p.len(),
        i < q.len(),
        forall|j: int| 0 <= j < i ==> #[trigger] p[j].id@ == q[j].id@,
    ensures
        p[i].id@ == q[i].id@,
{
    let a = p[i].id@;
    let b = q[i].id@;
    if a != b {
        lemma_text_lt_total(a, b);
        if text_lt(a, b) {
            lemma_page_no_smaller_at(s, user_id, limit, cursor, p, q, i);
        } else {
            assert forall|j: int| 0 <= j < i implies #[trigger] q[j].id@ == p[j].id@ by {
                assert(p[j].id@ == q[j].id@);
            }
            lemma_page_no_smaller_at(s, user_id, limit, cursor, q, p, i);
        }
    }
}

/// Where two pages agree before `i`, the first cannot be the smaller at `i`.
proof fn lemma_page_no_smaller_at(
    s: GraphState,
    user_id: Seq<char>,
    limit: nat,
    cursor: Option<Seq<char>>,
    p: Seq<Repository>,
    q: Seq<Repository>,
    i: int,
)
    requires
        is_repository_page(s, user_id, limit, cursor, p),
        is_repository_page(s, user_id, limit, cursor, q),
        0 <= i < p.len(),
        i < q.len(),
        forall|j: int| 0 <= j < i ==> #[trigger] p[j].id@ == q[j].id@,
    ensures
        !text_lt(p[i].id@, q[i].id@),
{
    let a = p[i].id@;
    let b = q[i].id@;
    if text_lt(a, b) {
        assert(wanted_repository(s, user_id, cursor, a));
        if exists|j: int| 0 <= j < q.len() && #[trigger] q[j].id@ == a {
            let j = choose|j: int| 0 <= j < q.len() && #[trigger] q[j].id@ == a;
            if j < i {
                assert(p[j].id@ == q[j].id@);
                assert(text_lt(p[j].id@, p[i].id@));
                lemma_text_lt_irreflexive(a);
            } else if j == i {
                lemma_text_lt_irreflexive(a);
            } else {
                assert(text_lt(q[i].id@, q[j].id@));
                lemma_text_lt_asymmetric(a, b);
            }
        } else {
            let last: int = q.len() - 1;
            assert(text_lt(q[last].id@, a));
            if last == i {
                lemma_text_lt_asymmetric(a, b);
            } else {
                assert(text_lt(q[i].id@, q[last].id@));
                lemma_text_lt_transitive(b, q[last].id@, a);
                lemma_text_lt_asymmetric(a, b);
            }
        }
    }
}

/// Two pages agree on their first `n` positions.
proof fn lemma_pages_prefix(
    s: GraphState,
    user_id: Seq<char>,
    limit: nat,
    cursor: Option<Seq<char>>,
    p: Seq<Repository>,
    q: Seq<Repository>,
    n: int,
)
    requires
        is_repository_page(s, user_id, limit, cursor, p),
        is_repository_page(s, user_id, limit, cursor, q),
        0 <= n,
    ensures
        forall|j: int| 0 <= j < n && j < p.len() && j < q.len() ==> #[trigger] p[j].id@ == q[j].id@,
    decreases n,
{
    if n > 0 {
        lemma_pages_prefix(s, user_id, limit, cursor, p, q, n - 1);
        if n - 1 < p.len() && n - 1 < q.len() {
            lemma_page_position(s, user_id, limit, cursor, p, q, n - 1);
        }
    }
}

/// Two pages agree on every position they share, and `q` is no shorter than `p`.
proof fn lemma_pages_agree(
    s: GraphState,
    user_id: Seq<char>,
    limit: nat,
    cursor: Option<Seq<char>>,
    p: Seq<Repository>,
    q: Seq<Repository>,
)
    requires
        is_repository_page(s, user_id, limit, cursor, p),
        is_repository_page(s, user_id, limit, cursor, q),
    ensures
        forall|i: int| 0 <= i < p.len() && i < q.len() ==> #[trigger] p[i].id@ == q[i].id@,
        p.len() <= q.len(),
{
    lemma_pages_prefix(s, user_id, limit, cursor, p, q, p.len() as int);
    if p.len() > q.len() {
        let k: int = q.len() as int;
        let a = p[k].id@;
        assert(wanted_repository(s, user_id, cursor, a));
        if exists|j: int| 0 <= j < q.len() && #[trigger] q[j].id@ == a {
            let j = choose|j: int| 0 <= j < q.len() && #[trigger] q[j].id@ == a;
            assert(p[j].id@ == q[j].id@);
            assert(text_lt(p[j].id@, p[k].id@));
            lemma_text_lt_irreflexive(a);
        }
    }
}

} // verus!
