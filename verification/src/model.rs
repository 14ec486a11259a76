use vstd::prelude::*;
use crate::domain::{User, Repository, Commit};
use crate::error::AppError;
use crate::text::text_lt;

verus! {

/// The abstract content of a commit graph: the three kinds of entities,
/// each keyed by its id, and the two relations that place a commit in a
/// repository and attribute it to a user.
pub struct GraphState {
    pub users: Map<Seq<char>, User>,
    pub repositories: Map<Seq<char>, Repository>,
    pub commits: Map<Seq<char>, Commit>,
    /// commit id to repository id
    pub commit_repo: Map<Seq<char>, Seq<char>>,
    /// commit id to user id
    pub commit_user: Map<Seq<char>, Seq<char>>,
}

impl GraphState {
    pub open spec fn empty() -> GraphState {
        GraphState {
            users: Map::empty(),
            repositories: Map::empty(),
            commits: Map::empty(),
            commit_repo: Map::empty(),
            commit_user: Map::empty(),
        }
    }

    /// Every entity is stored under its own id, and every link joins a
    /// stored commit to a stored repository or user.
    pub open spec fn well_formed(self) -> bool {
        &&& forall|k: Seq<char>| #[trigger] self.users.contains_key(k) ==> self.users[k].id@ == k
        &&& forall|k: Seq<char>| #[trigger] self.repositories.contains_key(k)
            ==> self.repositories[k].id@ == k
        &&& forall|k: Seq<char>| #[trigger] self.commits.contains_key(k) ==> self.commits[k].id@ == k
        &&& forall|c: Seq<char>| #[trigger] self.commit_repo.contains_key(c) ==> {
            &&& self.commits.contains_key(c)
            &&& self.repositories.contains_key(self.commit_repo[c])
        }
        &&& forall|c: Seq<char>| #[trigger] self.commit_user.contains_key(c) ==> {
            &&& self.commits.contains_key(c)
            &&& self.users.contains_key(self.commit_user[c])
        }
    }

    pub open spec fn create_user(self, user: User) -> (GraphState, Result<(), AppError>) {
        if self.users.contains_key(user.id@) {
            (self, Err(AppError::UserAlreadyExists))
        } else {
            (GraphState { users: self.users.insert(user.id@, user), ..self }, Ok(()))
        }
    }

    pub open spec fn create_repository(self, repo: Repository) -> (GraphState, Result<(), AppError>) {
        if self.repositories.contains_key(repo.id@) {
            (self, Err(AppError::RepositoryAlreadyExists))
        } else {
            (GraphState { repositories: self.repositories.insert(repo.id@, repo), ..self }, Ok(()))
        }
    }

    pub open spec fn create_commit(self, commit: Commit) -> (GraphState, Result<(), AppError>) {
        if self.commits.contains_key(commit.id@) {
            (self, Err(AppError::CommitAlreadyExists))
        } else {
            (GraphState { commits: self.commits.insert(commit.id@, commit), ..self }, Ok(()))
        }
    }

    pub open spec fn get_user(self, id: Seq<char>) -> Result<User, AppError> {
        if self.users.contains_key(id) {
            Ok(self.users[id])
        } else {
            Err(AppError::UserNotFound)
        }
    }

    pub open spec fn get_repository(self, id: Seq<char>) -> Result<Repository, AppError> {
        if self.repositories.contains_key(id) {
            Ok(self.repositories[id])
        } else {
            Err(AppError::RepositoryNotFound)
        }
    }

    pub open spec fn get_commit(self, id: Seq<char>) -> Result<Commit, AppError> {
        if self.commits.contains_key(id) {
            Ok(self.commits[id])
        } else {
            Err(AppError::CommitNotFound)
        }
    }

    /// Places a commit in a repository; a commit that was placed before
    /// moves to the new one.
    pub open spec fn link_commit_to_repository(self, commit_id: Seq<char>, repo_id: Seq<char>) -> (
        GraphState,
        Result<(), AppError>,
    ) {
        if !self.commits.contains_key(commit_id) {
            (self, Err(AppError::CommitNotFound))
        } else if !self.repositories.contains_key(repo_id) {
            (self, Err(AppError::RepositoryNotFound))
        } else {
            (GraphState { commit_repo: self.commit_repo.insert(commit_id, repo_id), ..self }, Ok(()))
        }
    }

    /// Attributes a commit to a user; a commit that was attributed before
    /// moves to the new one.
    pub open spec fn link_commit_to_user(self, commit_id: Seq<char>, user_id: Seq<char>) -> (
        GraphState,
        Result<(), AppError>,
    ) {
        if !self.commits.contains_key(commit_id) {
            (self, Err(AppError::CommitNotFound))
        } else if !self.users.contains_key(user_id) {
            (self, Err(AppError::UserNotFound))
        } else {
            (GraphState { commit_user: self.commit_user.insert(commit_id, user_id), ..self }, Ok(()))
        }
    }

    /// The ids of the commits placed in a repository.
    pub open spec fn commits_in_repository(self, repo_id: Seq<char>) -> Set<Seq<char>> {
        Set::new(
            |c: Seq<char>|
                self.commit_repo.contains_key(c) && self.commit_repo[c] == repo_id
                    && self.commits.contains_key(c),
        )
    }

    /// The ids of the commits attributed to a user.
    pub open spec fn commits_of_user(self, user_id: Seq<char>) -> Set<Seq<char>> {
        Set::new(
            |c: Seq<char>|
                self.commit_user.contains_key(c) && self.commit_user[c] == user_id
                    && self.commits.contains_key(c),
        )
    }

    /// The ids of the repositories that hold a commit of the user.
    pub open spec fn repositories_of_user(self, user_id: Seq<char>) -> Set<Seq<char>> {
        Set::new(
            |r: Seq<char>|
                exists|c: Seq<char>|
                    #![trigger self.commit_user[c], self.commit_repo[c]]
                    self.commit_user.contains_key(c) && self.commit_user[c] == user_id
                        && self.commit_repo.contains_key(c) && self.commit_repo[c] == r
                        && self.repositories.contains_key(r),
        )
    }
}

/// `list` lists exactly the commits whose ids are in `ids`, each once, in
/// some order.
pub open spec fn lists_commits(
    commits: Map<Seq<char>, Commit>,
    ids: Set<Seq<char>>,
    list: Seq<Commit>,
) -> bool {
    &&& forall|i: int, j: int| 0 <= i < j < list.len() ==> list[i].id@ != list[j].id@
    &&& forall|i: int|
        0 <= i < list.len() ==> {
            &&& ids.contains(#[trigger] list[i].id@)
            &&& commits.contains_key(list[i].id@)
            &&& list[i] == commits[list[i].id@]
        }
    &&& forall|c: Seq<char>| #[trigger] ids.contains(c) ==> exists|i: int| 0 <= i < list.len() && list[i].id@ == c
}

/// `list` lists commits whose ids are in `ids`, each at most once: what a
/// page of a listing holds, whatever its size.
pub open spec fn lists_some_commits(
    commits: Map<Seq<char>, Commit>,
    ids: Set<Seq<char>>,
    list: Seq<Commit>,
) -> bool {
    &&& forall|i: int, j: int| 0 <= i < j < list.len() ==> list[i].id@ != list[j].id@
    &&& forall|i: int|
        0 <= i < list.len() ==> {
            &&& ids.contains(#[trigger] list[i].id@)
            &&& commits.contains_key(list[i].id@)
            &&& list[i] == commits[list[i].id@]
        }
}

/// What any store may answer to a listing of a repository's commits: not
/// found for a missing repository, else commits of that repository, each once.
pub open spec fn repository_commits_within(
    s: GraphState,
    repo_id: Seq<char>,
    r: Result<Vec<Commit>, AppError>,
) -> bool {
    if !s.repositories.contains_key(repo_id) {
        r matches Err(AppError::RepositoryNotFound)
    } else {
        r matches Ok(list) && lists_some_commits(s.commits, s.commits_in_repository(repo_id), list@)
    }
}

/// What any store may answer to a listing of a user's commits.
pub open spec fn user_commits_within(
    s: GraphState,
    user_id: Seq<char>,
    r: Result<Vec<Commit>, AppError>,
) -> bool {
    if !s.users.contains_key(user_id) {
        r matches Err(AppError::UserNotFound)
    } else {
        r matches Ok(list) && lists_some_commits(s.commits, s.commits_of_user(user_id), list@)
    }
}

/// What `get_commits_by_repository` may answer.
pub open spec fn commits_by_repository_answer(
    s: GraphState,
    repo_id: Seq<char>,
    r: Result<Vec<Commit>, AppError>,
) -> bool {
    if !s.repositories.contains_key(repo_id) {
        r matches Err(AppError::RepositoryNotFound)
    } else {
        r matches Ok(list) && lists_commits(s.commits, s.commits_in_repository(repo_id), list@)
    }
}

/// What `get_commits_by_user` may answer.
pub open spec fn commits_by_user_answer(
    s: GraphState,
    user_id: Seq<char>,
    r: Result<Vec<Commit>, AppError>,
) -> bool {
    if !s.users.contains_key(user_id) {
        r matches Err(AppError::UserNotFound)
    } else {
        r matches Ok(list) && lists_commits(s.commits, s.commits_of_user(user_id), list@)
    }
}

/// The view of an optional cursor.
pub open spec fn cursor_view(cursor: Option<String>) -> Option<Seq<char>> {
    match cursor {
        Some(c) => Some(c@),
        None => None,
    }
}

/// A repository id is past the cursor when there is no cursor or it comes
/// after the cursor.
pub open spec fn past_cursor(cursor: Option<Seq<char>>, id: Seq<char>) -> bool {
    match cursor {
        None => true,
        Some(c) => text_lt(c, id),
    }
}

/// A repository that a page for the user and cursor should offer.
pub open spec fn wanted_repository(
    s: GraphState,
    user_id: Seq<char>,
    cursor: Option<Seq<char>>,
    r: Seq<char>,
) -> bool {
    s.repositories_of_user(user_id).contains(r) && past_cursor(cursor, r)
}

/// `page` is the page of repositories that `get_repositories_by_user`
/// gives: those of the user past the cursor, ordered by id, at most
/// `limit` of them, and none skipped.
pub open spec fn is_repository_page(
    s: GraphState,
    user_id: Seq<char>,
    limit: nat,
    cursor: Option<Seq<char>>,
    page: Seq<Repository>,
) -> bool {
    &&& page.len() <= limit
    &&& forall|i: int, j: int| 0 <= i < j < page.len() ==> text_lt(page[i].id@, page[j].id@)
    &&& forall|i: int|
        0 <= i < page.len() ==> {
            &&& wanted_repository(s, user_id, cursor, #[trigger] page[i].id@)
            &&& s.repositories.contains_key(page[i].id@)
            &&& page[i] == s.repositories[page[i].id@]
        }
    &&& forall|r: Seq<char>|
        #[trigger] wanted_repository(s, user_id, cursor, r) && !(exists|i: int|
            0 <= i < page.len() && #[trigger] page[i].id@ == r) ==> {
            &&& page.len() == limit
            &&& limit > 0 ==> text_lt(page[page.len() - 1].id@, r)
        }
}

/// What `get_repositories_by_user` answers.
pub open spec fn repositories_by_user_answer(
    s: GraphState,
    user_id: Seq<char>,
    limit: nat,
    cursor: Option<Seq<char>>,
    r: Result<Vec<Repository>, AppError>,
) -> bool {
    if !s.users.contains_key(user_id) {
        r matches Err(AppError::UserNotFound)
    } else {
        r matches Ok(page) && is_repository_page(s, user_id, limit, cursor, page@)
    }
}

} // verus!
