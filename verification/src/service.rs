use vstd::prelude::*;
use crate::domain::{User, Repository, Commit};
use crate::error::AppError;
use crate::model::{
    GraphState, repository_commits_within, user_commits_within, repositories_by_user_answer,
    cursor_view,
};
use crate::repository::GraphRepository;

verus! {

/// The application service in front of a graph store: it hands each
/// request to the store and gives back what was created.
pub struct GraphService<R: GraphRepository> {
    repo: R,
}

/// What a creating call of the service answers, given what the store answered.
pub open spec fn created<T>(r: Result<(), AppError>, value: T) -> Result<T, AppError> {
    match r {
        Ok(()) => Ok(value),
        Err(e) => Err(e),
    }
}

impl<R: GraphRepository> GraphService<R> {
    /// The store that the service hands each request to.
    pub closed spec fn store(&self) -> R {
        self.repo
    }

    /// The graph behind the service: that of its store.
    pub open spec fn state(&self) -> GraphState {
        self.store().state()
    }

    pub open spec fn valid(&self) -> bool {
        self.store().valid()
    }

    /// A service in front of the given store.
    pub fn new(repo: R) -> (s: Self)
        ensures
            s.store() == repo,
    {
        GraphService { repo }
    }

    /// Asks the store whether it is reachable, and answers as it does.
    pub fn db_health(&self) -> (r: Result<(), AppError>)
        requires
            self.valid(),
        ensures
            self.store().health_answer(r),
    {
        self.repo.db_health()
    }

    pub fn create_user(&mut self, user: User) -> (r: Result<User, AppError>)
        requires
            old(self).valid(),
        ensures
            final(self).valid(),
            final(self).state() == old(self).state().create_user(user).0,
            r == created(old(self).state().create_user(user).1, user),
    {
        let copy = user.clone();
        match self.repo.create_user(copy) {
            Ok(()) => Ok(user),
            Err(e) => Err(e),
        }
    }

    pub fn get_user(&self, id: &str) -> (r: Result<User, AppError>)
        requires
            self.valid(),
        ensures
            r == self.state().get_user(id@),
    {
        self.repo.get_user(id)
    }

    pub fn create_repository(&mut self, repo: Repository) -> (r: Result<Repository, AppError>)
        requires
            old(self).valid(),
        ensures
            final(self).valid(),
            final(self).state() == old(self).state().create_repository(repo).0,
            r == created(old(self).state().create_repository(repo).1, repo),
    {
        let copy = repo.clone();
        match self.repo.create_repository(copy) {
            Ok(()) => Ok(repo),
            Err(e) => Err(e),
        }
    }

    pub fn get_repository(&self, id: &str) -> (r: Result<Repository, AppError>)
        requires
            self.valid(),
        ensures
            r == self.state().get_repository(id@),
    {
        self.repo.get_repository(id)
    }

    pub fn create_commit(&mut self, commit: Commit) -> (r: Result<Commit, AppError>)
        requires
            old(self).valid(),
        ensures
            final(self).valid(),
            final(self).state() == old(self).state().create_commit(commit).0,
            r == created(old(self).state().create_commit(commit).1, commit),
    {
        let copy = commit.clone();
        match self.repo.create_commit(copy) {
            Ok(()) => Ok(commit),
            Err(e) => Err(e),
        }
    }

    pub fn get_commit(&self, id: &str) -> (r: Result<Commit, AppError>)
        requires
            self.valid(),
        ensures
            r == self.state().get_commit(id@),
    {
        self.repo.get_commit(id)
    }

    pub fn link_commit_to_user(&mut self, commit_id: &str, user_id: &str) -> (r: Result<(), AppError>)
        requires
            old(self).valid(),
        ensures
            final(self).valid(),
            (final(self).state(), r) == old(self).state().link_commit_to_user(commit_id@, user_id@),
    {
        self.repo.link_commit_to_user(commit_id, user_id)
    }

    pub fn link_commit_to_repository(&mut self, commit_id: &str, repo_id: &str) -> (r: Result<
        (),
        AppError,
    >)
        requires
            old(self).valid(),
        ensures
            final(self).valid(),
            (final(self).state(), r) == old(self).state().link_commit_to_repository(
                commit_id@,
                repo_id@,
            ),
    {
        self.repo.link_commit_to_repository(commit_id, repo_id)
    }

    pub fn get_commits_by_user(&self, user_id: &str, limit: u32, cursor: Option<String>) -> (r:
        Result<Vec<Commit>, AppError>)
        requires
            self.valid(),
        ensures
            user_commits_within(self.state(), user_id@, r),
            self.store().user_commits_answer(user_id@, limit, cursor_view(cursor), r),
    {
        self.repo.get_commits_by_user(user_id, limit, cursor)
    }

    pub fn get_commits_by_repository(&self, repo_id: &str, limit: u32, cursor: Option<String>) -> (r:
        Result<Vec<Commit>, AppError>)
        requires
            self.valid(),
        ensures
            repository_commits_within(self.state(), repo_id@, r),
            self.store().repository_commits_answer(repo_id@, limit, cursor_view(cursor), r),
    {
        self.repo.get_commits_by_repository(repo_id, limit, cursor)
    }

    pub fn get_repositories_by_user(&self, user_id: &str, limit: u32, cursor: Option<String>) -> (r:
        Result<Vec<Repository>, AppError>)
        requires
            self.valid(),
        ensures
            repositories_by_user_answer(
                self.state(),
                user_id@,
                limit as nat,
                cursor_view(cursor),
                r,
            ),
    {
        self.repo.get_repositories_by_user(user_id, limit, cursor)
    }
}

} // verus!
