use vstd::prelude::*;
use crate::domain::{User, Repository, Commit};
use crate::error::AppError;
use crate::model::{
    GraphState, repository_commits_within, user_commits_within, repositories_by_user_answer, cursor_view,
};

verus! {

/// A store for the commit graph. What it holds is described by `state`,
/// and each operation is stated over that abstract state.
pub trait GraphRepository {
    /// The graph that the store holds.
    spec fn state(&self) -> GraphState;

    /// The store's own invariant; it implies that the graph is well formed.
    spec fn valid(&self) -> bool;

    /// A valid store holds a well-formed graph.
    proof fn lemma_valid_well_formed(&self)
        requires
            self.valid(),
        ensures
            self.state().well_formed(),
    ;

    /// The answers that this store gives to a listing of a repository's
    /// commits, for the page size and cursor that were asked for.
    spec fn repository_commits_answer(
        &self,
        repo_id: Seq<char>,
        limit: u32,
        cursor: Option<Seq<char>>,
        r: Result<Vec<Commit>, AppError>,
    ) -> bool;

    /// The answers that this store gives to a listing of a user's commits,
    /// for the page size and cursor that were asked for.
    spec fn user_commits_answer(
        &self,
        user_id: Seq<char>,
        limit: u32,
        cursor: Option<Seq<char>>,
        r: Result<Vec<Commit>, AppError>,
    ) -> bool;

    /// The answers that the store's health check may give.
    spec fn health_answer(&self, r: Result<(), AppError>) -> bool;

    fn db_health(&self) -> (r: Result<(), AppError>)
        requires
            self.valid(),
        ensures
            self.health_answer(r),
    ;

    fn create_user(&mut self, user: User) -> (r: Result<(), AppError>)
        requires
            old(self).valid(),
        ensures
            final(self).valid(),
            (final(self).state(), r) == old(self).state().create_user(user),
    ;

    fn get_user(&self, id: &str) -> (r: Result<User, AppError>)
        requires
            self.valid(),
        ensures
            r == self.state().get_user(id@),
    ;

    fn create_repository(&mut self, repo: Repository) -> (r: Result<(), AppError>)
        requires
            old(self).valid(),
        ensures
            final(self).valid(),
            (final(self).state(), r) == old(self).state().create_repository(repo),
    ;

    fn get_repository(&self, id: &str) -> (r: Result<Repository, AppError>)
        requires
            self.valid(),
        ensures
            r == self.state().get_repository(id@),
    ;

    fn create_commit(&mut self, commit: Commit) -> (r: Result<(), AppError>)
        requires
            old(self).valid(),
        ensures
            final(self).valid(),
            (final(self).state(), r) == old(self).state().create_commit(commit),
    ;

    fn get_commit(&self, id: &str) -> (r: Result<Commit, AppError>)
        requires
            self.valid(),
        ensures
            r == self.state().get_commit(id@),
    ;

    fn link_commit_to_repository(&mut self, commit_id: &str, repo_id: &str) -> (r: Result<(), AppError>)
        requires
            old(self).valid(),
        ensures
            final(self).valid(),
            (final(self).state(), r) == old(self).state().link_commit_to_repository(commit_id@, repo_id@),
    ;

    fn link_commit_to_user(&mut self, commit_id: &str, user_id: &str) -> (r: Result<(), AppError>)
        requires
            old(self).valid(),
        ensures
            final(self).valid(),
            (final(self).state(), r) == old(self).state().link_commit_to_user(commit_id@, user_id@),
    ;

    fn get_commits_by_repository(&self, repo_id: &str, limit: u32, cursor: Option<String>) -> (r: Result<
        Vec<Commit>,
        AppError,
    >)
        requires
            self.valid(),
        ensures
            repository_commits_within(self.state(), repo_id@, r),
            self.repository_commits_answer(repo_id@, limit, cursor_view(cursor), r),
    ;

    fn get_commits_by_user(&self, user_id: &str, limit: u32, cursor: Option<String>) -> (r: Result<
        Vec<Commit>,
        AppError,
    >)
        requires
            self.valid(),
        ensures
            user_commits_within(self.state(), user_id@, r),
            self.user_commits_answer(user_id@, limit, cursor_view(cursor), r),
    ;

    fn get_repositories_by_user(&self, user_id: &str, limit: u32, cursor: Option<String>) -> (r:
        Result<Vec<Repository>, AppError>)
        requires
            self.valid(),
        ensures
            repositories_by_user_answer(
                self.state(),
                user_id@,
                limit as nat,
                cursor_view(cursor),
                r,
            ),
    ;
}

} // verus!
