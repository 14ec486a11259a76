use vstd::prelude::*;
use crate::domain::{User, Repository, Commit};
use crate::error::AppError;
use crate::model::{
    GraphState, lists_commits, commits_by_repository_answer, commits_by_user_answer, is_repository_page, wanted_repository, past_cursor, cursor_view,
};
use crate::repository::GraphRepository;
use crate::table::{Table, lemma_table_entry, lemma_table_key, key_index};
use crate::text::{text_lt, text_less};
use crate::sorted::{strictly_sorted, text_set, insert_sorted};

verus! {

/// The ids whose link in `links` points at `target` and that name a stored commit.
pub open spec fn linked_to(
    links: Map<Seq<char>, String>,
    commits: Map<Seq<char>, Commit>,
    target: Seq<char>,
) -> Set<Seq<char>> {
    Set::new(
        |c: Seq<char>|
            links.contains_key(c) && links[c]@ == target && commits.contains_key(c),
    )
}

/// The views of the values of a link table.
pub open spec fn link_view(links: Map<Seq<char>, String>) -> Map<Seq<char>, Seq<char>> {
    links.map_values(|s: String| s@)
}

/// The stored commits whose link among the entries `e` points at `target`,
/// in the order of the entries.
pub open spec fn linked_seq(
    e: Seq<(String, String)>,
    commits: Map<Seq<char>, Commit>,
    target: Seq<char>,
) -> Seq<Commit>
    decreases e.len(),
{
    if e.len() == 0 {
        Seq::empty()
    } else {
        let before = linked_seq(e.drop_last(), commits, target);
        let last = e.last();
        if last.1@ == target && commits.contains_key(last.0@) {
            before.push(commits[last.0@])
        } else {
            before
        }
    }
}

/// The commits whose link in `links` points at `target`, in link order.
fn collect_linked(links: &Table<String>, commits: &Table<Commit>, target: &String) -> (out: Vec<
    Commit,
>)
    requires
        links.wf(),
        commits.wf(),
        forall|k: Seq<char>| #[trigger] commits.map().contains_key(k) ==> commits.map()[k].id@ == k,
    ensures
        lists_commits(commits.map(), linked_to(links.map(), commits.map(), target@), out@),
        out@ == linked_seq(links.entries@, commits.map(), target@),
{
    let ghost e = links.entries@;
    let ghost ids = linked_to(links.map(), commits.map(), target@);
    let mut out: Vec<Commit> = Vec::new();
    let ghost mut src: Seq<int> = Seq::empty();
    let n: usize = links.entries.len();
    let mut i: usize = 0;
    while i < n
        invariant
            links.wf(),
            commits.wf(),
            forall|k: Seq<char>| #[trigger] commits.map().contains_key(k) ==> commits.map()[k].id@ == k,
            e == links.entries@,
            n == e.len(),
            i <= n,
            out@.len() == src.len(),
            out@ == linked_seq(e.take(i as int), commits.map(), target@),
            forall|j: int|
                0 <= j < src.len() ==> {
                    &&& 0 <= #[trigger] src[j] < i
                    &&& e[src[j]].1@ == target@
                    &&& commits.map().contains_key(e[src[j]].0@)
                    &&& out@[j] == commits.map()[e[src[j]].0@]
                    &&& out@[j].id@ == e[src[j]].0@
                },
            forall|j: int, m: int| 0 <= j < m < src.len() ==> #[trigger] src[j] < #[trigger] src[m],
            forall|k: int|
                0 <= k < i && #[trigger] e[k].1@ == target@ && commits.map().contains_key(e[k].0@)
                    ==> exists|j: int| 0 <= j < src.len() && src[j] == k,
        decreases n - i,
    {
        let ghost src_before = src;
        proof {
            assert(e.take(i + 1).drop_last() =~= e.take(i as int));
            assert(e.take(i + 1).last() == e[i as int]);
        }
        if links.entries[i].1 == *target {
            match commits.get(&links.entries[i].0) {
                Some(c) => {
                    let copy = c.clone();
                    out.push(copy);
                    proof {
                        src = src.push(i as int);
                        assert(src[src.len() - 1] == i);
                    }
                },
                None => {},
            }
        }
        proof {
            assert forall|k: int|
                0 <= k < i + 1 && #[trigger] e[k].1@ == target@ && commits.map().contains_key(
                    e[k].0@,
                ) implies exists|j: int| 0 <= j < src.len() && src[j] == k by {
                if k < i {
                    let j = choose|j: int| 0 <= j < src_before.len() && src_before[j] == k;
                    assert(src[j] == k);
                } else {
                    assert(src[src.len() - 1] == k);
                }
            }
        }
        i = i + 1;
    }
    proof {
        assert(e.take(n as int) =~= e);
        assert forall|a: int, b: int| 0 <= a < b < out@.len() implies out@[a].id@ != out@[b].id@ by {
            assert(src[a] < src[b]);
        }
        assert forall|a: int| 0 <= a < out@.len() implies {
            &&& ids.contains(#[trigger] out@[a].id@)
            &&& commits.map().contains_key(out@[a].id@)
            &&& out@[a] == commits.map()[out@[a].id@]
        } by {
            lemma_table_entry(e, src[a]);
        }
        assert forall|c: Seq<char>| #[trigger] ids.contains(c) implies exists|j: int|
            0 <= j < out@.len() && out@[j].id@ == c by {
            lemma_table_key(e, c);
            let k = key_index(e, c);
            lemma_table_entry(e, k);
            assert(e[k].1@ == target@);
            let j = choose|j: int| 0 <= j < src.len() && src[j] == k;
            assert(out@[j].id@ == c);
        }
    }
    out
}

/// The commit graph held in memory.
pub struct InMemoryGraphRepository {
    users: Table<User>,
    repositories: Table<Repository>,
    commits: Table<Commit>,
    commit_to_repo: Table<String>,
    commit_to_user: Table<String>,
}

impl InMemoryGraphRepository {
    /// The graph that this store holds.
    pub closed spec fn graph(&self) -> GraphState {
        GraphState {
            users: self.users.map(),
            repositories: self.repositories.map(),
            commits: self.commits.map(),
            commit_repo: link_view(self.commit_to_repo.map()),
            commit_user: link_view(self.commit_to_user.map()),
        }
    }

    /// The commits of a repository in the order they were placed there.
    pub closed spec fn repository_listing(&self, repo_id: Seq<char>) -> Seq<Commit> {
        linked_seq(self.commit_to_repo.entries@, self.commits.map(), repo_id)
    }

    /// The commits of a user in the order they were attributed.
    pub closed spec fn user_listing(&self, user_id: Seq<char>) -> Seq<Commit> {
        linked_seq(self.commit_to_user.entries@, self.commits.map(), user_id)
    }

    pub closed spec fn inv(&self) -> bool {
        &&& self.users.wf()
        &&& self.repositories.wf()
        &&& self.commits.wf()
        &&& self.commit_to_repo.wf()
        &&& self.commit_to_user.wf()
        &&& self.graph().well_formed()
    }

    /// An empty store.
    pub fn new() -> (s: Self)
        ensures
            s.valid(),
            s.state() == GraphState::empty(),
    {
        let s = InMemoryGraphRepository {
            users: Table::new(),
            repositories: Table::new(),
            commits: Table::new(),
            commit_to_repo: Table::new(),
            commit_to_user: Table::new(),
        };
        assert(link_view(s.commit_to_repo.map()) =~= Map::empty());
        assert(link_view(s.commit_to_user.map()) =~= Map::empty());
        s
    }
}

impl InMemoryGraphRepository {
    proof fn lemma_commit_keys(&self)
        requires
            self.inv(),
        ensures
            forall|k: Seq<char>| #[trigger] self.commits.map().contains_key(k)
                ==> self.commits.map()[k].id@ == k,
    {
        assert forall|k: Seq<char>| #[trigger] self.commits.map().contains_key(k) implies self.commits.map()[k].id@ == k by {
            assert(self.graph().commits.contains_key(k));
        }
    }
}

/// The repository ids reached from the first `i` user links that point at `u`.
pub open spec fn repo_ids_upto(
    ue: Seq<(String, String)>,
    rl: Map<Seq<char>, String>,
    u: Seq<char>,
    i: int,
) -> Set<Seq<char>> {
    Set::new(
        |r: Seq<char>|
            exists|k: int|
                0 <= k < i && #[trigger] ue[k].1@ == u && rl.contains_key(ue[k].0@) && rl[ue[k].0@]@
                    == r,
    )
}

impl InMemoryGraphRepository {
    /// The ids of the repositories that hold a commit of the user, ordered.
    fn repository_ids_of_user(&self, key: &String) -> (ids: Vec<String>)
        requires
            self.inv(),
        ensures
            strictly_sorted(ids@),
            text_set(ids@) == self.graph().repositories_of_user(key@),
    {
        let ghost ue = self.commit_to_user.entries@;
        let ghost rl = self.commit_to_repo.map();
        let mut ids: Vec<String> = Vec::new();
        let n: usize = self.commit_to_user.entries.len();
        let mut i: usize = 0;
        proof {
            assert(text_set(ids@) =~= repo_ids_upto(ue, rl, key@, 0));
        }
        while i < n
            invariant
                self.inv(),
                ue == self.commit_to_user.entries@,
                rl == self.commit_to_repo.map(),
                n == ue.len(),
                i <= n,
                strictly_sorted(ids@),
                text_set(ids@) == repo_ids_upto(ue, rl, key@, i as int),
            decreases n - i,
        {
            let ghost before = ids@;
            if self.commit_to_user.entries[i].1 == *key {
                match self.commit_to_repo.get(&self.commit_to_user.entries[i].0) {
                    Some(r) => {
                        let copy = r.clone();
                        insert_sorted(&mut ids, copy);
                        proof {
                            assert forall|t: Seq<char>|
                                #[trigger] repo_ids_upto(ue, rl, key@, i + 1).contains(t)
                                    <==> repo_ids_upto(ue, rl, key@, i as int).insert(r@).contains(t) by {
                                if repo_ids_upto(ue, rl, key@, i as int).contains(t) {
                                    let k = choose|k: int|
                                        0 <= k < i && #[trigger] ue[k].1@ == key@ && rl.contains_key(
                                            ue[k].0@,
                                        ) && rl[ue[k].0@]@ == t;
                                    assert(0 <= k < i + 1);
                                }
                                if t == r@ {
                                    assert(ue[i as int].1@ == key@);
                                }
                            }
                            assert(repo_ids_upto(ue, rl, key@, i + 1) =~= repo_ids_upto(
                                ue,
                                rl,
                                key@,
                                i as int,
                            ).insert(r@));
                        }
                    },
                    None => {
                        proof {
                            assert(repo_ids_upto(ue, rl, key@, i + 1) =~= repo_ids_upto(
                                ue,
                                rl,
                                key@,
                                i as int,
                            ));
                        }
                    },
                }
            } else {
                proof {
                    assert(repo_ids_upto(ue, rl, key@, i + 1) =~= repo_ids_upto(ue, rl, key@, i as int));
                }
            }
            i = i + 1;
        }
        proof {
            let g = self.graph();
            assert forall|t: Seq<char>| #[trigger] g.repositories_of_user(key@).contains(t) <==> repo_ids_upto(
                ue,
                rl,
                key@,
                n as int,
            ).contains(t) by {
                if g.repositories_of_user(key@).contains(t) {
                    let c = choose|c: Seq<char>|
                        #![trigger g.commit_user[c], g.commit_repo[c]]
                        g.commit_user.contains_key(c) && g.commit_user[c] == key@
                            && g.commit_repo.contains_key(c) && g.commit_repo[c] == t
                            && g.repositories.contains_key(t);
                    lemma_table_key(ue, c);
                    let k = key_index(ue, c);
                    lemma_table_entry(ue, k);
                    assert(ue[k].1@ == key@);
                }
                if repo_ids_upto(ue, rl, key@, n as int).contains(t) {
                    let k = choose|k: int|
                        0 <= k < n && #[trigger] ue[k].1@ == key@ && rl.contains_key(ue[k].0@)
                            && rl[ue[k].0@]@ == t;
                    lemma_table_entry(ue, k);
                    let c = ue[k].0@;
                    assert(g.commit_user.contains_key(c) && g.commit_user[c] == key@);
                    assert(g.commit_repo.contains_key(c) && g.commit_repo[c] == t);
                    assert(g.repositories.contains_key(t));
                }
            }
            assert(g.repositories_of_user(key@) =~= repo_ids_upto(ue, rl, key@, n as int));
        }
        ids
    }
}

impl InMemoryGraphRepository {
    /// The stored repositories whose ids are in the ordered list `ids` and
    /// past the cursor, in that order, at most `limit` of them.
    fn page_of(&self, ids: &Vec<String>, limit: usize, cursor: &Option<String>) -> (page: Vec<
        Repository,
    >)
        requires
            self.inv(),
            strictly_sorted(ids@),
            forall|t: Seq<char>| #[trigger] text_set(ids@).contains(t) ==> self.repositories.map().contains_key(t),
        ensures
            page@.len() <= limit,
            forall|a: int, b: int| 0 <= a < b < page@.len() ==> text_lt(page@[a].id@, page@[b].id@),
            forall|a: int|
                0 <= a < page@.len() ==> {
                    &&& text_set(ids@).contains(#[trigger] page@[a].id@)
                    &&& past_cursor(cursor_view(*cursor), page@[a].id@)
                    &&& self.repositories.map().contains_key(page@[a].id@)
                    &&& page@[a] == self.repositories.map()[page@[a].id@]
                },
            forall|t: Seq<char>|
                #[trigger] text_set(ids@).contains(t) && past_cursor(cursor_view(*cursor), t) && !(exists|a: int|
                    0 <= a < page@.len() && #[trigger] page@[a].id@ == t) ==> {
                    &&& page@.len() == limit
                    &&& limit > 0 ==> text_lt(page@[page@.len() - 1].id@, t)
                },
    {
        let ghost cv = cursor_view(*cursor);
        let ghost s = ids@;
        let ghost repos = self.repositories.map();
        proof {
            assert forall|k: Seq<char>| #[trigger] repos.contains_key(k) implies repos[k].id@ == k by {
                assert(self.graph().repositories.contains_key(k));
            }
        }
        let mut page: Vec<Repository> = Vec::new();
        let ghost mut taken: Seq<int> = Seq::empty();
        let mut j: usize = 0;
        while j < ids.len() && page.len() < limit
            invariant
                self.inv(),
                s == ids@,
                repos == self.repositories.map(),
                cv == cursor_view(*cursor),
                strictly_sorted(s),
                forall|t: Seq<char>| #[trigger] text_set(s).contains(t) ==> repos.contains_key(t),
                forall|k: Seq<char>| #[trigger] repos.contains_key(k) ==> repos[k].id@ == k,
                j <= s.len(),
                page@.len() <= limit,
                page@.len() == taken.len(),
                forall|m: int|
                    0 <= m < taken.len() ==> {
                        &&& 0 <= #[trigger] taken[m] < j
                        &&& past_cursor(cv, s[taken[m]]@)
                        &&& repos.contains_key(s[taken[m]]@)
                        &&& page@[m] == repos[s[taken[m]]@]
                        &&& page@[m].id@ == s[taken[m]]@
                    },
                forall|a: int, b: int| 0 <= a < b < taken.len() ==> #[trigger] taken[a] < #[trigger] taken[b],
                forall|q: int|
                    0 <= q < j && past_cursor(cv, #[trigger] s[q]@) ==> exists|m: int|
                        0 <= m < taken.len() && taken[m] == q,
            decreases s.len() - j,
        {
            let ghost taken_before = taken;
            let ok = match cursor {
                None => true,
                Some(c) => text_less(c.as_str(), ids[j].as_str()),
            };
            if ok {
                proof {
                    assert(text_set(s).contains(s[j as int]@));
                }
                match self.repositories.get(&ids[j]) {
                    Some(r) => {
                        let copy = r.clone();
                        page.push(copy);
                        proof {
                            taken = taken.push(j as int);
                            assert(taken[taken.len() - 1] == j);
                        }
                    },
                    None => {},
                }
            }
            proof {
                assert forall|q: int|
                    0 <= q < j + 1 && past_cursor(cv, #[trigger] s[q]@) implies exists|m: int|
                    0 <= m < taken.len() && taken[m] == q by {
                    if q < j {
                        let m = choose|m: int| 0 <= m < taken_before.len() && taken_before[m] == q;
                        assert(taken[m] == q);
                    } else {
                        assert(taken[taken.len() - 1] == q);
                    }
                }
            }
            j = j + 1;
        }
        proof {
            assert forall|a: int, b: int| 0 <= a < b < page@.len() implies text_lt(
                page@[a].id@,
                page@[b].id@,
            ) by {
                assert(taken[a] < taken[b]);
            }
            assert forall|a: int| 0 <= a < page@.len() implies {
                &&& text_set(s).contains(#[trigger] page@[a].id@)
                &&& past_cursor(cv, page@[a].id@)
                &&& repos.contains_key(page@[a].id@)
                &&& page@[a] == repos[page@[a].id@]
            } by {
                assert(s[taken[a]]@ == page@[a].id@);
            }
            assert forall|t: Seq<char>|
                #[trigger] text_set(s).contains(t) && past_cursor(cv, t) && !(exists|a: int|
                    0 <= a < page@.len() && #[trigger] page@[a].id@ == t) implies {
                &&& page@.len() == limit
                &&& limit > 0 ==> text_lt(page@[page@.len() - 1].id@, t)
            } by {
                let q = choose|q: int| 0 <= q < s.len() && #[trigger] s[q]@ == t;
                if q < j {
                    let m = choose|m: int| 0 <= m < taken.len() && taken[m] == q;
                    assert(page@[m].id@ == t);
                }
                assert(q >= j);
                if limit > 0 {
                    let last: int = taken.len() - 1;
                    assert(taken[last] < j);
                    assert(text_lt(s[taken[last]]@, s[q]@));
                }
            }
        }
        page
    }
}

impl GraphRepository for InMemoryGraphRepository {
    closed spec fn state(&self) -> GraphState {
        self.graph()
    }

    closed spec fn valid(&self) -> bool {
        self.inv()
    }

    proof fn lemma_valid_well_formed(&self) {
    }

    /// A store in memory lists every commit of the repository, whatever the
    /// page size and cursor, in the order the commits were placed there.
    open spec fn repository_commits_answer(
        &self,
        repo_id: Seq<char>,
        limit: u32,
        cursor: Option<Seq<char>>,
        r: Result<Vec<Commit>, AppError>,
    ) -> bool {
        &&& commits_by_repository_answer(self.state(), repo_id, r)
        &&& r matches Ok(list) ==> list@ == self.repository_listing(repo_id)
    }

    /// A store in memory lists every commit of the user, whatever the page
    /// size and cursor, in the order the commits were attributed.
    open spec fn user_commits_answer(
        &self,
        user_id: Seq<char>,
        limit: u32,
        cursor: Option<Seq<char>>,
        r: Result<Vec<Commit>, AppError>,
    ) -> bool {
        &&& commits_by_user_answer(self.state(), user_id, r)
        &&& r matches Ok(list) ==> list@ == self.user_listing(user_id)
    }

    /// A store in memory is always reachable.
    open spec fn health_answer(&self, r: Result<(), AppError>) -> bool {
        r is Ok
    }

    fn db_health(&self) -> (r: Result<(), AppError>)
        ensures
            r is Ok,
    {
        Ok(())
    }

    fn create_user(&mut self, user: User) -> (r: Result<(), AppError>) {
        let key = user.id.clone();
        if self.users.find(&key).is_some() {
            return Err(AppError::UserAlreadyExists);
        }
        self.users.insert_fresh(key, user);
        proof {
            assert(self.graph() == old(self).graph().create_user(user).0);
        }
        Ok(())
    }

    fn get_user(&self, id: &str) -> (r: Result<User, AppError>) {
        let key = id.to_owned();
        match self.users.get(&key) {
            Some(u) => Ok(u.clone()),
            None => Err(AppError::UserNotFound),
        }
    }

    fn create_repository(&mut self, repo: Repository) -> (r: Result<(), AppError>) {
        let key = repo.id.clone();
        if self.repositories.find(&key).is_some() {
            return Err(AppError::RepositoryAlreadyExists);
        }
        self.repositories.insert_fresh(key, repo);
        proof {
            assert(self.graph() == old(self).graph().create_repository(repo).0);
        }
        Ok(())
    }

    fn get_repository(&self, id: &str) -> (r: Result<Repository, AppError>) {
        let key = id.to_owned();
        match self.repositories.get(&key) {
            Some(x) => Ok(x.clone()),
            None => Err(AppError::RepositoryNotFound),
        }
    }

    fn create_commit(&mut self, commit: Commit) -> (r: Result<(), AppError>) {
        let key = commit.id.clone();
        if self.commits.find(&key).is_some() {
            return Err(AppError::CommitAlreadyExists);
        }
        self.commits.insert_fresh(key, commit);
        proof {
            assert(self.graph() == old(self).graph().create_commit(commit).0);
        }
        Ok(())
    }

    fn get_commit(&self, id: &str) -> (r: Result<Commit, AppError>) {
        let key = id.to_owned();
        match self.commits.get(&key) {
            Some(x) => Ok(x.clone()),
            None => Err(AppError::CommitNotFound),
        }
    }

    fn link_commit_to_repository(&mut self, commit_id: &str, repo_id: &str) -> (r: Result<
        (),
        AppError,
    >) {
        let c = commit_id.to_owned();
        if self.commits.find(&c).is_none() {
            return Err(AppError::CommitNotFound);
        }
        let rid = repo_id.to_owned();
        if self.repositories.find(&rid).is_none() {
            proof {
                if self.repositories.map().contains_key(rid@) {
                    lemma_table_key(self.repositories.entries@, rid@);
                }
            }
            return Err(AppError::RepositoryNotFound);
        }
        let ghost old_links = self.commit_to_repo.map();
        self.commit_to_repo.put(c, rid);
        proof {
            assert(link_view(self.commit_to_repo.map()) =~= link_view(old_links).insert(
                commit_id@,
                repo_id@,
            ));
            assert(self.graph() == old(self).graph().link_commit_to_repository(
                commit_id@,
                repo_id@,
            ).0);
        }
        Ok(())
    }

    fn link_commit_to_user(&mut self, commit_id: &str, user_id: &str) -> (r: Result<
        (),
        AppError,
    >) {
        let c = commit_id.to_owned();
        if self.commits.find(&c).is_none() {
            return Err(AppError::CommitNotFound);
        }
        let uid = user_id.to_owned();
        if self.users.find(&uid).is_none() {
            return Err(AppError::UserNotFound);
        }
        let ghost old_links = self.commit_to_user.map();
        self.commit_to_user.put(c, uid);
        proof {
            assert(link_view(self.commit_to_user.map()) =~= link_view(old_links).insert(
                commit_id@,
                user_id@,
            ));
            assert(self.graph() == old(self).graph().link_commit_to_user(commit_id@, user_id@).0);
        }
        Ok(())
    }

    fn get_commits_by_repository(&self, repo_id: &str, limit: u32, cursor: Option<String>) -> (r:
        Result<Vec<Commit>, AppError>) {
        let key = repo_id.to_owned();
        if self.repositories.find(&key).is_none() {
            return Err(AppError::RepositoryNotFound);
        }
        proof {
            self.lemma_commit_keys();
        }
        let out = collect_linked(&self.commit_to_repo, &self.commits, &key);
        proof {
            assert(linked_to(self.commit_to_repo.map(), self.commits.map(), key@)
                =~= self.graph().commits_in_repository(repo_id@));
        }
        Ok(out)
    }

    fn get_commits_by_user(&self, user_id: &str, limit: u32, cursor: Option<String>) -> (r: Result<
        Vec<Commit>,
        AppError,
    >) {
        let key = user_id.to_owned();
        if self.users.find(&key).is_none() {
            return Err(AppError::UserNotFound);
        }
        proof {
            self.lemma_commit_keys();
        }
        let out = collect_linked(&self.commit_to_user, &self.commits, &key);
        proof {
            assert(linked_to(self.commit_to_user.map(), self.commits.map(), key@)
                =~= self.graph().commits_of_user(user_id@));
        }
        Ok(out)
    }

    fn get_repositories_by_user(&self, user_id: &str, limit: u32, cursor: Option<String>) -> (r:
        Result<Vec<Repository>, AppError>) {
        let key = user_id.to_owned();
        if self.users.find(&key).is_none() {
            return Err(AppError::UserNotFound);
        }
        let ids = self.repository_ids_of_user(&key);
        let page = self.page_of(&ids, limit as usize, &cursor);
        proof {
            let g = self.graph();
            let cv = cursor_view(cursor);
            assert(cv == match cursor {
                Some(c) => Some(c@),
                None => None,
            });
            assert forall|t: Seq<char>| #[trigger] wanted_repository(g, user_id@, cv, t) <==> (text_set(
                ids@,
            ).contains(t) && past_cursor(cv, t)) by {}
            assert(is_repository_page(g, user_id@, limit as nat, cv, page@));
        }
        Ok(page)
    }
}

} // verus!
