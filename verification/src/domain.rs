use vstd::prelude::*;

verus! {

/// A developer who authors commits.
#[derive(Debug)]
pub struct User {
    pub id: String,
    pub username: String,
    pub email: String,
}

impl User {
    pub fn new(id: String, username: String, email: String) -> (u: User)
        ensures
            u.id == id,
            u.username == username,
            u.email == email,
    {
        User { id, username, email }
    }
}

impl Clone for User {
    fn clone(&self) -> (u: User)
        ensures
            u == *self,
    {
        User { id: self.id.clone(), username: self.username.clone(), email: self.email.clone() }
    }
}

/// A source repository that commits belong to.
#[derive(Debug)]
pub struct Repository {
    pub id: String,
    pub name: String,
}

impl Repository {
    pub fn new(id: String, name: String) -> (r: Repository)
        ensures
            r.id == id,
            r.name == name,
    {
        Repository { id, name }
    }
}

impl Clone for Repository {
    fn clone(&self) -> (r: Repository)
        ensures
            r == *self,
    {
        Repository { id: self.id.clone(), name: self.name.clone() }
    }
}

/// A commit, identified by its id, with its message.
#[derive(Debug)]
pub struct Commit {
    pub id: String,
    pub message: String,
}

impl Commit {
    pub fn new(id: String, message: String) -> (c: Commit)
        ensures
            c.id == id,
            c.message == message,
    {
        Commit { id, message }
    }
}

impl Clone for Commit {
    fn clone(&self) -> (c: Commit)
        ensures
            c == *self,
    {
        Commit { id: self.id.clone(), message: self.message.clone() }
    }
}

} // verus!
