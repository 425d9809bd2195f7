//! The records the board keeps in its database.
use vstd::prelude::*;

verus! {

/// A moderator account.
#[derive(Debug, PartialEq)]
pub struct Admin {
    pub aid: i32,
    pub name: String,
    pub password: String,
}

/// A thread: its id and the id of its opening post (`-1` until that post exists).
#[derive(Debug, PartialEq, Eq, Structural, Copy, Clone)]
pub struct Thread {
    pub tid: i32,
    pub first_floor: i32,
}

/// The values with which a new thread row is inserted.
#[derive(Debug, PartialEq, Eq, Structural, Copy, Clone)]
pub struct NewThread {
    pub first_floor: i32,
}

/// The time at which a post was written, as the database stores it; the board
/// only carries it from the stored post to the page.
#[verifier::external_type_specification]
#[verifier::external_body]
pub struct ExNaiveDateTime(chrono::NaiveDateTime);

/// A stored post. The text columns may be empty (`None`) in the database.
#[derive(Debug, PartialEq)]
pub struct Post {
    pub pid: i32,
    pub auth: Option<String>,
    pub pdate: chrono::NaiveDateTime,
    pub subject: Option<String>,
    pub comment: Option<String>,
    pub sid: i32,
    pub tid: i32,
}

/// The values with which a new post row is inserted.
#[derive(Debug, Clone, Copy)]
pub struct NewPost<'a> {
    pub auth: &'a str,
    pub subject: &'a str,
    pub comment: &'a str,
    pub sid: i32,
    pub tid: i32,
}

} // verus!
