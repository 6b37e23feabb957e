use vstd::prelude::*;
use crate::clock::{CLOCK_LIMIT_SECS, unix_now};

verus! {

/// A post as stored in the `posts` table.
pub struct Post {
    pub id: usize,
    pub content: String,
    pub uid: String,
    pub creation_timestamp: usize,
}

/// A user as stored in the `users` table.
pub struct User {
    pub uid: String,
    pub display_name: Option<String>,
    pub email: Option<String>,
    pub registration_timestamp: usize,
}

/// A value bound to a `?` parameter of a statement.
pub enum SqlValue {
    Null,
    Integer(i64),
    Text(String),
}

/// An SQL statement with the values bound to its parameters, in order.
pub struct Statement {
    pub sql: String,
    pub args: Vec<SqlValue>,
}

/// The argument holds this text.
pub open spec fn is_text(v: SqlValue, t: Seq<char>) -> bool {
    v matches SqlValue::Text(s) && s@ == t
}

/// The argument holds this integer.
pub open spec fn is_integer(v: SqlValue, n: i64) -> bool {
    v matches SqlValue::Integer(m) && m == n
}

/// The argument binds an optional text: `NULL` for `None`.
pub open spec fn is_optional_text(v: SqlValue, t: Option<String>) -> bool {
    match t {
        Some(s) => is_text(v, s@),
        None => v is Null,
    }
}

/// The integer a `usize` is bound as (`value as i64`).
pub open spec fn usize_arg(n: usize) -> i64 {
    n as i64
}

/// `s` stores a new post with this content and owner, stamped with `stamp`.
pub open spec fn stores_post(s: Statement, content: Seq<char>, uid: Seq<char>, stamp: usize) -> bool {
    &&& s.sql@ == "INSERT INTO posts (content, uid, creation_timestamp) VALUES (?, ?, ?)"@
    &&& s.args@.len() == 3
    &&& is_text(s.args@[0], content)
    &&& is_text(s.args@[1], uid)
    &&& is_integer(s.args@[2], usize_arg(stamp))
}

/// `s` reads the posts of `uid`, newest first.
pub open spec fn reads_posts_of(s: Statement, uid: Seq<char>) -> bool {
    &&& s.sql@ == "SELECT * FROM posts WHERE uid = ? ORDER BY creation_timestamp DESC"@
    &&& s.args@.len() == 1
    &&& is_text(s.args@[0], uid)
}

/// `s` deletes the post with this id.
pub open spec fn deletes_post(s: Statement, id: usize) -> bool {
    &&& s.sql@ == "DELETE FROM posts WHERE id = ?"@
    &&& s.args@.len() == 1
    &&& is_integer(s.args@[0], usize_arg(id))
}

/// `s` registers a user with these details.
pub open spec fn stores_user(
    s: Statement,
    uid: Seq<char>,
    display_name: Option<String>,
    email: Option<String>,
    stamp: usize,
) -> bool {
    &&& s.sql@
        == "INSERT INTO users (uid, display_name, email, registration_timestamp) VALUES (?, ?, ?, ?)"@
    &&& s.args@.len() == 4
    &&& is_text(s.args@[0], uid)
    &&& is_optional_text(s.args@[1], display_name)
    &&& is_optional_text(s.args@[2], email)
    &&& is_integer(s.args@[3], usize_arg(stamp))
}

/// `s` looks the user `uid` up.
pub open spec fn reads_user(s: Statement, uid: Seq<char>) -> bool {
    &&& s.sql@ == "SELECT * FROM users WHERE uid = ?"@
    &&& s.args@.len() == 1
    &&& is_text(s.args@[0], uid)
}

fn optional_text(t: Option<String>) -> (v: SqlValue)
    ensures
        is_optional_text(v, t),
{
    match t {
        Some(s) => SqlValue::Text(s),
        None => SqlValue::Null,
    }
}

/// The statement that stores a new post by `uid`, stamped with the Unix
/// time `now` read as `usize` (`now as usize`).
pub fn create_post_at(content: String, uid: String, now: i64) -> (s: Statement)
    ensures
        stores_post(s, content@, uid@, now as usize),
{
    let creation_timestamp = now as usize;
    let mut args: Vec<SqlValue> = Vec::new();
    args.push(SqlValue::Text(content));
    args.push(SqlValue::Text(uid));
    args.push(SqlValue::Integer(creation_timestamp as i64));
    Statement {
        sql: "INSERT INTO posts (content, uid, creation_timestamp) VALUES (?, ?, ?)".to_string(),
        args,
    }
}

/// The statement that stores a new post by `uid`, stamped with the current
/// Unix time.
pub fn create_post(content: String, uid: String) -> (s: Statement)
    ensures
        exists|now: i64|
            0 <= now < CLOCK_LIMIT_SECS && #[trigger] stores_post(s, content@, uid@, now as usize),
{
    let now = unix_now();
    create_post_at(content, uid, now)
}

/// The statement that reads the posts of `uid`, newest first.
pub fn get_posts_by_uid(uid: &str) -> (s: Statement)
    ensures
        reads_posts_of(s, uid@),
{
    let mut args: Vec<SqlValue> = Vec::new();
    args.push(SqlValue::Text(uid.to_string()));
    Statement {
        sql: "SELECT * FROM posts WHERE uid = ? ORDER BY creation_timestamp DESC".to_string(),
        args,
    }
}

/// The statement that deletes the post with this id.
pub fn delete_post(id: usize) -> (s: Statement)
    ensures
        deletes_post(s, id),
{
    let mut args: Vec<SqlValue> = Vec::new();
    args.push(SqlValue::Integer(id as i64));
    Statement { sql: "DELETE FROM posts WHERE id = ?".to_string(), args }
}

/// The statement that registers a new user.
pub fn create_user(
    uid: String,
    display_name: Option<String>,
    email: Option<String>,
    registration_timestamp: usize,
) -> (s: Statement)
    ensures
        stores_user(s, uid@, display_name, email, registration_timestamp),
{
    let mut args: Vec<SqlValue> = Vec::new();
    args.push(SqlValue::Text(uid));
    args.push(optional_text(display_name));
    args.push(optional_text(email));
    args.push(SqlValue::Integer(registration_timestamp as i64));
    Statement {
        sql: "INSERT INTO users (uid, display_name, email, registration_timestamp) VALUES (?, ?, ?, ?)".to_string(),
        args,
    }
}

/// The statement that looks a user up by uid.
pub fn get_user_by_uid(uid: &str) -> (s: Statement)
    ensures
        reads_user(s, uid@),
{
    let mut args: Vec<SqlValue> = Vec::new();
    args.push(SqlValue::Text(uid.to_string()));
    Statement { sql: "SELECT * FROM users WHERE uid = ?".to_string(), args }
}

/// The statement that registers a user signing in for the first time, now,
/// with neither display name nor email.
pub fn register_user(uid: String) -> (s: Statement)
    ensures
        exists|now: i64|
            0 <= now < CLOCK_LIMIT_SECS && #[trigger] stores_user(s, uid@, None, None, now as usize),
{
    let now = unix_now();
    create_user(uid, None, None, now as usize)
}

} // verus!
