use vstd::prelude::*;

use crate::data::model::{UserModel, UserRecord};
use crate::errors::{
    store_failure_kind, store_failure_message, ErrorKinsper, StoreFailure, TypeErrorKinsper,
};

verus! {

/// Row limit of a listing that names none.
pub const QUERY_LIMIT: u32 = 1024;

pub const DROP_TABLE_STATEMENT: &'static str = "DROP TABLE IF EXISTS users;";

pub const CREATE_TABLE_STATEMENT: &'static str =
    "CREATE TABLE IF NOT EXISTS users (id VARCHAR(48) PRIMARY KEY NOT NULL, name VARCHAR(256) NOT NULL, mail VARCHAR(256) NOT NULL)";

pub const INSERT_USER_STATEMENT: &'static str =
    "INSERT INTO users (`id`, `name`, `mail`) VALUES(?, ?, ?)";

pub const SELECT_USERS_STATEMENT: &'static str = "SELECT * FROM users LIMIT ?";

pub const SELECT_USER_STATEMENT: &'static str = "SELECT * FROM users WHERE id = ?";

pub const DELETE_USER_STATEMENT: &'static str = "DELETE FROM users WHERE id = ?";

/// The limit a listing runs with.
pub fn query_limit(limit: Option<u32>) -> (r: u32)
    ensures
        r == match limit {
            Some(n) => n,
            None => QUERY_LIMIT,
        },
{
    match limit {
        Some(n) => n,
        None => QUERY_LIMIT,
    }
}

/// The update statement for a rendered `SET` clause; the key is its last parameter.
pub fn update_statement(clause: &str) -> (r: String)
    ensures
        r@ == "UPDATE users SET "@ + clause@ + " WHERE id = ?"@,
{
    let mut r = String::from_str("UPDATE users SET ");
    r.append(clause);
    r.append(" WHERE id = ?");
    r
}

/// Whether `e` is the service failure for the store failure `f`.
pub open spec fn classified(e: ErrorKinsper, f: StoreFailure) -> bool {
    e.type_error == store_failure_kind(f) && e.message@ == store_failure_message(f)
}

/// An insertion that touched no row means the key was taken.
pub fn finish_insert(r: Result<u64, StoreFailure>) -> (out: Result<u64, ErrorKinsper>)
    ensures
        match r {
            Err(f) => out matches Err(e) && classified(e, f),
            Ok(0) => out matches Err(e) && e.type_error == TypeErrorKinsper::AlreadyExists
                && e.message@ == "User already exists."@,
            Ok(n) => out == Ok::<u64, ErrorKinsper>(n),
        },
{
    match r {
        Err(f) => Err(ErrorKinsper::from_store(f)),
        Ok(0) => Err(
            ErrorKinsper::new(
                TypeErrorKinsper::AlreadyExists,
                String::from_str("User already exists."),
            ),
        ),
        Ok(n) => Ok(n),
    }
}

/// An update or deletion that matched no row means the user is not there.
pub fn finish_matched(r: Result<u64, StoreFailure>) -> (out: Result<u64, ErrorKinsper>)
    ensures
        match r {
            Err(f) => out matches Err(e) && classified(e, f),
            Ok(0) => out matches Err(e) && e.type_error == TypeErrorKinsper::NotFound
                && e.message@ == "User not found."@,
            Ok(n) => out == Ok::<u64, ErrorKinsper>(n),
        },
{
    match r {
        Err(f) => Err(ErrorKinsper::from_store(f)),
        Ok(0) => Err(
            ErrorKinsper::new(TypeErrorKinsper::NotFound, String::from_str("User not found.")),
        ),
        Ok(n) => Ok(n),
    }
}

/// A single-row fetch: a missing row is `NotFound`.
pub fn finish_fetch_one(r: Result<UserModel, StoreFailure>) -> (out: Result<
    UserModel,
    ErrorKinsper,
>)
    ensures
        match r {
            Err(f) => out matches Err(e) && classified(e, f),
            Ok(u) => out matches Ok(v) && v@ == u@,
        },
{
    match r {
        Err(f) => Err(ErrorKinsper::from_store(f)),
        Ok(u) => Ok(u),
    }
}

pub open spec fn records(users: Seq<UserModel>) -> Seq<UserRecord> {
    users.map_values(|u: UserModel| u@)
}

/// A listing: an empty result is `NotFound`, never an empty success.
pub fn finish_fetch_all(r: Result<Vec<UserModel>, StoreFailure>) -> (out: Result<
    Vec<UserModel>,
    ErrorKinsper,
>)
    ensures
        match r {
            Err(f) => out matches Err(e) && classified(e, f),
            Ok(users) => if users@.len() == 0 {
                out matches Err(e) && e.type_error == TypeErrorKinsper::NotFound
                    && e.message@ == "No users found."@
            } else {
                out matches Ok(v) && records(v@) == records(users@)
            },
        },
{
    match r {
        Err(f) => Err(ErrorKinsper::from_store(f)),
        Ok(users) => {
            if users.len() == 0 {
                Err(ErrorKinsper::new(TypeErrorKinsper::NotFound, String::from_str("No users found.")))
            } else {
                Ok(users)
            }
        },
    }
}

} // verus!
