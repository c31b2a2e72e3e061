pub mod data;
pub mod errors;
pub mod laws;
pub mod relay;
pub mod service;
pub mod text;

use vstd::prelude::*;

use crate::errors::{ErrorKinsper, TypeErrorKinsper};

verus! {

pub const SERVER_LOCALPORT: u16 = 50051;

pub const SERVER_LOCALHOST: &'static str = "127.0.0.1";

/// The row limit that command-line clients send by default.
pub const QUERY_LIMIT_CLIENT: &'static str = "1024";

/// Capacity of the queue that relays a listing to the caller.
pub const LIMIT_STREAM_QUEUE: usize = 1024;

/// Largest number of connections in the store's pool.
pub const MAX_CONNECTIONS_DB_POOL: u32 = 10;

/// The shape a mail address must have. The pattern is anchored at the start
/// only: text after a well-formed address is accepted.
pub const MAIL_PATTERN: &'static str =
    r"^([a-z0-9_+]([a-z0-9_+.]*[a-z0-9_+])?)@([a-z0-9]+([\-\.]{1}[a-z0-9]+)*\.[a-z]{2,6})";

/// Whether the regex crate accepts `pattern` as a regular expression.
pub uninterp spec fn regex_is_valid(pattern: Seq<char>) -> bool;

/// Whether the compiled `pattern` matches somewhere in `haystack`.
pub uninterp spec fn regex_finds_match(pattern: Seq<char>, haystack: Seq<char>) -> bool;

/// Relies on regex::Regex::new, which compiles a pattern or reports that it
/// cannot, and on regex::Regex::is_match, which tells whether the compiled
/// pattern matches anywhere in the haystack. Both depend on their arguments alone.
#[verifier::external_body]
fn regex_search(pattern: &str, haystack: &str) -> (r: Option<bool>)
    ensures
        r is Some <==> regex_is_valid(pattern@),
        r matches Some(found) ==> found == regex_finds_match(pattern@, haystack@),
{
    regex::Regex::new(pattern).ok().map(|re| re.is_match(haystack))
}

/// Whether `mail` has the shape of a mail address.
pub open spec fn mail_accepted(mail: Seq<char>) -> bool {
    regex_is_valid(MAIL_PATTERN@) && regex_finds_match(MAIL_PATTERN@, mail)
}

/// The outcome of the mail check, from what the search gave: `None` where
/// the pattern did not compile, else whether it matched.
pub fn mail_verdict(found: Option<bool>) -> (r: Result<(), ErrorKinsper>)
    ensures
        found == Some(true) <==> r is Ok,
        found == Some(false) ==> (r matches Err(e) && e.type_error == TypeErrorKinsper::InvalidEmail
            && e.message@ == "Invalid email."@),
        found is None ==> (r matches Err(e) && e.type_error
            == TypeErrorKinsper::InternalValidationError && e.message@ == "Error in validations."@),
{
    match found {
        None => Err(
            ErrorKinsper::new(
                TypeErrorKinsper::InternalValidationError,
                String::from_str("Error in validations."),
            ),
        ),
        Some(true) => Ok(()),
        Some(false) => Err(
            ErrorKinsper::new(TypeErrorKinsper::InvalidEmail, String::from_str("Invalid email.")),
        ),
    }
}

/// Checks the shape of a mail address before anything is stored.
pub fn validate_mail(mail: &str) -> (r: Result<(), ErrorKinsper>)
    ensures
        r is Ok <==> mail_accepted(mail@),
        r matches Err(e) ==> (if regex_is_valid(MAIL_PATTERN@) {
            e.type_error == TypeErrorKinsper::InvalidEmail && e.message@ == "Invalid email."@
        } else {
            e.type_error == TypeErrorKinsper::InternalValidationError
                && e.message@ == "Error in validations."@
        }),
{
    mail_verdict(regex_search(MAIL_PATTERN, mail))
}

} // verus!
