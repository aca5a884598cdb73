//! Rate-limited calls to the chat service's HTTP API: its records, its errors, and the
//! rules that read its replies.
use vstd::prelude::*;

use std::collections::HashSet;

verus! {

/// HTTP status of a reply that says the remote rate limit was hit.
pub const TOO_MANY_REQUESTS: u16 = 429;

/// Errors of a call to the chat service's API.
#[derive(PartialEq, Eq, Debug)]
pub enum Error {
    /// The request failed in transport, with its description.
    Reqwest(String),
    /// The body was neither the expected record nor an error message.
    Json(String),
    /// The service answered with an error code and message.
    Discord { code: u32, message: String },
    /// The service's own rate limit was hit.
    RateLimited,
}

/// A user account.
#[derive(PartialEq, Eq, Debug)]
pub struct User {
    pub id: String,
    pub username: String,
    pub discriminator: String,
    pub global_name: Option<String>,
    pub avatar: Option<String>,
}

/// A member of a guild.
#[derive(PartialEq, Eq, Debug)]
pub struct GuildMember {
    pub roles: HashSet<String>,
    pub user: User,
}

/// An error body of the service.
#[derive(PartialEq, Eq, Debug)]
pub struct ErrorMessage {
    pub code: u32,
    pub message: String,
}

/// What a reply body means, given its two readings: the expected record when the body is one;
/// otherwise the service's error when the body is an error message; otherwise
/// [`Error::Json`] with the reason the error-message reading failed.
pub fn read_body<T>(
    record: Option<T>,
    message: Result<ErrorMessage, String>,
) -> (r: Result<T, Error>)
    ensures
        match record {
            Some(t) => r == Ok::<T, Error>(t),
            None => match message {
                Ok(m) => r matches Err(Error::Discord { code, message }) && code == m.code
                    && message@ == m.message@,
                Err(e) => r matches Err(Error::Json(j)) && j@ == e@,
            },
        },
{
    match record {
        Some(t) => Ok(t),
        None => match message {
            Ok(m) => Err(Error::Discord { code: m.code, message: m.message }),
            Err(e) => Err(Error::Json(e)),
        },
    }
}

/// Reads a reply's HTTP status before its body: a 429 is [`Error::RateLimited`], which the
/// caller surfaces rather than retries; any other status goes on to the body.
pub fn check_rate_limit(status: u16) -> (r: Result<(), Error>)
    ensures
        status == TOO_MANY_REQUESTS ==> r == Err::<(), Error>(Error::RateLimited),
        status != TOO_MANY_REQUESTS ==> r == Ok::<(), Error>(()),
{
    if status == TOO_MANY_REQUESTS {
        Err(Error::RateLimited)
    } else {
        Ok(())
    }
}

/// The user ids of `members`, in order.
pub fn member_ids(members: &Vec<GuildMember>) -> (r: Vec<String>)
    ensures
        r@.len() == members@.len(),
        forall|i: int| 0 <= i < r@.len() ==> #[trigger] r@[i]@ == members@[i].user.id@,
{
    let mut r: Vec<String> = Vec::new();
    let mut i: usize = 0;
    while i < members.len()
        invariant
            i <= members@.len(),
            r@.len() == i,
            forall|j: int| 0 <= j < i ==> #[trigger] r@[j]@ == members@[j].user.id@,
        decreases members@.len() - i,
    {
        r.push(members[i].user.id.clone());
        i = i + 1;
    }
    r
}

} // verus!
