//! Posts, their creation timestamps, and the static configuration.

use vstd::prelude::*;

verus! {

/// What `time`'s ISO-8601 parser makes of a string: the epoch seconds of the
/// instant it describes, or `None` when the string is not a valid ISO-8601
/// date-time. Uninterpreted here; the trusted wrapper below computes it.
pub uninterp spec fn iso_epoch(s: Seq<char>) -> Option<i64>;

/// Relies on `time::OffsetDateTime::parse` with the well-known ISO-8601
/// format to read a date-time, and on `OffsetDateTime::unix_timestamp` to
/// take the result out as epoch seconds. The outcome depends on the input
/// characters alone: the string carries its own UTC offset, and no clock,
/// locale or environment is consulted.
#[verifier::external_body]
fn parse_iso_epoch(s: &str) -> (r: Option<i64>)
    ensures
        r == iso_epoch(s@),
{
    match time::OffsetDateTime::parse(s, &time::format_description::well_known::Iso8601::DEFAULT) {
        Ok(t) => Some(t.unix_timestamp()),
        Err(_) => None,
    }
}

/// A post's creation time as an upstream source reports it: either epoch
/// seconds already, or an ISO-8601 date-time string.
pub enum Timestamp {
    Epoch(i64),
    Iso(String),
}

/// The canonical epoch-seconds value of a timestamp; `None` when an
/// ISO-8601 representation does not parse.
pub open spec fn spec_timestamp(t: Timestamp) -> Option<i64> {
    match t {
        Timestamp::Epoch(n) => Some(n),
        Timestamp::Iso(s) => iso_epoch(s@),
    }
}

impl Timestamp {
    /// Normalizes the timestamp to epoch seconds; `None` when an ISO-8601
    /// representation does not parse.
    pub fn normalize(&self) -> (r: Option<i64>)
        ensures
            r == spec_timestamp(*self),
    {
        match self {
            Timestamp::Epoch(n) => Some(*n),
            Timestamp::Iso(s) => parse_iso_epoch(s.as_str()),
        }
    }
}

/// One fetched post: a stable identifier, a title that may carry HTML
/// entities, and a creation timestamp. Immutable once fetched.
pub struct Post {
    pub id: String,
    pub title: String,
    pub created: Timestamp,
}

/// Static configuration, read once at startup: gateway credentials and the
/// content source the notifier watches.
pub struct Config {
    pub pushover_token: String,
    pub pushover_user: String,
    pub subreddit: String,
}

impl Clone for Config {
    fn clone(&self) -> (res: Self)
        ensures
            res == *self,
    {
        Config {
            pushover_token: self.pushover_token.clone(),
            pushover_user: self.pushover_user.clone(),
            subreddit: self.subreddit.clone(),
        }
    }
}

} // verus!
