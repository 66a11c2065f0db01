use vstd::prelude::*;

verus! {

/// A message as a client posts it, before the store gives it a timestamp.
pub struct NewMessage {
    pub username: String,
    pub message: String,
}

/// A stored message; the timestamp is the store's and the only ordering key.
pub struct Message {
    pub username: String,
    pub message: String,
    pub timestamp: i64,
}

/// An exclusive filter over timestamps; each bound is independently optional.
#[derive(Clone, Copy, Debug, PartialEq, Eq, Structural)]
pub struct TimeRange {
    pub before: Option<i64>,
    pub after: Option<i64>,
}

/// Why a request could not be served.
pub enum ServiceError {
    /// The request itself is malformed (a missing field, an unparsable bound).
    Validation(String),
    /// The store could not be reached or failed.
    Persistence(String),
}

impl Message {
    pub fn new(username: String, message: String, timestamp: i64) -> (r: Message)
        ensures
            r.username@ == username@,
            r.message@ == message@,
            r.timestamp == timestamp,
    {
        Message { username, message, timestamp }
    }

    /// A field-by-field copy.
    pub fn duplicate(&self) -> (r: Message)
        ensures
            r == *self,
    {
        Message {
            username: self.username.clone(),
            message: self.message.clone(),
            timestamp: self.timestamp,
        }
    }
}

impl TimeRange {
    /// The range with no bound, which admits every timestamp.
    pub fn unbounded() -> (r: TimeRange)
        ensures
            r.before is None,
            r.after is None,
    {
        TimeRange { before: None, after: None }
    }

    pub open spec fn admits_spec(self, timestamp: i64) -> bool {
        &&& (self.before matches Some(b) ==> timestamp < b)
        &&& (self.after matches Some(a) ==> timestamp > a)
    }

    /// Whether a timestamp lies strictly inside the range.
    pub fn admits(&self, timestamp: i64) -> (r: bool)
        ensures
            r == self.admits_spec(timestamp),
    {
        let below = match self.before {
            Some(b) => timestamp < b,
            None => true,
        };
        let above = match self.after {
            Some(a) => timestamp > a,
            None => true,
        };
        below && above
    }
}

} // verus!
