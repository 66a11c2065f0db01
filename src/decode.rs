use vstd::prelude::*;
use vstd::string::StringSliceAdditionalSpecFns;
use crate::model::{NewMessage, ServiceError, TimeRange};

verus! {

/// The name/value pairs that `application/x-www-form-urlencoded` decoding
/// reads from a byte string, percent-decoded, in the order they appear.
pub uninterp spec fn form_pairs(input: Seq<u8>) -> Seq<(Seq<char>, Seq<char>)>;

pub open spec fn pairs_view(pairs: Seq<(String, String)>) -> Seq<(Seq<char>, Seq<char>)> {
    pairs.map_values(|p: (String, String)| (p.0@, p.1@))
}

/// Relies on form_urlencoded::parse (with into_owned): the decoded pairs of the
/// input, none of them when the input is empty.
#[verifier::external_body]
fn decode_pairs(input: &[u8]) -> (r: Vec<(String, String)>)
    ensures
        pairs_view(r@) == form_pairs(input@),
        input@.len() == 0 ==> r@.len() == 0,
{
    form_urlencoded::parse(input).into_owned().collect()
}

/// The value of the last pair named `key`: a later pair overrides an earlier one.
pub open spec fn last_value(pairs: Seq<(Seq<char>, Seq<char>)>, key: Seq<char>) -> Option<Seq<char>>
    decreases pairs.len(),
{
    if pairs.len() == 0 {
        None
    } else if pairs.last().0 == key {
        Some(pairs.last().1)
    } else {
        last_value(pairs.drop_last(), key)
    }
}

/// Looks up the value that a form gives to `key`, the last one where it is repeated.
pub fn lookup(pairs: &Vec<(String, String)>, key: &String) -> (r: Option<String>)
    ensures
        r matches Some(v) ==> last_value(pairs_view(pairs@), key@) == Some(v@),
        r is None ==> last_value(pairs_view(pairs@), key@) is None,
{
    let ghost pv = pairs_view(pairs@);
    let mut i: usize = pairs.len();
    assert(pv.subrange(0, pv.len() as int) == pv);
    while i > 0
        invariant
            i <= pairs@.len(),
            pv == pairs_view(pairs@),
            pv.len() == pairs@.len(),
            last_value(pv, key@) == last_value(pv.subrange(0, i as int), key@),
        decreases i,
    {
        i = i - 1;
        assert(pv.subrange(0, i + 1).drop_last() == pv.subrange(0, i as int));
        if pairs[i].0 == *key {
            return Some(pairs[i].1.clone());
        }
    }
    None
}

pub open spec fn default_username() -> Seq<char> {
    "anonymous"@
}

pub open spec fn missing_message_text() -> Seq<char> {
    "missing field 'message'"@
}

/// The username and message that a decoded form holds, if it names a message.
pub open spec fn pending_of(pairs: Seq<(Seq<char>, Seq<char>)>) -> Option<(Seq<char>, Seq<char>)> {
    match last_value(pairs, "message"@) {
        Some(message) => Some(
            (
                match last_value(pairs, "username"@) {
                    Some(u) => u,
                    None => default_username(),
                },
                message,
            ),
        ),
        None => None,
    }
}

/// What decoding a form gives: the message, or the validation error for its absence.
pub open spec fn form_outcome(pairs: Seq<(Seq<char>, Seq<char>)>, r: Result<NewMessage, ServiceError>) -> bool {
    match pending_of(pairs) {
        Some((u, m)) => r matches Ok(n) && n.username@ == u && n.message@ == m,
        None => r matches Err(ServiceError::Validation(e)) && e@ == missing_message_text(),
    }
}

/// Builds the pending message from decoded form pairs; `username` defaults
/// to "anonymous", `message` is required.
pub fn message_from_pairs(pairs: &Vec<(String, String)>) -> (r: Result<NewMessage, ServiceError>)
    ensures
        form_outcome(pairs_view(pairs@), r),
{
    let message_key = String::from_str("message");
    match lookup(pairs, &message_key) {
        Some(message) => {
            let username_key = String::from_str("username");
            let username = match lookup(pairs, &username_key) {
                Some(u) => u,
                None => String::from_str("anonymous"),
            };
            Ok(NewMessage { username, message })
        },
        None => Err(ServiceError::Validation(String::from_str("missing field 'message'"))),
    }
}

/// Decodes a URL-encoded request body into a pending message.
pub fn parse_form(body: &[u8]) -> (r: Result<NewMessage, ServiceError>)
    ensures
        form_outcome(form_pairs(body@), r),
{
    let pairs = decode_pairs(body);
    message_from_pairs(&pairs)
}

pub open spec fn is_digit(c: char) -> bool {
    '0' <= c && c <= '9'
}

/// The value of a string of decimal digits.
pub open spec fn digits_value(s: Seq<char>) -> int
    decreases s.len(),
{
    if s.len() == 0 {
        0
    } else {
        digits_value(s.drop_last()) * 10 + (s.last() as int - '0' as int)
    }
}

/// The text after an optional leading sign.
pub open spec fn unsigned_part(s: Seq<char>) -> Seq<char> {
    if s.len() > 0 && (s[0] == '-' || s[0] == '+') {
        s.drop_first()
    } else {
        s
    }
}

/// The integer that an optionally signed decimal text denotes.
pub open spec fn signed_value(s: Seq<char>) -> int {
    if s.len() > 0 && s[0] == '-' {
        -digits_value(s.drop_first())
    } else {
        digits_value(unsigned_part(s))
    }
}

/// Whether a text is an optional `+` or `-` followed by one or more decimal
/// digits and nothing else, denoting a value that fits an `i64`.
pub open spec fn is_i64_text(s: Seq<char>) -> bool {
    let d = unsigned_part(s);
    &&& d.len() > 0
    &&& forall|i: int| 0 <= i < d.len() ==> is_digit(#[trigger] d[i])
    &&& i64::MIN <= signed_value(s) <= i64::MAX
}

/// Relies on `str::parse::<i64>` (`i64::from_str`): an optional sign followed by
/// digits only, within range, parses to its value; anything else is an error,
/// whose description is passed on.
#[verifier::external_body]
fn parse_integer(s: &str) -> (r: Result<i64, String>)
    ensures
        r is Ok <==> is_i64_text(s@),
        r matches Ok(v) ==> v == signed_value(s@),
{
    match s.parse::<i64>() {
        Ok(v) => Ok(v),
        Err(e) => Err(e.to_string()),
    }
}

/// The message of a filter value that does not parse.
pub open spec fn bound_error_text(field: Seq<char>, cause: Seq<char>) -> Seq<char> {
    "Error parsing '"@ + field + "': "@ + cause
}

pub open spec fn bound_valid(v: Option<Seq<char>>) -> bool {
    v matches Some(t) ==> is_i64_text(t)
}

pub open spec fn bound_of(v: Option<Seq<char>>) -> Option<i64> {
    match v {
        Some(t) => Some(signed_value(t) as i64),
        None => None,
    }
}

/// What decoding a query gives: both bounds when each present one parses, else
/// the error for the first one (`before`, then `after`) that does not.
pub open spec fn range_outcome(pairs: Seq<(Seq<char>, Seq<char>)>, r: Result<TimeRange, ServiceError>) -> bool {
    let b = last_value(pairs, "before"@);
    let a = last_value(pairs, "after"@);
    if !bound_valid(b) {
        r matches Err(ServiceError::Validation(e)) && exists|c: Seq<char>|
            e@ == #[trigger] bound_error_text("before"@, c)
    } else if !bound_valid(a) {
        r matches Err(ServiceError::Validation(e)) && exists|c: Seq<char>|
            e@ == #[trigger] bound_error_text("after"@, c)
    } else {
        r == Ok::<TimeRange, ServiceError>(TimeRange { before: bound_of(b), after: bound_of(a) })
    }
}

/// Parses the value of one bound, if the query names it.
fn bound_from_pairs(pairs: &Vec<(String, String)>, field: &str) -> (r: Result<Option<i64>, ServiceError>)
    ensures
        bound_valid(last_value(pairs_view(pairs@), field@)) ==> r == Ok::<Option<i64>, ServiceError>(
            bound_of(last_value(pairs_view(pairs@), field@)),
        ),
        !bound_valid(last_value(pairs_view(pairs@), field@)) ==> (r matches Err(ServiceError::Validation(e))
            && exists|c: Seq<char>| e@ == #[trigger] bound_error_text(field@, c)),
{
    let key = String::from_str(field);
    match lookup(pairs, &key) {
        None => Ok(None),
        Some(text) => match parse_integer(text.as_str()) {
            Ok(v) => Ok(Some(v)),
            Err(cause) => {
                let mut e = String::from_str("Error parsing '");
                e.append(field);
                e.append("': ");
                e.append(cause.as_str());
                assert(e@ == bound_error_text(field@, cause@));
                Err(ServiceError::Validation(e))
            },
        },
    }
}

/// Builds the time range from decoded query pairs; a present bound that is
/// not an integer fails the whole range.
pub fn range_from_pairs(pairs: &Vec<(String, String)>) -> (r: Result<TimeRange, ServiceError>)
    ensures
        range_outcome(pairs_view(pairs@), r),
{
    let before = match bound_from_pairs(pairs, "before") {
        Ok(b) => b,
        Err(e) => {
            return Err(e);
        },
    };
    let after = match bound_from_pairs(pairs, "after") {
        Ok(a) => a,
        Err(e) => {
            return Err(e);
        },
    };
    Ok(TimeRange { before, after })
}

/// Decodes an optional query string into a time range; no query means no bound.
pub fn parse_query(query: Option<&str>) -> (r: Result<TimeRange, ServiceError>)
    ensures
        query is None ==> r == Ok::<TimeRange, ServiceError>(TimeRange { before: None, after: None }),
        query matches Some(q) ==> range_outcome(form_pairs(q.spec_bytes()), r),
{
    match query {
        None => Ok(TimeRange::unbounded()),
        Some(q) => {
            let pairs = decode_pairs(q.as_bytes());
            range_from_pairs(&pairs)
        },
    }
}

} // verus!
