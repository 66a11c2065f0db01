use vstd::prelude::*;
use crate::filter::{list_rows, listed};
use crate::model::{Message, ServiceError, TimeRange};

verus! {

/// How a character reads in HTML text.
pub open spec fn escape_char(c: char) -> Seq<char> {
    if c == '&' {
        "&amp;"@
    } else if c == '<' {
        "&lt;"@
    } else if c == '>' {
        "&gt;"@
    } else if c == '"' {
        "&quot;"@
    } else {
        seq![c]
    }
}

/// A text escaped for HTML, character by character.
pub open spec fn escaped(s: Seq<char>) -> Seq<char>
    decreases s.len(),
{
    if s.len() == 0 {
        Seq::empty()
    } else {
        escaped(s.drop_last()) + escape_char(s.last())
    }
}

/// Relies on maud's `Render` for `str`, which escapes `&`, `<`, `>` and `"`
/// and copies every other character.
#[verifier::external_body]
fn escape_html(s: &str) -> (r: String)
    ensures
        r@ == escaped(s@),
{
    maud::Render::render(s).into_string()
}

pub open spec fn digit_char(d: nat) -> char {
    ((d + 48) as u8) as char
}

/// The decimal digits of a natural number, without leading zeros.
pub open spec fn digits_text(n: nat) -> Seq<char>
    decreases n,
{
    if n < 10 {
        seq![digit_char(n)]
    } else {
        digits_text(n / 10) + seq![digit_char(n % 10)]
    }
}

/// The decimal text of an integer, with `-` before a negative one.
pub open spec fn decimal_of(n: int) -> Seq<char> {
    if n < 0 {
        seq!['-'] + digits_text((-n) as nat)
    } else {
        digits_text(n as nat)
    }
}

/// Relies on `i64`'s `Display` (through `to_string`): its decimal text.
#[verifier::external_body]
fn decimal_text(n: i64) -> (r: String)
    ensures
        r@ == decimal_of(n as int),
{
    n.to_string()
}

/// A lower-case hexadecimal digit.
pub open spec fn hex_char(d: int) -> char {
    if d < 10 {
        ((d + 48) as u8) as char
    } else {
        ((d + 87) as u8) as char
    }
}

/// How a character reads inside a JSON string literal: quote and backslash
/// escaped, the usual short escapes, other control characters as `\u00XX`.
pub open spec fn json_escape_char(c: char) -> Seq<char> {
    if c == '"' {
        seq!['\\', '"']
    } else if c == '\\' {
        seq!['\\', '\\']
    } else if c == '\u{8}' {
        seq!['\\', 'b']
    } else if c == '\t' {
        seq!['\\', 't']
    } else if c == '\n' {
        seq!['\\', 'n']
    } else if c == '\u{c}' {
        seq!['\\', 'f']
    } else if c == '\r' {
        seq!['\\', 'r']
    } else if (c as int) < 32 {
        seq!['\\', 'u', '0', '0', hex_char((c as int) / 16), hex_char((c as int) % 16)]
    } else {
        seq![c]
    }
}

pub open spec fn json_escaped(s: Seq<char>) -> Seq<char>
    decreases s.len(),
{
    if s.len() == 0 {
        Seq::empty()
    } else {
        json_escaped(s.drop_last()) + json_escape_char(s.last())
    }
}

/// A text as a JSON string literal, quoted and escaped.
pub open spec fn json_quoted(s: Seq<char>) -> Seq<char> {
    seq!['"'] + json_escaped(s) + seq!['"']
}

/// Relies on serde_json::to_string on a `str` (its compact formatter): the
/// JSON string literal for it. Serialising a `str` into the `Vec` that
/// `to_string` writes to cannot fail, so the default is never taken.
#[verifier::external_body]
fn quote_json(s: &str) -> (r: String)
    ensures
        r@ == json_quoted(s@),
{
    serde_json::to_string(s).unwrap_or_default()
}

/// The kind of body a reply carries.
#[derive(Clone, Copy, Debug, PartialEq, Eq, Structural)]
pub enum ContentKind {
    Json,
    Html,
}

/// A response to send: status code, body kind and body.
pub struct Reply {
    pub status: u16,
    pub content: ContentKind,
    pub body: String,
}

pub open spec fn error_status(e: ServiceError) -> u16 {
    match e {
        ServiceError::Validation(_) => 400,
        ServiceError::Persistence(_) => 500,
    }
}

pub open spec fn error_message(e: ServiceError) -> Seq<char> {
    match e {
        ServiceError::Validation(m) => m@,
        ServiceError::Persistence(m) => m@,
    }
}

pub open spec fn error_body(message: Seq<char>) -> Seq<char> {
    "{\"error\":"@ + json_quoted(message) + "}"@
}

pub open spec fn timestamp_body(timestamp: i64) -> Seq<char> {
    "{\"timestamp\":"@ + decimal_of(timestamp as int) + "}"@
}

/// The JSON error body around an encoded message.
pub fn error_body_text(quoted: &str) -> (r: String)
    ensures
        r@ == "{\"error\":"@ + quoted@ + "}"@,
{
    let mut b = String::from_str("{\"error\":");
    b.append(quoted);
    b.append("}");
    b
}

/// The JSON reply for a failure: 400 for a malformed request, 500 for the
/// store, with the message under `error`.
pub fn error_reply(e: ServiceError) -> (r: Reply)
    ensures
        r.status == error_status(e),
        r.content == ContentKind::Json,
        r.body@ == error_body(error_message(e)),
{
    let (status, message) = match e {
        ServiceError::Validation(m) => (400u16, m),
        ServiceError::Persistence(m) => (500u16, m),
    };
    let quoted = quote_json(message.as_str());
    let body = error_body_text(quoted.as_str());
    Reply { status, content: ContentKind::Json, body }
}

/// The reply to a post: the assigned timestamp as JSON, or the error.
pub fn post_reply(result: Result<i64, ServiceError>) -> (r: Reply)
    ensures
        result matches Ok(t) ==> r.status == 200 && r.content == ContentKind::Json && r.body@
            == timestamp_body(t),
        result matches Err(e) ==> r.status == error_status(e) && r.content == ContentKind::Json
            && r.body@ == error_body(error_message(e)),
{
    match result {
        Ok(t) => {
            let mut b = String::from_str("{\"timestamp\":");
            let digits = decimal_text(t);
            b.append(digits.as_str());
            b.append("}");
            Reply { status: 200, content: ContentKind::Json, body: b }
        },
        Err(e) => error_reply(e),
    }
}

/// How one message reads in a listing: `<username> (<timestamp>): <message>`.
pub open spec fn entry_text(m: Message) -> Seq<char> {
    escaped(m.username@) + " ("@ + decimal_of(m.timestamp as int) + "): "@ + escaped(m.message@)
}

pub open spec fn item_markup(m: Message) -> Seq<char> {
    "<li>"@ + entry_text(m) + "</li>"@
}

/// One list item per message, in order.
pub open spec fn items_markup(rows: Seq<Message>) -> Seq<char>
    decreases rows.len(),
{
    if rows.len() == 0 {
        Seq::empty()
    } else {
        items_markup(rows.drop_last()) + item_markup(rows.last())
    }
}

pub open spec fn page_head() -> Seq<char> {
    "<head><title>microservice</title><style>body {font-family:monospace}</style></head>"@
}

/// The listing page for the given messages.
pub open spec fn page_text(rows: Seq<Message>) -> Seq<char> {
    page_head() + "<body><ul>"@ + items_markup(rows) + "</ul></body>"@
}

/// Renders one message as a list item.
fn render_item(m: &Message) -> (r: String)
    ensures
        r@ == item_markup(*m),
{
    let mut s = String::from_str("<li>");
    let user = escape_html(m.username.as_str());
    s.append(user.as_str());
    s.append(" (");
    let stamp = decimal_text(m.timestamp);
    s.append(stamp.as_str());
    s.append("): ");
    let text = escape_html(m.message.as_str());
    s.append(text.as_str());
    s.append("</li>");
    s
}

/// Renders the listing page, one entry per message in the order given.
pub fn render_page(rows: &Vec<Message>) -> (r: String)
    ensures
        r@ == page_text(rows@),
{
    let mut items = String::new();
    let mut i: usize = 0;
    while i < rows.len()
        invariant
            i <= rows@.len(),
            items@ == items_markup(rows@.subrange(0, i as int)),
        decreases rows@.len() - i,
    {
        assert(rows@.subrange(0, i + 1).drop_last() == rows@.subrange(0, i as int));
        let item = render_item(&rows[i]);
        items.append(item.as_str());
        i = i + 1;
    }
    assert(rows@.subrange(0, rows@.len() as int) == rows@);
    let mut page = String::from_str("<head><title>microservice</title><style>body {font-family:monospace}</style></head>");
    page.append("<body><ul>");
    page.append(items.as_str());
    page.append("</ul></body>");
    page
}

/// What listing replies: the page of the loaded rows that the range admits,
/// oldest first, or the error.
pub open spec fn list_outcome(range: TimeRange, loaded: Result<Vec<Message>, ServiceError>, r: Reply) -> bool {
    match loaded {
        Ok(rows) => r.status == 200 && r.content == ContentKind::Html && r.body@ == page_text(
            listed(range, rows@),
        ),
        Err(e) => r.status == error_status(e) && r.content == ContentKind::Json && r.body@
            == error_body(error_message(e)),
    }
}

/// The listing reply: the page of the loaded rows that the range admits,
/// oldest first, or the error.
pub fn list_reply(range: &TimeRange, loaded: Result<Vec<Message>, ServiceError>) -> (r: Reply)
    ensures
        list_outcome(*range, loaded, r),
{
    match loaded {
        Ok(rows) => {
            let kept = list_rows(range, &rows);
            let body = render_page(&kept);
            Reply { status: 200, content: ContentKind::Html, body }
        },
        Err(e) => error_reply(e),
    }
}

} // verus!
