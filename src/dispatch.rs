use vstd::prelude::*;
use vstd::string::StringSliceAdditionalSpecFns;
use crate::decode::{bound_error_text, bound_of, bound_valid, form_pairs, last_value, missing_message_text, parse_form, parse_query, pending_of};
use crate::model::{NewMessage, TimeRange};
use crate::respond::{error_body, error_reply, ContentKind, Reply};

verus! {

/// The request methods the service tells apart.
#[derive(Clone, Copy, Debug, PartialEq, Eq, Structural)]
pub enum Method {
    Get,
    Post,
    Other,
}

/// The flow a request goes to.
#[derive(Clone, Copy, Debug, PartialEq, Eq, Structural)]
pub enum Route {
    Create,
    List,
    NotFound,
    MethodNotAllowed,
}

pub open spec fn route_of(method: Method, path: Seq<char>) -> Route {
    if path == "/"@ {
        match method {
            Method::Post => Route::Create,
            Method::Get => Route::List,
            Method::Other => Route::MethodNotAllowed,
        }
    } else {
        Route::NotFound
    }
}

/// Picks the flow for a method and path: `POST /` creates, `GET /` lists.
pub fn route(method: Method, path: &str) -> (r: Route)
    ensures
        r == route_of(method, path@),
{
    proof {
        reveal_strlit("/");
    }
    let is_root = path.unicode_len() == 1 && path.get_char(0) == '/';
    assert(is_root ==> path@ =~= "/"@);
    if !is_root {
        Route::NotFound
    } else {
        match method {
            Method::Post => Route::Create,
            Method::Get => Route::List,
            Method::Other => Route::MethodNotAllowed,
        }
    }
}

/// What the service does next for a request.
pub enum Action {
    /// Store the message and reply with its timestamp.
    Insert(NewMessage),
    /// Load the messages in the range and reply with the listing.
    Load(TimeRange),
    /// Reply at once.
    Respond(Reply),
}

pub open spec fn not_found_body() -> Seq<char> {
    "{\"error\":\"not found\"}"@
}

pub open spec fn not_allowed_body() -> Seq<char> {
    "{\"error\":\"method not allowed\"}"@
}

pub open spec fn too_large_body() -> Seq<char> {
    "{\"error\":\"request body too large\"}"@
}

/// The reply to a request whose body exceeds the size the server accepts.
pub fn oversized_reply() -> (r: Reply)
    ensures
        r.status == 413,
        r.content == ContentKind::Json,
        r.body@ == too_large_body(),
{
    Reply {
        status: 413,
        content: ContentKind::Json,
        body: String::from_str("{\"error\":\"request body too large\"}"),
    }
}

pub open spec fn refused_with(a: Action, message: Seq<char>) -> bool {
    a matches Action::Respond(rep) && rep.status == 400 && rep.content == ContentKind::Json
        && rep.body@ == error_body(message)
}

pub open spec fn query_bytes(query: Option<&str>) -> Option<Seq<u8>> {
    match query {
        Some(q) => Some(q.spec_bytes()),
        None => None,
    }
}

/// What a request leads to, given its method, path, query bytes and body bytes.
pub open spec fn plan_outcome(method: Method, path: Seq<char>, query: Option<Seq<u8>>, body: Seq<u8>, a: Action) -> bool {
    match route_of(method, path) {
        Route::Create => match pending_of(form_pairs(body)) {
            Some((u, m)) => a matches Action::Insert(n) && n.username@ == u && n.message@ == m,
            None => refused_with(a, missing_message_text()),
        },
        Route::List => match query {
            None => a == Action::Load(TimeRange { before: None, after: None }),
            Some(q) => {
                let b = last_value(form_pairs(q), "before"@);
                let t = last_value(form_pairs(q), "after"@);
                if !bound_valid(b) {
                    exists|c: Seq<char>| #[trigger] refused_with(a, bound_error_text("before"@, c))
                } else if !bound_valid(t) {
                    exists|c: Seq<char>| #[trigger] refused_with(a, bound_error_text("after"@, c))
                } else {
                    a == Action::Load(TimeRange { before: bound_of(b), after: bound_of(t) })
                }
            },
        },
        Route::NotFound => a matches Action::Respond(rep) && rep.status == 404 && rep.content
            == ContentKind::Json && rep.body@ == not_found_body(),
        Route::MethodNotAllowed => a matches Action::Respond(rep) && rep.status == 405
            && rep.content == ContentKind::Json && rep.body@ == not_allowed_body(),
    }
}

/// Decides what to do with a request: decode the body of a post, the query
/// of a listing, or refuse a path or method that has no flow.
pub fn plan(method: Method, path: &str, query: Option<&str>, body: &[u8]) -> (a: Action)
    ensures
        plan_outcome(method, path@, query_bytes(query), body@, a),
{
    match route(method, path) {
        Route::Create => match parse_form(body) {
            Ok(n) => Action::Insert(n),
            Err(e) => Action::Respond(error_reply(e)),
        },
        Route::List => match parse_query(query) {
            Ok(t) => Action::Load(t),
            Err(e) => {
                let ghost message = crate::respond::error_message(e);
                let a = Action::Respond(error_reply(e));
                assert(refused_with(a, message));
                a
            },
        },
        Route::NotFound => Action::Respond(
            Reply {
                status: 404,
                content: ContentKind::Json,
                body: String::from_str("{\"error\":\"not found\"}"),
            },
        ),
        Route::MethodNotAllowed => Action::Respond(
            Reply {
                status: 405,
                content: ContentKind::Json,
                body: String::from_str("{\"error\":\"method not allowed\"}"),
            },
        ),
    }
}

} // verus!
