use message_board::decode::{message_from_pairs, parse_form, parse_query, range_from_pairs};
use message_board::dispatch::{oversized_reply, plan, route, Action, Method, Route};
use message_board::filter::{list_rows, select_rows, sort_rows};
use message_board::model::{Message, ServiceError, TimeRange};
use message_board::respond::{error_body_text, error_reply, list_reply, post_reply, render_page, ContentKind};

fn rows_at(stamps: &[i64]) -> Vec<Message> {
    stamps
        .iter()
        .map(|t| Message::new(format!("user{}", t), format!("text{}", t), *t))
        .collect()
}

fn stamps_of(rows: &[Message]) -> Vec<i64> {
    rows.iter().map(|m| m.timestamp).collect()
}

fn validation_text(e: ServiceError) -> String {
    match e {
        ServiceError::Validation(m) => m,
        ServiceError::Persistence(m) => panic!("unexpected persistence error {}", m),
    }
}

#[test]
fn form_without_username_defaults_to_anonymous() {
    let n = parse_form(b"message=hi").ok().unwrap();
    assert_eq!(n.username, "anonymous");
    assert_eq!(n.message, "hi");
}

#[test]
fn form_with_username_and_decoding() {
    let n = parse_form(b"username=bob&message=a%20b+c%21").ok().unwrap();
    assert_eq!(n.username, "bob");
    assert_eq!(n.message, "a b c!");
}

#[test]
fn form_repeated_field_keeps_last() {
    let n = parse_form(b"message=first&message=second").ok().unwrap();
    assert_eq!(n.message, "second");
}

#[test]
fn form_without_message_is_validation_error() {
    let e = parse_form(b"username=bob").err().unwrap();
    assert_eq!(validation_text(e), "missing field 'message'");
    let e = parse_form(b"").err().unwrap();
    assert_eq!(validation_text(e), "missing field 'message'");
}

#[test]
fn pairs_to_message_directly() {
    let pairs = vec![("message".to_string(), "x".to_string()), ("username".to_string(), "".to_string())];
    let n = message_from_pairs(&pairs).ok().unwrap();
    assert_eq!(n.username, "");
    assert_eq!(n.message, "x");
}

#[test]
fn query_absent_or_empty_is_unbounded() {
    let r = parse_query(None).ok().unwrap();
    assert_eq!(r, TimeRange { before: None, after: None });
    let r = parse_query(Some("")).ok().unwrap();
    assert_eq!(r, TimeRange { before: None, after: None });
}

#[test]
fn query_both_bounds() {
    let r = parse_query(Some("before=10&after=3")).ok().unwrap();
    assert_eq!(r, TimeRange { before: Some(10), after: Some(3) });
    let r = parse_query(Some("before=-5&after=%2B7")).ok().unwrap();
    assert_eq!(r, TimeRange { before: Some(-5), after: Some(7) });
}

#[test]
fn query_extreme_values() {
    let r = parse_query(Some("before=9223372036854775807&after=-9223372036854775808")).ok().unwrap();
    assert_eq!(r, TimeRange { before: Some(i64::MAX), after: Some(i64::MIN) });
    let e = parse_query(Some("before=9223372036854775808")).err().unwrap();
    assert_eq!(validation_text(e), "Error parsing 'before': number too large to fit in target type");
}

#[test]
fn query_non_numeric_before_fails() {
    let e = parse_query(Some("before=abc&after=3")).err().unwrap();
    assert_eq!(validation_text(e), "Error parsing 'before': invalid digit found in string");
}

#[test]
fn query_non_numeric_after_fails() {
    let e = parse_query(Some("before=3&after=1x")).err().unwrap();
    assert_eq!(validation_text(e), "Error parsing 'after': invalid digit found in string");
    let e = parse_query(Some("after=")).err().unwrap();
    assert_eq!(validation_text(e), "Error parsing 'after': cannot parse integer from empty string");
}

#[test]
fn range_from_pairs_before_checked_first() {
    let pairs = vec![("after".to_string(), "q".to_string()), ("before".to_string(), "z".to_string())];
    let e = range_from_pairs(&pairs).err().unwrap();
    assert!(validation_text(e).starts_with("Error parsing 'before': "));
}

#[test]
fn filter_before_only() {
    let rows = rows_at(&[1, 2, 3, 4, 5]);
    let kept = select_rows(&TimeRange { before: Some(4), after: None }, &rows);
    assert_eq!(stamps_of(&kept), vec![1, 2, 3]);
}

#[test]
fn filter_after_only() {
    let rows = rows_at(&[1, 2, 3, 4, 5]);
    let kept = select_rows(&TimeRange { before: None, after: Some(2) }, &rows);
    assert_eq!(stamps_of(&kept), vec![3, 4, 5]);
}

#[test]
fn filter_both_is_intersection() {
    let rows = rows_at(&[1, 2, 3, 4, 5]);
    let kept = select_rows(&TimeRange { before: Some(5), after: Some(2) }, &rows);
    assert_eq!(stamps_of(&kept), vec![3, 4]);
    let kept = select_rows(&TimeRange { before: Some(2), after: Some(4) }, &rows);
    assert!(kept.is_empty());
}

#[test]
fn filter_none_keeps_all() {
    let rows = rows_at(&[5, 1, 3]);
    let kept = select_rows(&TimeRange { before: None, after: None }, &rows);
    assert_eq!(stamps_of(&kept), vec![5, 1, 3]);
    assert_eq!(kept[1].username, "user1");
    assert_eq!(kept[1].message, "text1");
}

#[test]
fn admits_is_exclusive() {
    let r = TimeRange { before: Some(10), after: Some(5) };
    assert!(!r.admits(10));
    assert!(!r.admits(5));
    assert!(r.admits(6));
    assert!(TimeRange::unbounded().admits(i64::MIN));
}

#[test]
fn page_exact_text() {
    let rows = vec![Message::new("anonymous".to_string(), "hi".to_string(), 5), Message::new("bob".to_string(), "yo".to_string(), -12)];
    let page = render_page(&rows);
    assert_eq!(
        page,
        "<head><title>microservice</title><style>body {font-family:monospace}</style></head><body><ul><li>anonymous (5): hi</li><li>bob (-12): yo</li></ul></body>"
    );
}

#[test]
fn page_empty() {
    let page = render_page(&Vec::new());
    assert_eq!(page, "<head><title>microservice</title><style>body {font-family:monospace}</style></head><body><ul></ul></body>");
}

#[test]
fn page_escapes_markup() {
    let rows = vec![Message::new("<b>".to_string(), "a & \"b\"".to_string(), 1)];
    let page = render_page(&rows);
    assert!(page.contains("<li>&lt;b&gt; (1): a &amp; &quot;b&quot;</li>"));
}

#[test]
fn post_reply_gives_timestamp_json() {
    let r = post_reply(Ok(1700000000123));
    assert_eq!(r.status, 200);
    assert_eq!(r.content, ContentKind::Json);
    assert_eq!(r.body, "{\"timestamp\":1700000000123}");
    let r = post_reply(Ok(-3));
    assert_eq!(r.body, "{\"timestamp\":-3}");
}

#[test]
fn post_reply_persistence_failure() {
    let r = post_reply(Err(ServiceError::Persistence("service error".to_string())));
    assert_eq!(r.status, 500);
    assert_eq!(r.content, ContentKind::Json);
    assert_eq!(r.body, "{\"error\":\"service error\"}");
}

#[test]
fn error_reply_validation_escapes_json() {
    let r = error_reply(ServiceError::Validation("bad \"x\"\n".to_string()));
    assert_eq!(r.status, 400);
    assert_eq!(r.body, "{\"error\":\"bad \\\"x\\\"\\n\"}");
}

#[test]
fn error_body_wraps_quoted_text() {
    assert_eq!(error_body_text("\"m\""), "{\"error\":\"m\"}");
}

#[test]
fn list_reply_failure() {
    let r = list_reply(&TimeRange::unbounded(), Err(ServiceError::Persistence("store unavailable".to_string())));
    assert_eq!(r.status, 500);
    assert_eq!(r.content, ContentKind::Json);
    assert_eq!(r.body, "{\"error\":\"store unavailable\"}");
}

#[test]
fn routes() {
    assert_eq!(route(Method::Post, "/"), Route::Create);
    assert_eq!(route(Method::Get, "/"), Route::List);
    assert_eq!(route(Method::Other, "/"), Route::MethodNotAllowed);
    assert_eq!(route(Method::Get, "/messages"), Route::NotFound);
    assert_eq!(route(Method::Post, ""), Route::NotFound);
}

#[test]
fn plan_post_inserts() {
    match plan(Method::Post, "/", None, b"username=ann&message=hello") {
        Action::Insert(n) => {
            assert_eq!(n.username, "ann");
            assert_eq!(n.message, "hello");
        },
        _ => panic!("expected an insert"),
    }
}

#[test]
fn plan_post_without_message_refused() {
    match plan(Method::Post, "/", None, b"username=ann") {
        Action::Respond(r) => {
            assert_eq!(r.status, 400);
            assert_eq!(r.body, "{\"error\":\"missing field 'message'\"}");
        },
        _ => panic!("expected a refusal"),
    }
}

#[test]
fn plan_list_with_bad_before_refused() {
    match plan(Method::Get, "/", Some("before=soon"), b"") {
        Action::Respond(r) => {
            assert_eq!(r.status, 400);
            assert_eq!(r.body, "{\"error\":\"Error parsing 'before': invalid digit found in string\"}");
        },
        _ => panic!("expected a refusal"),
    }
}

#[test]
fn plan_list_loads_range() {
    match plan(Method::Get, "/", Some("after=4"), b"") {
        Action::Load(t) => assert_eq!(t, TimeRange { before: None, after: Some(4) }),
        _ => panic!("expected a load"),
    }
}

#[test]
fn plan_unknown_path_and_method() {
    match plan(Method::Get, "/nope", None, b"") {
        Action::Respond(r) => {
            assert_eq!(r.status, 404);
            assert_eq!(r.body, "{\"error\":\"not found\"}");
        },
        _ => panic!("expected not found"),
    }
    match plan(Method::Other, "/", None, b"") {
        Action::Respond(r) => assert_eq!(r.status, 405),
        _ => panic!("expected method not allowed"),
    }
}

#[test]
fn post_then_list_shows_anonymous_entry() {
    let n = match plan(Method::Post, "/", None, b"message=hi") {
        Action::Insert(n) => n,
        _ => panic!("expected an insert"),
    };
    let stamp: i64 = 1234;
    let reply = post_reply(Ok(stamp));
    assert_eq!(reply.body, "{\"timestamp\":1234}");
    let stored = vec![Message::new(n.username, n.message, stamp)];
    let listing = list_reply(&TimeRange::unbounded(), Ok(stored));
    assert_eq!(listing.status, 200);
    assert_eq!(listing.content, ContentKind::Html);
    assert!(listing.body.contains("anonymous (1234): hi"));
}

#[test]
fn posted_fields_round_trip() {
    let n = parse_form(b"username=carol&message=see+you").ok().unwrap();
    let mut stored = rows_at(&[1, 2]);
    stored.push(Message::new(n.username, n.message, 3));
    let range = parse_query(Some("after=2")).ok().unwrap();
    let listing = list_reply(&range, Ok(stored));
    assert!(listing.body.contains("<li>carol (3): see you</li>"));
    assert!(!listing.body.contains("user2"));
}

#[test]
fn repeated_listing_is_identical() {
    let range = TimeRange { before: Some(4), after: Some(1) };
    let first = list_reply(&range, Ok(rows_at(&[1, 2, 3, 4])));
    let second = list_reply(&range, Ok(rows_at(&[1, 2, 3, 4])));
    assert_eq!(first.status, second.status);
    assert_eq!(first.body, second.body);
    let again = select_rows(&range, &select_rows(&range, &rows_at(&[1, 2, 3, 4])));
    assert_eq!(stamps_of(&again), vec![2, 3]);
}

#[test]
fn sort_orders_by_timestamp_stably() {
    let rows = vec![
        Message::new("a".to_string(), "1".to_string(), 9),
        Message::new("b".to_string(), "2".to_string(), 3),
        Message::new("c".to_string(), "3".to_string(), 9),
        Message::new("d".to_string(), "4".to_string(), -1),
    ];
    let sorted = sort_rows(rows);
    assert_eq!(stamps_of(&sorted), vec![-1, 3, 9, 9]);
    let names: Vec<&str> = sorted.iter().map(|m| m.username.as_str()).collect();
    assert_eq!(names, vec!["d", "b", "a", "c"]);
}

#[test]
fn listing_filters_then_orders() {
    let rows = rows_at(&[7, 2, 9, 4, 1]);
    let out = list_rows(&TimeRange { before: Some(9), after: Some(1) }, &rows);
    assert_eq!(stamps_of(&out), vec![2, 4, 7]);
    let reply = list_reply(&TimeRange::unbounded(), Ok(rows_at(&[3, 1])));
    let first = reply.body.find("user1").unwrap();
    let second = reply.body.find("user3").unwrap();
    assert!(first < second);
}

#[test]
fn oversized_body_gets_a_reply() {
    let r = oversized_reply();
    assert_eq!(r.status, 413);
    assert_eq!(r.content, ContentKind::Json);
    assert_eq!(r.body, "{\"error\":\"request body too large\"}");
}

#[test]
fn error_reply_keeps_message_exactly() {
    let r = error_reply(ServiceError::Persistence("a\\b\u{1}".to_string()));
    assert_eq!(r.status, 500);
    assert_eq!(r.body, "{\"error\":\"a\\\\b\\u0001\"}");
    let r = post_reply(Err(ServiceError::Validation("missing field 'message'".to_string())));
    assert_eq!(r.status, 400);
    assert_eq!(r.body, "{\"error\":\"missing field 'message'\"}");
}
