use vstd::prelude::*;
use crate::decode::{form_pairs, is_i64_text, last_value, missing_message_text, pending_of, range_outcome};
use crate::dispatch::{plan_outcome, refused_with, Action, Method};
use crate::filter::{is_time_ordered, lemma_sort_ordered, listed, selected, sort_by_time};
use crate::model::{Message, ServiceError, TimeRange};
use crate::respond::{item_markup, items_markup, list_outcome, page_text, Reply};

verus! {

/// A post whose form has no `message` field is refused with a validation
/// failure, and nothing is handed on to be stored.
pub proof fn lemma_post_without_message_refused(query: Option<Seq<u8>>, body: Seq<u8>, a: Action)
    requires
        last_value(form_pairs(body), "message"@) is None,
        plan_outcome(Method::Post, "/"@, query, body, a),
    ensures
        !(a is Insert),
        refused_with(a, missing_message_text()),
{
    assert(pending_of(form_pairs(body)) is None);
}

/// Every listed row comes from the store and lies inside the range: below
/// `before` where it is set, above `after` where it is set; every stored row
/// inside the range is listed; with no bound, all rows are listed. A listing
/// is in ascending timestamp order.
pub proof fn lemma_listing_matches_range(range: TimeRange, rows: Seq<Message>)
    ensures
        forall|i: int| 0 <= i < listed(range, rows).len() ==> rows.contains(
            #[trigger] listed(range, rows)[i],
        ),
        forall|i: int|
            0 <= i < listed(range, rows).len() ==> (range.before matches Some(b) ==> (
            #[trigger] listed(range, rows)[i]).timestamp < b),
        forall|i: int|
            0 <= i < listed(range, rows).len() ==> (range.after matches Some(t) ==> (
            #[trigger] listed(range, rows)[i]).timestamp > t),
        forall|j: int|
            0 <= j < rows.len() && range.admits_spec(#[trigger] rows[j].timestamp) ==> listed(
                range,
                rows,
            ).contains(rows[j]),
        range.before is None && range.after is None ==> listed(range, rows) == sort_by_time(rows),
        is_time_ordered(listed(range, rows)),
{
    broadcast use vstd::seq_lib::group_to_multiset_ensures;

    let pred = |m: Message| range.admits_spec(m.timestamp);
    let sel = selected(range, rows);
    let out = listed(range, rows);
    lemma_sort_ordered(sel);
    assert forall|i: int| 0 <= i < out.len() implies rows.contains(#[trigger] out[i])
        && range.admits_spec(out[i].timestamp) by {
        assert(out.contains(out[i]));
        vstd::seq_lib::to_multiset_contains(out, out[i]);
        vstd::seq_lib::to_multiset_contains(sel, out[i]);
        assert(sel.contains(out[i]));
        let k = choose|k: int| 0 <= k < sel.len() && sel[k] == out[i];
        rows.lemma_filter_pred(pred, k);
        rows.lemma_filter_contains_rev(pred, sel[k]);
    }
    assert forall|j: int| 0 <= j < rows.len() && range.admits_spec(
        #[trigger] rows[j].timestamp,
    ) implies out.contains(rows[j]) by {
        rows.lemma_filter_contains(pred, j);
        assert(sel.contains(rows[j]));
        vstd::seq_lib::to_multiset_contains(out, rows[j]);
        vstd::seq_lib::to_multiset_contains(sel, rows[j]);
    }
    if range.before is None && range.after is None {
        lemma_unbounded_keeps_all(range, rows);
    }
}

proof fn lemma_unbounded_keeps_all(range: TimeRange, rows: Seq<Message>)
    requires
        range.before is None,
        range.after is None,
    ensures
        selected(range, rows) == rows,
    decreases rows.len(),
{
    reveal_with_fuel(Seq::filter, 1);
    if rows.len() > 0 {
        lemma_unbounded_keeps_all(range, rows.drop_last());
        assert(rows.drop_last().push(rows.last()) == rows);
    }
}

/// A query whose `before` value is not an integer fails as a whole: the
/// decoded range is an error, and a listing request is refused without
/// loading anything.
pub proof fn lemma_bad_before_refused(query: Seq<u8>, body: Seq<u8>, r: Result<TimeRange, ServiceError>, a: Action)
    requires
        last_value(form_pairs(query), "before"@) matches Some(t) && !is_i64_text(t),
    ensures
        range_outcome(form_pairs(query), r) ==> r is Err,
        plan_outcome(Method::Get, "/"@, Some(query), body, a) ==> (a matches Action::Respond(rep)
            && rep.status == 400),
{
}

proof fn lemma_items_concat(a: Seq<Message>, b: Seq<Message>)
    ensures
        items_markup(a + b) == items_markup(a) + items_markup(b),
    decreases b.len(),
{
    if b.len() == 0 {
        assert(a + b == a);
        assert(items_markup(b) == Seq::<char>::empty());
    } else {
        lemma_items_concat(a, b.drop_last());
        assert((a + b).drop_last() == a + b.drop_last());
        assert((a + b).last() == b.last());
    }
}

/// A stored message inside the range is listed unchanged: its username,
/// timestamp and text appear as one entry of the listing page.
pub proof fn lemma_stored_message_listed(range: TimeRange, rows: Seq<Message>, m: Message)
    requires
        rows.contains(m),
        range.admits_spec(m.timestamp),
    ensures
        listed(range, rows).contains(m),
        exists|k: int|
            0 <= k && k + item_markup(m).len() <= page_text(listed(range, rows)).len()
                && #[trigger] page_text(listed(range, rows)).subrange(k, k + item_markup(m).len())
                == item_markup(m),
{
    let j = choose|j: int| 0 <= j < rows.len() && rows[j] == m;
    lemma_listing_matches_range(range, rows);
    let s = listed(range, rows);
    assert(s.contains(rows[j]));
    let i = choose|i: int| 0 <= i < s.len() && s[i] == m;
    let front = s.subrange(0, i);
    let back = s.subrange(i + 1, s.len() as int);
    assert(s == front + seq![m] + back);
    lemma_items_concat(front + seq![m], back);
    lemma_items_concat(front, seq![m]);
    assert(seq![m].drop_last() == Seq::<Message>::empty());
    assert(items_markup(seq![m]) == items_markup(Seq::<Message>::empty()) + item_markup(m));
    assert(items_markup(Seq::<Message>::empty()) == Seq::<char>::empty());
    let pre = crate::respond::page_head() + "<body><ul>"@ + items_markup(front);
    let k = pre.len() as int;
    let page = page_text(s);
    assert(page == pre + item_markup(m) + items_markup(back) + "</ul></body>"@);
    assert(page.subrange(k, k + item_markup(m).len()) == item_markup(m));
}

/// Two listings over the same stored rows with the same range reply alike.
pub proof fn lemma_listing_repeatable(range: TimeRange, rows: Vec<Message>, first: Reply, second: Reply)
    requires
        list_outcome(range, Ok(rows), first),
        list_outcome(range, Ok(rows), second),
    ensures
        first.status == second.status,
        first.content == second.content,
        first.body@ == second.body@,
{
}

} // verus!
