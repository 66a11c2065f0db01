use vstd::prelude::*;
use crate::model::{Message, TimeRange};

verus! {

/// The rows of `rows` whose timestamps the range admits, in their order.
pub open spec fn selected(range: TimeRange, rows: Seq<Message>) -> Seq<Message> {
    rows.filter(|m: Message| range.admits_spec(m.timestamp))
}

/// Keeps the rows whose timestamps lie inside the range, in the order given.
pub fn select_rows(range: &TimeRange, rows: &Vec<Message>) -> (r: Vec<Message>)
    ensures
        r@ == selected(*range, rows@),
{
    let mut out: Vec<Message> = Vec::new();
    let mut i: usize = 0;
    while i < rows.len()
        invariant
            i <= rows@.len(),
            out@ == selected(*range, rows@.subrange(0, i as int)),
        decreases rows@.len() - i,
    {
        let ghost before_step = rows@.subrange(0, i as int);
        assert(rows@.subrange(0, i + 1) == before_step.push(rows@[i as int]));
        proof {
            before_step.lemma_filter_push(rows@[i as int], |m: Message| range.admits_spec(m.timestamp));
        }
        if range.admits(rows[i].timestamp) {
            out.push(rows[i].duplicate());
        }
        i = i + 1;
    }
    assert(rows@.subrange(0, rows@.len() as int) == rows@);
    out
}

/// `m` placed into `s` after every message no later than it, so that equal
/// timestamps keep the order in which they came.
pub open spec fn insert_by_time(s: Seq<Message>, m: Message) -> Seq<Message>
    decreases s.len(),
{
    if s.len() == 0 {
        seq![m]
    } else if s.last().timestamp <= m.timestamp {
        s.push(m)
    } else {
        insert_by_time(s.drop_last(), m).push(s.last())
    }
}

/// The messages in ascending timestamp order; equal timestamps keep their order.
pub open spec fn sort_by_time(rows: Seq<Message>) -> Seq<Message>
    decreases rows.len(),
{
    if rows.len() == 0 {
        Seq::empty()
    } else {
        insert_by_time(sort_by_time(rows.drop_last()), rows.last())
    }
}

pub open spec fn is_time_ordered(s: Seq<Message>) -> bool {
    forall|i: int, j: int| 0 <= i < j < s.len() ==> s[i].timestamp <= s[j].timestamp
}

/// What a listing holds: the rows inside the range, in ascending timestamp order.
pub open spec fn listed(range: TimeRange, rows: Seq<Message>) -> Seq<Message> {
    sort_by_time(selected(range, rows))
}

/// Places one message into an ordered list after every message no later than it.
fn insert_in_order(out: &mut Vec<Message>, m: Message)
    ensures
        final(out)@ == insert_by_time(old(out)@, m),
{
    let ghost s = out@;
    let mut j: usize = out.len();
    assert(s.subrange(0, s.len() as int) == s);
    assert(s.subrange(s.len() as int, s.len() as int) == Seq::<Message>::empty());
    while j > 0 && out[j - 1].timestamp > m.timestamp
        invariant
            j <= s.len(),
            out@ == s,
            insert_by_time(s, m) == insert_by_time(s.subrange(0, j as int), m) + s.subrange(
                j as int,
                s.len() as int,
            ),
        decreases j,
    {
        let ghost front = s.subrange(0, j as int);
        assert(front.drop_last() == s.subrange(0, j - 1));
        assert(s.subrange(j - 1, s.len() as int) == seq![s[j - 1]] + s.subrange(j as int, s.len() as int));
        assert(insert_by_time(front, m) == insert_by_time(s.subrange(0, j - 1), m).push(s[j - 1]));
        assert(insert_by_time(s.subrange(0, j - 1), m).push(s[j - 1]) + s.subrange(j as int, s.len() as int)
            == insert_by_time(s.subrange(0, j - 1), m) + s.subrange(j - 1, s.len() as int));
        j = j - 1;
    }
    let ghost front = s.subrange(0, j as int);
    if j > 0 {
        assert(front.last() == s[j - 1]);
        assert(insert_by_time(front, m) == front.push(m));
    }
    out.insert(j, m);
    assert(out@ == front.push(m) + s.subrange(j as int, s.len() as int));
}

/// Orders messages by ascending timestamp; equal timestamps keep their order.
pub fn sort_rows(rows: Vec<Message>) -> (r: Vec<Message>)
    ensures
        r@ == sort_by_time(rows@),
{
    let mut out: Vec<Message> = Vec::new();
    let mut i: usize = 0;
    while i < rows.len()
        invariant
            i <= rows@.len(),
            out@ == sort_by_time(rows@.subrange(0, i as int)),
        decreases rows@.len() - i,
    {
        assert(rows@.subrange(0, i + 1).drop_last() == rows@.subrange(0, i as int));
        insert_in_order(&mut out, rows[i].duplicate());
        i = i + 1;
    }
    assert(rows@.subrange(0, rows@.len() as int) == rows@);
    out
}

/// The listing of the stored rows for a range: the rows inside it, oldest first.
pub fn list_rows(range: &TimeRange, rows: &Vec<Message>) -> (r: Vec<Message>)
    ensures
        r@ == listed(*range, rows@),
{
    sort_rows(select_rows(range, rows))
}

pub proof fn lemma_insert_bounded(s: Seq<Message>, m: Message, bound: i64)
    requires
        forall|i: int| 0 <= i < s.len() ==> #[trigger] s[i].timestamp <= bound,
        m.timestamp <= bound,
    ensures
        forall|i: int|
            0 <= i < insert_by_time(s, m).len() ==> #[trigger] insert_by_time(s, m)[i].timestamp
                <= bound,
    decreases s.len(),
{
    let r = insert_by_time(s, m);
    if s.len() == 0 {
        assert(r[0] == m);
    } else if s.last().timestamp <= m.timestamp {
        assert forall|i: int| 0 <= i < r.len() implies #[trigger] r[i].timestamp <= bound by {
            if i < s.len() {
                assert(r[i] == s[i]);
            }
        }
    } else {
        let rest = s.drop_last();
        assert forall|i: int| 0 <= i < rest.len() implies #[trigger] rest[i].timestamp <= bound by {
            assert(rest[i] == s[i]);
        }
        lemma_insert_bounded(rest, m, bound);
        let inner = insert_by_time(rest, m);
        assert forall|i: int| 0 <= i < r.len() implies #[trigger] r[i].timestamp <= bound by {
            if i < inner.len() {
                assert(r[i] == inner[i]);
            } else {
                assert(r[i] == s.last());
            }
        }
    }
}

pub proof fn lemma_insert_ordered(s: Seq<Message>, m: Message)
    requires
        is_time_ordered(s),
    ensures
        is_time_ordered(insert_by_time(s, m)),
        insert_by_time(s, m).to_multiset() == s.to_multiset().insert(m),
    decreases s.len(),
{
    broadcast use vstd::seq_lib::group_to_multiset_ensures;

    if s.len() == 0 {
        assert(seq![m] == Seq::<Message>::empty().push(m));
    } else if s.last().timestamp <= m.timestamp {
    } else {
        let rest = s.drop_last();
        assert(rest.push(s.last()) == s);
        lemma_insert_ordered(rest, m);
        lemma_insert_bounded(rest, m, s.last().timestamp);
        assert(insert_by_time(s, m).to_multiset() =~= s.to_multiset().insert(m));
    }
}

/// Sorting orders the messages by time and keeps every one of them, as often as it occurs.
pub proof fn lemma_sort_ordered(rows: Seq<Message>)
    ensures
        is_time_ordered(sort_by_time(rows)),
        sort_by_time(rows).to_multiset() == rows.to_multiset(),
    decreases rows.len(),
{
    broadcast use vstd::seq_lib::group_to_multiset_ensures;

    if rows.len() > 0 {
        let rest = rows.drop_last();
        assert(rest.push(rows.last()) == rows);
        lemma_sort_ordered(rest);
        lemma_insert_ordered(sort_by_time(rest), rows.last());
    }
}

} // verus!
