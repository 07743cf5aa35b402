use vstd::prelude::*;

verus! {

/// One completed transformation, as kept for display.
#[derive(Debug, Clone)]
pub struct HistoryItem {
    pub id: String,
    pub timestamp: i64,
    pub category: String,
    pub style: String,
    pub original_preview: String,
    pub optimized_preview: String,
}

/// The most entries the history keeps.
pub const MAX_HISTORY_LEN: usize = 20;

/// At most the first `MAX_HISTORY_LEN` entries of `h`.
pub open spec fn bounded(h: Seq<HistoryItem>) -> Seq<HistoryItem> {
    if h.len() > MAX_HISTORY_LEN {
        h.take(MAX_HISTORY_LEN as int)
    } else {
        h
    }
}

/// The history after `item` is inserted: newest first, oldest evicted.
pub open spec fn history_insert(h: Seq<HistoryItem>, item: HistoryItem) -> Seq<HistoryItem> {
    bounded(seq![item] + h)
}

/// The history after `items` are inserted one by one, first to last.
pub open spec fn history_insert_all(h: Seq<HistoryItem>, items: Seq<HistoryItem>) -> Seq<
    HistoryItem,
>
    decreases items.len(),
{
    if items.len() == 0 {
        h
    } else {
        history_insert(history_insert_all(h, items.drop_last()), items.last())
    }
}

/// `s` in reverse order.
pub open spec fn reversed(s: Seq<HistoryItem>) -> Seq<HistoryItem> {
    Seq::new(s.len(), |i: int| s[s.len() - 1 - i])
}

/// Inserts `item` at the front of the history and drops what falls past the
/// bound.
pub fn add_history_item(history: &mut Vec<HistoryItem>, item: HistoryItem)
    ensures
        final(history)@ == history_insert(old(history)@, item),
        final(history)@.len() <= MAX_HISTORY_LEN,
{
    history.insert(0, item);
    if history.len() > MAX_HISTORY_LEN {
        history.truncate(MAX_HISTORY_LEN);
    }
    assert(old(history)@.insert(0, item) =~= seq![item] + old(history)@);
}

/// Empties the history.
pub fn clear_history(history: &mut Vec<HistoryItem>)
    ensures
        final(history)@.len() == 0,
{
    history.clear();
}

proof fn lemma_bounded_front(item: HistoryItem, h: Seq<HistoryItem>)
    ensures
        bounded(seq![item] + bounded(h)) == bounded(seq![item] + h),
{
    assert(bounded(seq![item] + bounded(h)) =~= bounded(seq![item] + h));
}

/// Inserting items one by one into a history within the bound leaves the
/// newest first, followed by the older entries, cut to the bound; earlier
/// history entries remain only behind all new items.
pub proof fn lemma_history_insert_all(h: Seq<HistoryItem>, items: Seq<HistoryItem>)
    requires
        h.len() <= MAX_HISTORY_LEN,
    ensures
        history_insert_all(h, items) == bounded(reversed(items) + h),
    decreases items.len(),
{
    if items.len() > 0 {
        let rest = items.drop_last();
        lemma_history_insert_all(h, rest);
        lemma_bounded_front(items.last(), reversed(rest) + h);
        assert(history_insert_all(h, items) == history_insert(history_insert_all(h, rest), items.last()));
        assert(reversed(items).len() == reversed(rest).len() + 1);
        assert forall|i: int| 0 <= i < reversed(items).len() implies #[trigger] reversed(items)[i]
            == (seq![items.last()] + reversed(rest))[i] by {
            if i > 0 {
                assert(rest[rest.len() - 1 - (i - 1)] == items[items.len() - 1 - i]);
            }
        }
        assert(seq![items.last()] + reversed(rest) =~= reversed(items));
        assert(seq![items.last()] + (reversed(rest) + h) =~= reversed(items) + h);
    } else {
        assert(reversed(items) + h =~= h);
    }
}

/// After more than `MAX_HISTORY_LEN` insertions the history holds exactly the
/// `MAX_HISTORY_LEN` most recent items, newest first, whatever it held before.
pub proof fn lemma_history_keeps_most_recent(h: Seq<HistoryItem>, items: Seq<HistoryItem>)
    requires
        h.len() <= MAX_HISTORY_LEN,
        items.len() > MAX_HISTORY_LEN,
    ensures
        history_insert_all(h, items).len() == MAX_HISTORY_LEN,
        forall|i: int|
            0 <= i < MAX_HISTORY_LEN ==> #[trigger] history_insert_all(h, items)[i]
                == items[items.len() - 1 - i],
{
    lemma_history_insert_all(h, items);
}

} // verus!
