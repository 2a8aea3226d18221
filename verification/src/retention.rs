use vstd::prelude::*;

use crate::feed::FeedItem;
use crate::paths::{media_path_spec, FeedPath};

verus! {

/// The items retention keeps: all of them without a bound, else the first
/// `keep` in merged order.
pub open spec fn retained(s: Seq<FeedItem>, keep: Option<usize>) -> Seq<FeedItem> {
    match keep {
        Some(k) => if s.len() > k {
            s.take(k as int)
        } else {
            s
        },
        None => s,
    }
}

/// The items retention evicts: exactly those beyond position `keep` in
/// merged order, and none without a bound.
pub open spec fn evicted(s: Seq<FeedItem>, keep: Option<usize>) -> Seq<FeedItem> {
    match keep {
        Some(k) => if s.len() > k {
            s.skip(k as int)
        } else {
            Seq::empty()
        },
        None => Seq::empty(),
    }
}

/// Law: with a bound `k`, retention keeps at most `k` items, and the kept
/// prefix and the evicted tail split the merged list exactly at position
/// `k`; without a bound nothing is evicted.
pub proof fn lemma_retention_bound(s: Seq<FeedItem>, keep: Option<usize>)
    ensures
        keep matches Some(k) ==> retained(s, keep).len() <= k,
        retained(s, keep) + evicted(s, keep) == s,
        keep is None ==> retained(s, keep) == s && evicted(s, keep).len() == 0,
{
    assert(retained(s, keep) + evicted(s, keep) =~= s);
}

/// Truncate the item list to at most `keep` items, handing back the evicted
/// tail in order. Without a bound the list is left untouched.
pub fn apply_retention(items: &mut Vec<FeedItem>, keep: Option<usize>) -> (ev: Vec<FeedItem>)
    ensures
        final(items)@ == retained(old(items)@, keep),
        ev@ == evicted(old(items)@, keep),
{
    match keep {
        Some(k) => {
            if items.len() > k {
                items.split_off(k)
            } else {
                Vec::new()
            }
        },
        None => Vec::new(),
    }
}

/// The media file paths backing `evicted_items`, in eviction order, for the
/// caller to delete. Deletion is the caller's business and best-effort: a
/// failed delete must never abort an update nor re-add an item.
pub fn eviction_paths(evicted_items: &Vec<FeedItem>, path: &FeedPath) -> (r: Vec<String>)
    ensures
        r@.len() == evicted_items@.len(),
        forall|i: int|
            0 <= i < r@.len() ==> #[trigger] r@[i]@ == media_path_spec(
                path.parent@,
                path.stem@,
                evicted_items@[i].id@,
            ),
{
    let mut out: Vec<String> = Vec::new();
    let mut i: usize = 0;
    while i < evicted_items.len()
        invariant
            i <= evicted_items@.len(),
            out@.len() == i,
            forall|j: int|
                0 <= j < i ==> #[trigger] out@[j]@ == media_path_spec(
                    path.parent@,
                    path.stem@,
                    evicted_items@[j].id@,
                ),
        decreases evicted_items@.len() - i,
    {
        out.push(path.media_file_path(evicted_items[i].id.as_str()));
        i = i + 1;
    }
    out
}

} // verus!
