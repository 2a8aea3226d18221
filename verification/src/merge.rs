use vstd::prelude::*;

use crate::error::Error;
use crate::feed::{contains_id, unique_ids, FeedChannel, FeedItem};
use crate::fetch::ToolInfo;

verus! {

/// Stable deduplication by id: of entries sharing an id, exactly the first
/// one survives, and the relative order of survivors is the input order.
pub open spec fn dedup_keep_first(s: Seq<FeedItem>) -> Seq<FeedItem>
    decreases s.len(),
{
    if s.len() == 0 {
        Seq::empty()
    } else {
        let prefix = dedup_keep_first(s.drop_last());
        if contains_id(s.drop_last(), s.last().id@) {
            prefix
        } else {
            prefix.push(s.last())
        }
    }
}

/// Appending an item extends the id set by exactly that item's id.
pub proof fn lemma_contains_id_push(s: Seq<FeedItem>, x: FeedItem, k: Seq<char>)
    ensures
        contains_id(s.push(x), k) <==> (contains_id(s, k) || x.id@ == k),
{
    if contains_id(s, k) {
        let i = choose|i: int| 0 <= i < s.len() && s[i].id@ == k;
        assert(s.push(x)[i].id@ == k);
    }
    if x.id@ == k {
        assert(s.push(x)[s.len() as int].id@ == k);
    }
    if contains_id(s.push(x), k) {
        let i = choose|i: int| 0 <= i < s.push(x).len() && s.push(x)[i].id@ == k;
        if i < s.len() {
            assert(s[i].id@ == k);
        }
    }
}

/// Whether some entry of `items` carries the id `id`.
pub fn has_item_with_id(items: &Vec<FeedItem>, id: &String) -> (r: bool)
    ensures
        r == contains_id(items@, id@),
{
    let mut j: usize = 0;
    while j < items.len()
        invariant
            j <= items@.len(),
            forall|k: int| 0 <= k < j ==> items@[k].id@ != id@,
        decreases items@.len() - j,
    {
        if items[j].id == *id {
            return true;
        }
        j = j + 1;
    }
    false
}

/// Deduplicate `all` by id, keeping the first occurrence of each id and the
/// relative order of the survivors.
#[verifier::loop_isolation(false)]
pub fn dedup_items(all: Vec<FeedItem>) -> (r: Vec<FeedItem>)
    ensures
        r@ == dedup_keep_first(all@),
{
    let ghost orig = all@;
    let mut rest = all;
    let mut out: Vec<FeedItem> = Vec::new();
    let ghost mut done: Seq<FeedItem> = Seq::empty();
    while rest.len() > 0
        invariant
            orig == done + rest@,
            out@ == dedup_keep_first(done),
            forall|k: Seq<char>| contains_id(out@, k) <==> contains_id(done, k),
        decreases rest.len(),
    {
        let it = rest.remove(0);
        let ghost itg = it;
        proof {
            assert(done.push(itg).drop_last() =~= done);
            assert(done.push(itg) + rest@ =~= orig);
            lemma_contains_id_push(done, itg, itg.id@);
        }
        if has_item_with_id(&out, &it.id) {
            proof {
                done = done.push(itg);
                assert forall|k: Seq<char>| contains_id(out@, k) <==> contains_id(done, k) by {
                    lemma_contains_id_push(done.drop_last(), itg, k);
                }
            }
        } else {
            out.push(it);
            proof {
                done = done.push(itg);
                assert(out@ =~= dedup_keep_first(done.drop_last()).push(itg));
                assert forall|k: Seq<char>| contains_id(out@, k) <==> contains_id(done, k) by {
                    lemma_contains_id_push(done.drop_last(), itg, k);
                    lemma_contains_id_push(out@.drop_last(), itg, k);
                    assert(out@.drop_last() =~= dedup_keep_first(done.drop_last()));
                }
            }
        }
    }
    proof {
        assert(done =~= orig);
    }
    out
}

/// Whether position `i` holds the first occurrence of its id in `s`.
pub open spec fn first_of_its_id_at(s: Seq<FeedItem>, i: int) -> bool {
    forall|h: int| 0 <= h < i ==> s[h].id@ != s[i].id@
}

/// Whether `it` occurs in `s` at a position before which its id never
/// occurs — that is, `it` is the canonical copy dedup keeps.
pub open spec fn is_first_occurrence(s: Seq<FeedItem>, it: FeedItem) -> bool {
    exists|i: int| 0 <= i < s.len() && s[i] == it && first_of_its_id_at(s, i)
}

/// A sequence with pairwise-distinct ids is left unchanged by stable dedup.
pub proof fn lemma_dedup_unique_identity(s: Seq<FeedItem>)
    requires
        unique_ids(s),
    ensures
        dedup_keep_first(s) == s,
    decreases s.len(),
{
    if s.len() > 0 {
        let p = s.drop_last();
        assert(unique_ids(p)) by {
            assert(forall|i: int| 0 <= i < p.len() ==> p[i] == s[i]);
        }
        lemma_dedup_unique_identity(p);
        assert(!contains_id(p, s.last().id@)) by {
            if contains_id(p, s.last().id@) {
                let i = choose|i: int| 0 <= i < p.len() && p[i].id@ == s.last().id@;
                assert(s[i].id@ == s[s.len() - 1].id@);
            }
        }
        assert(p.push(s.last()) =~= s);
    }
}

/// Law: merging an empty fresh batch into a well-formed channel yields an
/// item list identical — in entries, ids and order — to the persisted one.
pub proof fn lemma_merge_empty_batch_identity(old_items: Seq<FeedItem>)
    requires
        unique_ids(old_items),
    ensures
        dedup_keep_first(Seq::<FeedItem>::empty() + old_items) == old_items,
{
    assert(Seq::<FeedItem>::empty() + old_items =~= old_items);
    lemma_dedup_unique_identity(old_items);
}

/// Law: stable dedup is correct. The output carries each input id exactly
/// once and nothing else, and every surviving entry is the first occurrence
/// of its id in the input.
pub proof fn lemma_dedup_correct(s: Seq<FeedItem>)
    ensures
        unique_ids(dedup_keep_first(s)),
        forall|k: Seq<char>| contains_id(dedup_keep_first(s), k) <==> contains_id(s, k),
        forall|j: int|
            0 <= j < dedup_keep_first(s).len() ==> is_first_occurrence(
                s,
                #[trigger] dedup_keep_first(s)[j],
            ),
    decreases s.len(),
{
    if s.len() > 0 {
        let p = s.drop_last();
        let x = s.last();
        lemma_dedup_correct(p);
        let dp = dedup_keep_first(p);
        let ds = dedup_keep_first(s);
        assert(p.push(x) =~= s);
        assert forall|k: Seq<char>| contains_id(s, k) <==> (contains_id(p, k) || x.id@ == k) by {
            lemma_contains_id_push(p, x, k);
        }
        assert forall|j: int|
            0 <= j < dp.len() && is_first_occurrence(p, dp[j]) implies is_first_occurrence(
            s,
            #[trigger] dp[j],
        ) by {
            let i = choose|i: int| 0 <= i < p.len() && p[i] == dp[j] && first_of_its_id_at(p, i);
            assert(s[i] == dp[j]);
            assert(first_of_its_id_at(s, i)) by {
                assert(forall|h: int| 0 <= h < i ==> s[h] == p[h]);
            }
        }
        if contains_id(p, x.id@) {
            assert(ds == dp);
        } else {
            assert(ds == dp.push(x));
            assert(unique_ids(ds)) by {
                assert(!contains_id(dp, x.id@));
                assert forall|i: int, j: int| 0 <= i < j < ds.len() implies ds[i].id@ != ds[j].id@ by {
                    if j < dp.len() {
                        assert(ds[i] == dp[i] && ds[j] == dp[j]);
                    } else {
                        assert(ds[j] == x);
                        assert(ds[i] == dp[i]);
                        if ds[i].id@ == x.id@ {
                            assert(contains_id(dp, x.id@));
                        }
                    }
                }
            }
            assert forall|k: Seq<char>| contains_id(ds, k) <==> contains_id(s, k) by {
                lemma_contains_id_push(dp, x, k);
            }
            assert(is_first_occurrence(s, x)) by {
                let i = s.len() - 1;
                assert(s[i] == x);
                assert(first_of_its_id_at(s, i)) by {
                    assert forall|h: int| 0 <= h < i implies s[h].id@ != s[i].id@ by {
                        if s[h].id@ == x.id@ {
                            assert(p[h].id@ == x.id@);
                            assert(contains_id(p, x.id@));
                        }
                    }
                }
            }
            assert forall|j: int| 0 <= j < ds.len() implies is_first_occurrence(
                s,
                #[trigger] ds[j],
            ) by {
                if j < dp.len() {
                    assert(ds[j] == dp[j]);
                } else {
                    assert(ds[j] == x);
                }
            }
        }
    }
}

/// Law: in a merge, fresh entries precede persisted ones. The merged list
/// starts with exactly the deduped fresh batch (so first-seen order inside
/// the batch survives), and every later entry is a persisted first
/// occurrence whose id no fresh item carries.
pub proof fn lemma_merge_order(fresh: Seq<FeedItem>, old: Seq<FeedItem>)
    ensures
        dedup_keep_first(fresh).len() <= dedup_keep_first(fresh + old).len(),
        dedup_keep_first(fresh + old).take(dedup_keep_first(fresh).len() as int)
            == dedup_keep_first(fresh),
        forall|j: int|
            dedup_keep_first(fresh).len() <= j < dedup_keep_first(fresh + old).len() ==> {
                &&& !contains_id(fresh, #[trigger] dedup_keep_first(fresh + old)[j].id@)
                &&& is_first_occurrence(old, dedup_keep_first(fresh + old)[j])
            },
    decreases old.len(),
{
    let df = dedup_keep_first(fresh);
    if old.len() == 0 {
        assert(fresh + old =~= fresh);
        assert(dedup_keep_first(fresh + old).take(df.len() as int) =~= df);
    } else {
        lemma_merge_order(fresh, old.drop_last());
        let s = fresh + old;
        let prev = dedup_keep_first(fresh + old.drop_last());
        let x = old.last();
        assert(s.drop_last() =~= fresh + old.drop_last());
        assert(s.last() == x);
        let ds = dedup_keep_first(s);
        assert forall|j: int|
            0 <= j < prev.len() && is_first_occurrence(old.drop_last(), prev[j])
                implies is_first_occurrence(old, #[trigger] prev[j]) by {
            let i = choose|i: int|
                0 <= i < old.drop_last().len() && old.drop_last()[i] == prev[j]
                    && first_of_its_id_at(old.drop_last(), i);
            assert(old[i] == prev[j]);
            assert(first_of_its_id_at(old, i)) by {
                assert(forall|h: int| 0 <= h < i ==> old[h] == old.drop_last()[h]);
            }
        }
        if contains_id(s.drop_last(), x.id@) {
            assert(ds == prev);
            assert forall|j: int| df.len() <= j < ds.len() implies {
                &&& !contains_id(fresh, #[trigger] ds[j].id@)
                &&& is_first_occurrence(old, ds[j])
            } by {
                assert(ds[j] == prev[j]);
                assert(!contains_id(fresh, prev[j].id@));
                assert(is_first_occurrence(old.drop_last(), prev[j]));
            }
        } else {
            assert(ds == prev.push(x));
            assert(ds.take(df.len() as int) =~= prev.take(df.len() as int)) by {
                assert(df.len() <= prev.len());
                assert(forall|h: int| 0 <= h < prev.len() ==> ds[h] == prev[h]);
            }
            assert(!contains_id(fresh, x.id@)) by {
                if contains_id(fresh, x.id@) {
                    let i = choose|i: int| 0 <= i < fresh.len() && fresh[i].id@ == x.id@;
                    assert(s.drop_last()[i].id@ == x.id@);
                    assert(contains_id(s.drop_last(), x.id@));
                }
            }
            assert(is_first_occurrence(old, x)) by {
                let i = old.len() - 1;
                assert(old[i] == x);
                assert(first_of_its_id_at(old, i)) by {
                    assert forall|h: int| 0 <= h < i implies old[h].id@ != old[i].id@ by {
                        if old[h].id@ == x.id@ {
                            assert(s.drop_last()[fresh.len() + h].id@ == x.id@);
                            assert(contains_id(s.drop_last(), x.id@));
                        }
                    }
                }
            }
            assert forall|j: int| df.len() <= j < ds.len() implies {
                &&& !contains_id(fresh, #[trigger] ds[j].id@)
                &&& is_first_occurrence(old, ds[j])
            } by {
                if j < prev.len() {
                    assert(ds[j] == prev[j]);
                    assert(!contains_id(fresh, prev[j].id@));
                    assert(is_first_occurrence(old.drop_last(), prev[j]));
                } else {
                    assert(ds[j] == x);
                }
            }
        }
    }
}

/// Law: a fresh item's id is always represented by a fresh entry. Whenever a
/// merged entry's id occurs in the fresh batch, the entry itself comes from
/// the fresh batch — a fresh item fully replaces a persisted item sharing its
/// id.
pub proof fn lemma_fresh_replaces_persisted(fresh: Seq<FeedItem>, old: Seq<FeedItem>, j: int)
    requires
        0 <= j < dedup_keep_first(fresh + old).len(),
        contains_id(fresh, dedup_keep_first(fresh + old)[j].id@),
    ensures
        exists|i: int| 0 <= i < fresh.len() && fresh[i] == dedup_keep_first(fresh + old)[j],
{
    lemma_dedup_correct(fresh + old);
    let s = fresh + old;
    let e = dedup_keep_first(s)[j];
    assert(is_first_occurrence(s, e));
    let i = choose|i: int| 0 <= i < s.len() && s[i] == e && first_of_its_id_at(s, i);
    if i >= fresh.len() {
        let f = choose|f: int| 0 <= f < fresh.len() && fresh[f].id@ == e.id@;
        assert(s[f].id@ == s[i].id@);
        assert(false);
    }
    assert(fresh[i] == e);
}

/// Whether a fresh batch trips the all-zero-duration guard: it is non-empty
/// and every item in it has the 0 duration sentinel. The guard never looks at
/// already-persisted items.
pub open spec fn all_zero_batch(s: Seq<FeedItem>) -> bool {
    s.len() > 0 && forall|i: int| 0 <= i < s.len() ==> s[i].duration_seconds == 0
}

/// The item list a channel contributes to a merge: none when no channel was
/// persisted yet.
pub open spec fn spec_items(c: Option<FeedChannel>) -> Seq<FeedItem> {
    match c {
        Some(ch) => ch.items@,
        None => Seq::empty(),
    }
}

/// The title a merged channel is created with: the fetched playlist title,
/// falling back to the playlist URL string.
pub open spec fn merged_title(fetch_title: Option<String>, playlist_url: Seq<char>) -> Seq<char> {
    match fetch_title {
        Some(t) => t@,
        None => playlist_url,
    }
}

/// The channel artwork right after a merge: carried over from the existing
/// channel, absent on a channel created fresh.
pub open spec fn merged_artwork(existing: Option<FeedChannel>) -> Option<String> {
    match existing {
        Some(e0) => e0.artwork_url,
        None => None,
    }
}

/// How the channel-level fields other than artwork relate to the merge
/// inputs: fields of an existing channel are carried over; a channel created
/// fresh gets the fetched title, a templated description, and fixed
/// presentation defaults for a personal, non-public-directory feed. `link`
/// and `generator` are refreshed regardless.
pub open spec fn merged_core_metadata(
    c: FeedChannel,
    existing: Option<FeedChannel>,
    fetch_title: Option<String>,
    fetch_link: Option<String>,
    playlist_url: Seq<char>,
    tool: ToolInfo,
) -> bool {
    &&& match existing {
        Some(e0) => {
            &&& c.title == e0.title
            &&& c.description == e0.description
            &&& c.category == e0.category
            &&& c.explicit == e0.explicit
            &&& c.block == e0.block
        },
        None => {
            &&& c.title@ == merged_title(fetch_title, playlist_url)
            &&& c.description@ == tool.name@ + " podcast feed for "@ + merged_title(
                fetch_title,
                playlist_url,
            )
            &&& c.category@ == "TV & Film"@
            &&& c.explicit@ == "No"@
            &&& c.block@ == "Yes"@
        },
    }
    &&& c.link@ == match fetch_link {
        Some(l) => l@,
        None => playlist_url,
    }
    &&& c.generator@ == tool.generator@
}

/// All channel-level fields of a merge result, artwork included.
pub open spec fn merged_metadata(
    c: FeedChannel,
    existing: Option<FeedChannel>,
    fetch_title: Option<String>,
    fetch_link: Option<String>,
    playlist_url: Seq<char>,
    tool: ToolInfo,
) -> bool {
    &&& merged_core_metadata(c, existing, fetch_title, fetch_link, playlist_url, tool)
    &&& c.artwork_url == merged_artwork(existing)
}

/// Decide whether a fresh batch trips the all-zero-duration guard.
pub fn batch_all_zero(items: &Vec<FeedItem>) -> (r: bool)
    ensures
        r == all_zero_batch(items@),
{
    if items.len() == 0 {
        return false;
    }
    let mut i: usize = 0;
    while i < items.len()
        invariant
            i <= items@.len(),
            forall|j: int| 0 <= j < i ==> items@[j].duration_seconds == 0,
        decreases items@.len() - i,
    {
        if items[i].duration_seconds != 0 {
            return false;
        }
        i = i + 1;
    }
    true
}

/// Merge a freshly built batch into an optional existing channel.
///
/// Fails — with the playlist URL as context — exactly when the non-empty
/// fresh batch consists only of zero-duration items, which indicates the
/// fetch likely targeted an aggregation of sub-playlists. Otherwise the
/// result holds the fresh items first, then the persisted ones, deduplicated
/// by id with first occurrences winning, under carried-over or synthesized
/// channel metadata with `link` and `generator` refreshed.
pub fn merge(
    existing: Option<FeedChannel>,
    fresh: Vec<FeedItem>,
    fetch_title: Option<String>,
    fetch_link: Option<String>,
    playlist_url: &String,
    tool: &ToolInfo,
) -> (r: Result<FeedChannel, Error>)
    ensures
        r is Err <==> all_zero_batch(fresh@),
        r matches Err(e) ==> e matches Error::AllItemsInvalidError(u) && u@ == playlist_url@,
        r matches Ok(c) ==> c.items@ == dedup_keep_first(fresh@ + spec_items(existing))
            && merged_metadata(c, existing, fetch_title, fetch_link, playlist_url@, *tool),
{
    if batch_all_zero(&fresh) {
        return Err(Error::AllItemsInvalidError(playlist_url.clone()));
    }
    let (title, description, category, explicit, block, artwork_url, old_items) = match existing {
        Some(c) => {
            let FeedChannel {
                title,
                description,
                link: _,
                generator: _,
                category,
                explicit,
                block,
                artwork_url,
                items,
            } = c;
            (title, description, category, explicit, block, artwork_url, items)
        },
        None => {
            let title = match fetch_title {
                Some(t) => t,
                None => playlist_url.clone(),
            };
            let mut description = tool.name.clone();
            description.append(" podcast feed for ");
            description.append(title.as_str());
            let mut category = String::new();
            category.append("TV & Film");
            let mut explicit = String::new();
            explicit.append("No");
            let mut block = String::new();
            block.append("Yes");
            (title, description, category, explicit, block, None, Vec::new())
        },
    };
    let mut all = fresh;
    let mut old_vec = old_items;
    all.append(&mut old_vec);
    let unique = dedup_items(all);
    let link = match fetch_link {
        Some(l) => l,
        None => playlist_url.clone(),
    };
    let generator = tool.generator.clone();
    Ok(
        FeedChannel {
            title,
            description,
            link,
            generator,
            category,
            explicit,
            block,
            artwork_url,
            items: unique,
        },
    )
}

} // verus!

