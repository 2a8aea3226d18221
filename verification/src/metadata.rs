use vstd::prelude::*;

use crate::feed::{FeedChannel, FeedItem};

verus! {

/// Whether an item carries non-empty artwork.
pub open spec fn has_artwork(it: FeedItem) -> bool {
    match it.artwork_url {
        Some(a) => a@.len() > 0,
        None => false,
    }
}

/// The artwork of the first item carrying non-empty artwork, if any.
pub open spec fn first_artwork(s: Seq<FeedItem>) -> Option<Seq<char>>
    decreases s.len(),
{
    if s.len() == 0 {
        None
    } else {
        match s[0].artwork_url {
            Some(a) => if a@.len() > 0 {
                Some(a@)
            } else {
                first_artwork(s.drop_first())
            },
            None => first_artwork(s.drop_first()),
        }
    }
}

/// Scan the final ordered item list for the first non-empty artwork.
fn find_artwork(items: &Vec<FeedItem>) -> (r: Option<String>)
    ensures
        match r {
            Some(a) => first_artwork(items@) == Some(a@),
            None => first_artwork(items@) is None,
        },
{
    let mut i: usize = 0;
    proof {
        assert(items@.skip(0) =~= items@);
    }
    while i < items.len()
        invariant
            i <= items@.len(),
            first_artwork(items@) == first_artwork(items@.skip(i as int)),
        decreases items@.len() - i,
    {
        proof {
            assert(items@.skip(i as int)[0] == items@[i as int]);
        }
        match &items[i].artwork_url {
            Some(a) => {
                if !a.as_str().is_empty() {
                    return Some(a.clone());
                }
            },
            None => {},
        }
        i = i + 1;
        proof {
            assert(items@.skip(i - 1).drop_first() =~= items@.skip(i as int));
        }
    }
    None
}

/// Keep channel-level presentation fresh: copy the artwork of the freshest
/// item that carries some onto the channel; when no item carries any, the
/// channel's existing artwork stays untouched. Nothing else changes.
pub fn sync_artwork(channel: &mut FeedChannel)
    ensures
        final(channel).title == old(channel).title,
        final(channel).description == old(channel).description,
        final(channel).link == old(channel).link,
        final(channel).generator == old(channel).generator,
        final(channel).category == old(channel).category,
        final(channel).explicit == old(channel).explicit,
        final(channel).block == old(channel).block,
        final(channel).items == old(channel).items,
        match first_artwork(old(channel).items@) {
            Some(a) => final(channel).artwork_url matches Some(s) && s@ == a,
            None => final(channel).artwork_url == old(channel).artwork_url,
        },
{
    match find_artwork(&channel.items) {
        Some(a) => {
            channel.artwork_url = Some(a);
        },
        None => {},
    }
}

} // verus!
