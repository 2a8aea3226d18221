use vstd::prelude::*;

use crate::date::{compact_date, parse_compact_date, valid_compact_date};
use crate::error::Error;
use crate::feed::{Enclosure, FeedDate, FeedItem};
use crate::fetch::MediaDescriptor;
use crate::urljoin::{join_url, url_join};

verus! {

/// The duration a descriptor yields: the numeric field when present, else the
/// reserved 0 sentinel.
pub open spec fn desc_duration(d: MediaDescriptor) -> u64 {
    match d.duration_seconds {
        Some(v) => v,
        None => 0,
    }
}

/// The enclosure length a descriptor yields: the exact size when present,
/// else the approximate size, else 0.
pub open spec fn desc_length_bytes(d: MediaDescriptor) -> i64 {
    match d.filesize_bytes {
        Some(v) => v,
        None => match d.filesize_approx_bytes {
            Some(a) => a,
            None => 0,
        },
    }
}

/// Whether the date field a descriptor offers — the upload date when present,
/// else the release date — parses in the expected compact format. A
/// descriptor without either field is fine: its item simply gets no date.
pub open spec fn desc_dates_ok(d: MediaDescriptor) -> bool {
    match d.upload_date {
        Some(u) => valid_compact_date(u@),
        None => match d.release_date {
            Some(rl) => valid_compact_date(rl@),
            None => true,
        },
    }
}

/// The publish date a descriptor yields, for a descriptor whose dates are
/// well-formed.
pub open spec fn desc_publish_date(d: MediaDescriptor) -> Option<FeedDate> {
    match d.upload_date {
        Some(u) => Some(compact_date(u@)),
        None => match d.release_date {
            Some(rl) => Some(compact_date(rl@)),
            None => None,
        },
    }
}

/// The serialized enclosure URL for item `id`: the base serving URL, joined
/// with the feed's own path segment (so feeds sharing one base URL do not
/// collide), joined with the media file name.
pub open spec fn enclosure_url(base: Seq<char>, stem: Seq<char>, id: Seq<char>) -> Option<
    Seq<char>,
> {
    match url_join(base, stem + "/"@) {
        Some(feed_base) => url_join(feed_base, id + ".mp4"@),
        None => None,
    }
}

/// Whether building an item from `d` succeeds: its dates are well-formed and
/// its enclosure URL resolves.
pub open spec fn build_ok(d: MediaDescriptor, base: Seq<char>, stem: Seq<char>) -> bool {
    desc_dates_ok(d) && enclosure_url(base, stem, d.id@) is Some
}

/// How a built feed item relates to the descriptor it came from.
pub open spec fn built_from(
    it: FeedItem,
    d: MediaDescriptor,
    base: Seq<char>,
    stem: Seq<char>,
) -> bool {
    &&& it.id == d.id
    &&& it.title == d.title
    &&& it.description == d.description
    &&& it.link == d.webpage_url
    &&& it.publish_date == desc_publish_date(d)
    &&& Some(it.enclosure.url@) == enclosure_url(base, stem, d.id@)
    &&& it.enclosure.length_bytes == desc_length_bytes(d)
    &&& it.enclosure.mime_type@ == "video/mp4"@
    &&& it.artwork_url == d.thumbnail_url
    &&& it.duration_seconds == desc_duration(d)
}

/// Whether `e` is the error a descriptor that cannot be built gives rise to:
/// a malformed date is malformed upstream data, and an enclosure URL that
/// does not resolve is a URL failure. Dates are checked first.
pub open spec fn build_error_matches(
    e: Error,
    d: MediaDescriptor,
    base: Seq<char>,
    stem: Seq<char>,
) -> bool {
    if !desc_dates_ok(d) {
        e is DownloadError
    } else {
        e is UrlError
    }
}

/// Concatenation of two string slices, for diagnostic messages.
fn concat_strs(a: &str, b: &str) -> (r: String)
    ensures
        r@ == a@ + b@,
{
    let mut s = String::new();
    s.append(a);
    s.append(b);
    s
}

/// Map one media descriptor to a normalized feed item.
///
/// Succeeds exactly when the descriptor's date field (if any) parses and its
/// enclosure URL resolves; the returned item is pinned field by field by
/// [`built_from`].
pub fn build_item(desc: MediaDescriptor, base_url: &str, stem: &str) -> (r: Result<
    FeedItem,
    Error,
>)
    ensures
        match r {
            Ok(it) => build_ok(desc, base_url@, stem@) && built_from(it, desc, base_url@, stem@),
            Err(e) => !build_ok(desc, base_url@, stem@) && build_error_matches(
                e,
                desc,
                base_url@,
                stem@,
            ),
        },
{
    let duration_seconds = match desc.duration_seconds {
        Some(v) => v,
        None => 0,
    };
    let publish_date = match &desc.upload_date {
        Some(u) => match parse_compact_date(u.as_str()) {
            Some(fd) => Some(fd),
            None => {
                return Err(Error::DownloadError(concat_strs("malformed upload date: ", u.as_str())));
            },
        },
        None => match &desc.release_date {
            Some(rl) => match parse_compact_date(rl.as_str()) {
                Some(fd) => Some(fd),
                None => {
                    return Err(
                        Error::DownloadError(concat_strs("malformed release date: ", rl.as_str())),
                    );
                },
            },
            None => None,
        },
    };
    let mut feed_segment = String::new();
    feed_segment.append(stem);
    feed_segment.append("/");
    let feed_base = match join_url(base_url, feed_segment.as_str()) {
        Some(u) => u,
        None => {
            return Err(Error::UrlError(concat_strs("enclosure URL join failed under ", base_url)));
        },
    };
    let mut file_name = String::new();
    file_name.append(desc.id.as_str());
    file_name.append(".mp4");
    let url = match join_url(feed_base.as_str(), file_name.as_str()) {
        Some(u) => u,
        None => {
            return Err(Error::UrlError(concat_strs("enclosure URL join failed under ", base_url)));
        },
    };
    let length_bytes = match desc.filesize_bytes {
        Some(v) => v,
        None => match desc.filesize_approx_bytes {
            Some(a) => a,
            None => 0,
        },
    };
    let mut mime_type = String::new();
    mime_type.append("video/mp4");
    Ok(
        FeedItem {
            id: desc.id,
            title: desc.title,
            description: desc.description,
            link: desc.webpage_url,
            publish_date,
            enclosure: Enclosure { url, length_bytes, mime_type },
            artwork_url: desc.thumbnail_url,
            duration_seconds,
        },
    )
}

/// Map a whole fetched batch to feed items, in order. Fails on the first
/// descriptor that cannot be built, with that descriptor's error.
#[verifier::loop_isolation(false)]
pub fn build_items(descs: Vec<MediaDescriptor>, base_url: &str, stem: &str) -> (r: Result<
    Vec<FeedItem>,
    Error,
>)
    ensures
        match r {
            Ok(items) => {
                &&& items@.len() == descs@.len()
                &&& forall|i: int|
                    0 <= i < descs@.len() ==> build_ok(#[trigger] descs@[i], base_url@, stem@)
                &&& forall|i: int|
                    0 <= i < descs@.len() ==> built_from(
                        #[trigger] items@[i],
                        descs@[i],
                        base_url@,
                        stem@,
                    )
            },
            Err(e) => exists|i: int|
                {
                    &&& 0 <= i < descs@.len()
                    &&& !build_ok(#[trigger] descs@[i], base_url@, stem@)
                    &&& forall|j: int| 0 <= j < i ==> build_ok(#[trigger] descs@[j], base_url@, stem@)
                    &&& build_error_matches(e, descs@[i], base_url@, stem@)
                },
        },
{
    let ghost orig = descs@;
    let mut rest = descs;
    let mut items: Vec<FeedItem> = Vec::new();
    while rest.len() > 0
        invariant
            orig.len() == items@.len() + rest@.len(),
            rest@ == orig.subrange(items@.len() as int, orig.len() as int),
            forall|i: int| 0 <= i < items@.len() ==> build_ok(#[trigger] orig[i], base_url@, stem@),
            forall|i: int|
                0 <= i < items@.len() ==> built_from(#[trigger] items@[i], orig[i], base_url@, stem@),
        decreases rest.len(),
    {
        let ghost done = items@.len() as int;
        let d = rest.remove(0);
        proof {
            assert(d == orig[done]);
            assert(rest@ =~= orig.subrange(done + 1, orig.len() as int));
        }
        match build_item(d, base_url, stem) {
            Ok(it) => {
                let ghost before = items@;
                items.push(it);
                proof {
                    assert(items@ =~= before.push(it));
                    assert(built_from(items@[done], orig[done], base_url@, stem@));
                    assert(forall|i: int| 0 <= i < done ==> items@[i] == before[i]);
                }
            },
            Err(e) => {
                proof {
                    assert(0 <= done < orig.len());
                    assert(!build_ok(orig[done], base_url@, stem@));
                }
                return Err(e);
            },
        }
    }
    proof {
        assert(items@.len() == orig.len());
    }
    Ok(items)
}

} // verus!
