use vstd::prelude::*;

verus! {

/// The downloadable media reference attached to a feed item.
#[derive(Debug)]
pub struct Enclosure {
    /// Where the media file will be served.
    pub url: String,
    /// Size in bytes: the exact size if known, else an approximate size
    /// rounded to an integer, else 0.
    pub length_bytes: i64,
    /// MIME type of the media file.
    pub mime_type: String,
}

/// A calendar date, kept as plain year/month/day fields. A feed item's
/// publish instant is UTC midnight of this day.
#[derive(Debug, Clone, Copy, PartialEq, Eq, Structural)]
pub struct FeedDate {
    pub year: u16,
    pub month: u8,
    pub day: u8,
}

/// One episode/video entry of a channel.
#[derive(Debug)]
pub struct FeedItem {
    /// Stable unique key taken from the source descriptor.
    pub id: String,
    pub title: Option<String>,
    pub description: Option<String>,
    /// Web page of the original video.
    pub link: Option<String>,
    /// Publish date, set only when a source date field parsed.
    pub publish_date: Option<FeedDate>,
    pub enclosure: Enclosure,
    /// Optional still-image URL surfaced for players.
    pub artwork_url: Option<String>,
    /// Duration in seconds; 0 is a reserved sentinel meaning the duration is
    /// unknown or unverified.
    pub duration_seconds: u64,
}

/// The aggregate persisted and emitted per feed. `items` is ordered, and the
/// order is meaningful: most-recently-fetched items precede older, persisted
/// ones.
#[derive(Debug)]
pub struct FeedChannel {
    pub title: String,
    pub description: String,
    /// Channel home page; refreshed on every merge.
    pub link: String,
    /// Tool/version string of the generator; refreshed on every merge.
    pub generator: String,
    pub category: String,
    /// Presentation flag, `"No"` for a personal feed.
    pub explicit: String,
    /// Presentation flag, `"Yes"` to keep the feed out of public directories.
    pub block: String,
    /// Channel-level artwork, synced from the freshest item that has some.
    pub artwork_url: Option<String>,
    pub items: Vec<FeedItem>,
}

/// Whether some item of `s` carries the id `k`.
pub open spec fn contains_id(s: Seq<FeedItem>, k: Seq<char>) -> bool {
    exists|i: int| 0 <= i < s.len() && s[i].id@ == k
}

/// Whether the ids of `s` are pairwise distinct — the invariant of a
/// channel's item list.
pub open spec fn unique_ids(s: Seq<FeedItem>) -> bool {
    forall|i: int, j: int| 0 <= i < j < s.len() ==> s[i].id@ != s[j].id@
}

/// Well-formedness of a channel: its item ids are unique.
pub open spec fn channel_wf(c: FeedChannel) -> bool {
    unique_ids(c.items@)
}

} // verus!
