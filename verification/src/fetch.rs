use vstd::prelude::*;

verus! {

/// Raw fields of one media entry, as delivered by the fetch collaborator.
/// Only the fields the engine reads are kept, all as plain values.
#[derive(Debug)]
pub struct MediaDescriptor {
    /// Stable unique key of the media entry.
    pub id: String,
    pub title: Option<String>,
    pub description: Option<String>,
    /// Web page of the original video.
    pub webpage_url: Option<String>,
    /// Duration in whole seconds, when the raw descriptor carried a numeric
    /// duration field.
    pub duration_seconds: Option<u64>,
    /// Upload date as delivered: expected to be an 8-digit year-month-day.
    pub upload_date: Option<String>,
    /// Release date in the same 8-digit format.
    pub release_date: Option<String>,
    /// Thumbnail still-image URL.
    pub thumbnail_url: Option<String>,
    /// Exact media file size in bytes.
    pub filesize_bytes: Option<i64>,
    /// Approximate media file size, already rounded to whole bytes.
    pub filesize_approx_bytes: Option<i64>,
}

/// Playlist-level metadata of one fetch, plus the fetched entries.
#[derive(Debug)]
pub struct PlaylistInfo {
    /// Title of the playlist, used for a newly created channel.
    pub title: Option<String>,
    /// Home page of the playlist, used to refresh the channel link.
    pub webpage_url: Option<String>,
    /// The fetched media descriptors, in the order the collaborator returned
    /// them; a fetch may come back without any entry list at all.
    pub entries: Option<Vec<MediaDescriptor>>,
}

/// Identity of the tool driving the update, injected as configuration so the
/// merge logic carries no compiled-in globals.
#[derive(Debug)]
pub struct ToolInfo {
    /// Short tool name, used in the synthesized channel description.
    pub name: String,
    /// Full generator identifier (tool, version, homepage).
    pub generator: String,
}

} // verus!
