use vstd::prelude::*;

verus! {

/// The closed set of failures an update pass can report. Each variant carries
/// the context needed for a diagnostic message: the offending path, URL, or a
/// description of the upstream data that could not be used.
#[derive(Debug)]
pub enum Error {
    /// The feed file path lacks a parent directory, a base name, or an
    /// extension. Raised eagerly, before any fetch work starts.
    PathError(String),
    /// Reading or writing the feed document or a media file failed. Never
    /// raised by the engine itself; reserved for the storage collaborator.
    StorageError(String),
    /// The persisted feed document could not be parsed as a valid feed.
    /// Never raised by the engine itself; reserved for the feed store.
    FeedFormatError(String),
    /// A base URL was malformed or an enclosure URL join failed.
    UrlError(String),
    /// The fetch collaborator failed or handed back malformed data, such as a
    /// date field that does not parse in the expected format.
    DownloadError(String),
    /// Every item of a non-empty fresh batch had an unverifiable (zero)
    /// duration: the target was likely a playlist of other playlists. Carries
    /// the playlist URL.
    AllItemsInvalidError(String),
}

} // verus!
