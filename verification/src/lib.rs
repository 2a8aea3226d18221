//! Feed merge engine for podcast-style channels built from remote playlists.
//!
//! Each update pass turns a batch of freshly fetched media descriptors into
//! feed items, merges them into a previously persisted channel (deduplicating
//! by stable id, newest first), evicts items beyond a retention limit, and
//! keeps channel-level metadata in sync. The surrounding collaborators —
//! fetching the playlist, reading and writing the feed document, deleting
//! evicted media files — stay outside this crate; the engine works on plain
//! values and reports which media paths became evictable.

pub mod builder;
pub mod channel;
pub mod date;
pub mod error;
pub mod feed;
pub mod fetch;
pub mod merge;
pub mod metadata;
pub mod paths;
pub mod retention;
pub mod text;
pub mod urljoin;

pub use channel::Channel;
pub use error::Error;
