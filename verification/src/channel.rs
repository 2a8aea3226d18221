use vstd::prelude::*;

use crate::builder::{build_error_matches, build_items, build_ok, built_from, desc_duration};
use crate::error::Error;
use crate::feed::{unique_ids, FeedChannel, FeedItem};
use crate::fetch::{MediaDescriptor, PlaylistInfo, ToolInfo};
use crate::merge::{
    all_zero_batch, batch_all_zero, dedup_keep_first, lemma_dedup_correct, merge, merged_artwork,
    merged_core_metadata, spec_items,
};
use crate::metadata::{first_artwork, sync_artwork};
use crate::paths::{media_path_spec, path_pieces, FeedPath};
use crate::retention::{apply_retention, evicted, eviction_paths, retained};
use crate::text::{dec_str, usize_to_string};

verus! {

/// How many entries one update fetches when the caller gives no limit.
pub const DEFAULT_DOWNLOAD_LIMIT: usize = 30;

/// One tracked feed: the validated feed file path, the playlist it follows,
/// and the feed document of the previous pass, if one was persisted.
#[derive(Debug)]
pub struct Channel {
    /// Validated pieces of the feed file path.
    pub feed_file: FeedPath,
    /// Serialized URL of the playlist with the videos to track.
    pub playlist_url: String,
    /// The feed document, absent until the first successful update.
    pub rss_channel: Option<FeedChannel>,
}

/// The descriptors one fetch delivered; a fetch without an entry list
/// delivers none.
pub open spec fn playlist_descs(entries: Option<Vec<MediaDescriptor>>) -> Seq<MediaDescriptor> {
    match entries {
        Some(v) => v@,
        None => Seq::empty(),
    }
}

/// Whether every descriptor of the batch can be built into an item.
pub open spec fn batch_build_ok(
    descs: Seq<MediaDescriptor>,
    base: Seq<char>,
    stem: Seq<char>,
) -> bool {
    forall|i: int| 0 <= i < descs.len() ==> build_ok(#[trigger] descs[i], base, stem)
}

/// Whether a non-empty batch of descriptors carries only unknown durations —
/// the condition under which an update is aborted.
pub open spec fn batch_all_unverified(descs: Seq<MediaDescriptor>) -> bool {
    descs.len() > 0 && forall|i: int| 0 <= i < descs.len() ==> desc_duration(#[trigger] descs[i]) == 0
}

/// Everything a successful update pass promises, with `fresh` the batch of
/// items built from `descs` in order: the new feed document holds the merged,
/// deduplicated, retention-trimmed item list under refreshed channel
/// metadata and freshly synced artwork, and `paths` names the media files
/// backing exactly the evicted items.
pub open spec fn update_outcome(
    pre: Channel,
    post: Channel,
    paths: Seq<String>,
    fresh: Seq<FeedItem>,
    descs: Seq<MediaDescriptor>,
    fetch_title: Option<String>,
    fetch_link: Option<String>,
    base: Seq<char>,
    keep: Option<usize>,
    tool: ToolInfo,
) -> bool {
    let stem = pre.feed_file.stem@;
    let merged = dedup_keep_first(fresh + spec_items(pre.rss_channel));
    let kept = retained(merged, keep);
    let ev = evicted(merged, keep);
    &&& fresh.len() == descs.len()
    &&& forall|i: int| 0 <= i < descs.len() ==> built_from(#[trigger] fresh[i], descs[i], base, stem)
    &&& post.feed_file == pre.feed_file
    &&& post.playlist_url == pre.playlist_url
    &&& post.rss_channel matches Some(c) && {
        &&& c.items@ == kept
        &&& unique_ids(c.items@)
        &&& merged_core_metadata(c, pre.rss_channel, fetch_title, fetch_link, pre.playlist_url@, tool)
        &&& match first_artwork(kept) {
            Some(a) => c.artwork_url matches Some(s) && s@ == a,
            None => c.artwork_url == merged_artwork(pre.rss_channel),
        }
    }
    &&& paths.len() == ev.len()
    &&& forall|j: int|
        0 <= j < ev.len() ==> #[trigger] paths[j]@ == media_path_spec(
            pre.feed_file.parent@,
            stem,
            ev[j].id@,
        )
}

/// A successful update pass: some batch of items, built in order from the
/// fetched descriptors, explains the new state through [`update_outcome`].
pub open spec fn update_ok(
    pre: Channel,
    post: Channel,
    paths: Seq<String>,
    descs: Seq<MediaDescriptor>,
    fetch_title: Option<String>,
    fetch_link: Option<String>,
    base: Seq<char>,
    keep: Option<usize>,
    tool: ToolInfo,
) -> bool {
    exists|fresh: Seq<FeedItem>|
        #[trigger] update_outcome(
            pre,
            post,
            paths,
            fresh,
            descs,
            fetch_title,
            fetch_link,
            base,
            keep,
            tool,
        )
}

impl Channel {
    /// Set up a channel around an optionally preloaded feed document,
    /// validating the feed file path eagerly, before any fetch work.
    pub fn new(feed_file: &str, playlist_url: String, rss_channel: Option<FeedChannel>) -> (r:
        Result<Channel, Error>)
        ensures
            match r {
                Ok(c) => {
                    &&& path_pieces(feed_file@) matches Some(p) && c.feed_file.parent@ == p.0
                        && c.feed_file.stem@ == p.1 && c.feed_file.extension@ == p.2
                    &&& c.playlist_url == playlist_url
                    &&& c.rss_channel == rss_channel
                },
                Err(e) => {
                    &&& path_pieces(feed_file@) is None
                    &&& e matches Error::PathError(s) && s@ == feed_file@
                },
            },
    {
        match FeedPath::parse(feed_file) {
            Some(fp) => Ok(Channel { feed_file: fp, playlist_url, rss_channel }),
            None => Err(Error::PathError(feed_file.to_owned())),
        }
    }

    /// One full update pass over an already-fetched playlist: build items
    /// from the descriptors, merge them into the persisted document, trim to
    /// the retention bound, sync channel artwork, and store the result on
    /// `self`. Returns the media file paths backing the evicted items, for
    /// the caller to delete best-effort.
    ///
    /// Any failure — a descriptor that cannot be built, or a non-empty batch
    /// of only zero-duration items — leaves `self` untouched.
    pub fn update_with_playlist(
        &mut self,
        base_url: &str,
        keep: Option<usize>,
        playlist: PlaylistInfo,
        tool: &ToolInfo,
    ) -> (r: Result<Vec<String>, Error>)
        ensures
            r is Err ==> *final(self) == *old(self),
            r is Err <==> !batch_build_ok(
                playlist_descs(playlist.entries),
                base_url@,
                old(self).feed_file.stem@,
            ) || batch_all_unverified(playlist_descs(playlist.entries)),
            r matches Err(e) ==> {
                let descs = playlist_descs(playlist.entries);
                let stem = old(self).feed_file.stem@;
                if !batch_build_ok(descs, base_url@, stem) {
                    exists|i: int|
                        {
                            &&& 0 <= i < descs.len()
                            &&& !build_ok(#[trigger] descs[i], base_url@, stem)
                            &&& forall|j: int| 0 <= j < i ==> build_ok(#[trigger] descs[j], base_url@, stem)
                            &&& build_error_matches(e, descs[i], base_url@, stem)
                        }
                } else {
                    e matches Error::AllItemsInvalidError(u) && u@ == old(self).playlist_url@
                }
            },
            r matches Ok(paths) ==> update_ok(
                *old(self),
                *final(self),
                paths@,
                playlist_descs(playlist.entries),
                playlist.title,
                playlist.webpage_url,
                base_url@,
                keep,
                *tool,
            ),
    {
        let PlaylistInfo { title: fetch_title, webpage_url: fetch_link, entries } = playlist;
        let descs: Vec<MediaDescriptor> = match entries {
            Some(v) => v,
            None => Vec::new(),
        };
        let ghost descs_view = descs@;
        proof {
            assert(descs_view =~= playlist_descs(playlist.entries));
        }
        let fresh = match build_items(descs, base_url, self.feed_file.stem.as_str()) {
            Ok(v) => v,
            Err(e) => {
                return Err(e);
            },
        };
        let ghost fresh_view = fresh@;
        if batch_all_zero(&fresh) {
            proof {
                assert(batch_all_unverified(descs_view)) by {
                    assert(forall|i: int|
                        0 <= i < descs_view.len() ==> desc_duration(#[trigger] descs_view[i])
                            == fresh_view[i].duration_seconds);
                }
            }
            return Err(Error::AllItemsInvalidError(self.playlist_url.clone()));
        }
        proof {
            assert(!batch_all_unverified(descs_view)) by {
                if batch_all_unverified(descs_view) {
                    assert(forall|i: int|
                        0 <= i < fresh_view.len() ==> #[trigger] fresh_view[i].duration_seconds
                            == desc_duration(descs_view[i]));
                    assert(all_zero_batch(fresh_view));
                }
            }
        }
        let existing = self.rss_channel.take();
        let mut merged = match merge(
            existing,
            fresh,
            fetch_title,
            fetch_link,
            &self.playlist_url,
            tool,
        ) {
            Ok(c) => c,
            Err(e) => {
                proof {
                    assert(false);
                }
                return Err(e);
            },
        };
        let ev_items = apply_retention(&mut merged.items, keep);
        let paths = eviction_paths(&ev_items, &self.feed_file);
        sync_artwork(&mut merged);
        proof {
            lemma_dedup_correct(fresh_view + spec_items(old(self).rss_channel));
            let merged_seq = dedup_keep_first(fresh_view + spec_items(old(self).rss_channel));
            let kept = retained(merged_seq, keep);
            assert(unique_ids(kept)) by {
                assert(forall|i: int| 0 <= i < kept.len() ==> kept[i] == merged_seq[i]);
            }
        }
        self.rss_channel = Some(merged);
        proof {
            assert(update_outcome(
                *old(self),
                *self,
                paths@,
                fresh_view,
                playlist_descs(playlist.entries),
                playlist.title,
                playlist.webpage_url,
                base_url@,
                keep,
                *tool,
            ));
            assert(update_ok(
                *old(self),
                *self,
                paths@,
                playlist_descs(playlist.entries),
                playlist.title,
                playlist.webpage_url,
                base_url@,
                keep,
                *tool,
            ));
        }
        Ok(paths)
    }

    /// The argument list one fetch hands the downloader: the fetch limit, a
    /// fixed format preference, the caller's pass-through arguments, and the
    /// output template pointing into this feed's media directory.
    pub fn downloader_args(&self, download_limit: usize, additional_args: Vec<String>) -> (r: Vec<
        String,
    >)
        ensures
            r@.len() == additional_args@.len() + 9,
            r@[0]@ == "--playlist-end"@,
            r@[1]@ == dec_str(download_limit as nat),
            r@[2]@ == "--format"@,
            r@[3]@
                == "bestvideo[ext=mp4][vcodec^=avc1]+bestaudio[ext=m4a]/best[ext=mp4][vcodec^=avc1]/best[ext=mp4]/best"@,
            r@[4]@ == "--no-simulate"@,
            forall|i: int|
                0 <= i < additional_args@.len() ==> #[trigger] r@[5 + i] == additional_args@[i],
            r@[5 + additional_args@.len() as int]@ == "--no-progress"@,
            r@[6 + additional_args@.len() as int]@ == "--no-overwrites"@,
            r@[7 + additional_args@.len() as int]@ == "--output"@,
            r@[8 + additional_args@.len() as int]@ == crate::paths::media_dir_spec(
                self.feed_file.parent@,
                self.feed_file.stem@,
            ) + "%(id)s.%(ext)s"@,
    {
        let mut args: Vec<String> = Vec::new();
        args.push("--playlist-end".to_owned());
        args.push(usize_to_string(download_limit));
        args.push("--format".to_owned());
        args.push(
            "bestvideo[ext=mp4][vcodec^=avc1]+bestaudio[ext=m4a]/best[ext=mp4][vcodec^=avc1]/best[ext=mp4]/best".to_owned(),
        );
        args.push("--no-simulate".to_owned());
        let mut extra = additional_args;
        args.append(&mut extra);
        args.push("--no-progress".to_owned());
        args.push("--no-overwrites".to_owned());
        args.push("--output".to_owned());
        let mut template = self.feed_file.media_dir();
        template.append("%(id)s.%(ext)s");
        args.push(template);
        args
    }
}

} // verus!
