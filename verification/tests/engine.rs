use playcaster::builder::build_item;
use playcaster::channel::Channel;
use playcaster::error::Error;
use playcaster::feed::{Enclosure, FeedChannel, FeedDate, FeedItem};
use playcaster::fetch::{MediaDescriptor, PlaylistInfo, ToolInfo};

fn descriptor(id: &str) -> MediaDescriptor {
    MediaDescriptor {
        id: id.to_string(),
        title: Some(format!("video {}", id)),
        description: Some(format!("about {}", id)),
        webpage_url: Some(format!("https://example.net/watch?v={}", id)),
        duration_seconds: Some(90),
        upload_date: Some("20220206".to_string()),
        release_date: None,
        thumbnail_url: None,
        filesize_bytes: Some(1000),
        filesize_approx_bytes: None,
    }
}

fn item(id: &str) -> FeedItem {
    FeedItem {
        id: id.to_string(),
        title: Some(format!("video {}", id)),
        description: None,
        link: None,
        publish_date: None,
        enclosure: Enclosure {
            url: format!("http://localhost:8080/feed/{}.mp4", id),
            length_bytes: 1000,
            mime_type: "video/mp4".to_string(),
        },
        artwork_url: None,
        duration_seconds: 90,
    }
}

fn channel_with(items: Vec<FeedItem>) -> FeedChannel {
    FeedChannel {
        title: "a feed".to_string(),
        description: "a feed description".to_string(),
        link: "https://example.net/playlist".to_string(),
        generator: "older-tool/0.0.1".to_string(),
        category: "TV & Film".to_string(),
        explicit: "No".to_string(),
        block: "Yes".to_string(),
        artwork_url: None,
        items,
    }
}

fn tool() -> ToolInfo {
    ToolInfo {
        name: "playcaster".to_string(),
        generator: "playcaster/0.1.0".to_string(),
    }
}

fn playlist(entries: Vec<MediaDescriptor>) -> PlaylistInfo {
    PlaylistInfo {
        title: Some("a playlist".to_string()),
        webpage_url: Some("https://example.net/playlist-page".to_string()),
        entries: Some(entries),
    }
}

fn new_channel(existing: Option<FeedChannel>) -> Channel {
    Channel::new("feeds/feed.xml", "https://example.net/playlist".to_string(), existing).unwrap()
}

// The enclosure URL follows <base>/<feed base name>/<item id>.<extension>.
#[test]
fn enclosure_url_construction() {
    let built = build_item(descriptor("QWkUFkXcx9I"), "http://localhost:8080", "mightycarmods")
        .unwrap();
    assert_eq!(
        built.enclosure.url,
        "http://localhost:8080/mightycarmods/QWkUFkXcx9I.mp4"
    );
}

#[test]
fn enclosure_url_base_with_trailing_slash() {
    let built = build_item(descriptor("abc"), "http://localhost:8080/media/", "feed").unwrap();
    assert_eq!(built.enclosure.url, "http://localhost:8080/media/feed/abc.mp4");
}

#[test]
fn enclosure_length_prefers_exact_size() {
    let mut d = descriptor("a1");
    d.filesize_bytes = Some(42);
    d.filesize_approx_bytes = Some(7);
    let built = build_item(d, "http://localhost", "feed").unwrap();
    assert_eq!(built.enclosure.length_bytes, 42);

    let mut d = descriptor("a1");
    d.filesize_bytes = None;
    d.filesize_approx_bytes = Some(7);
    let built = build_item(d, "http://localhost", "feed").unwrap();
    assert_eq!(built.enclosure.length_bytes, 7);

    let mut d = descriptor("a1");
    d.filesize_bytes = None;
    d.filesize_approx_bytes = None;
    let built = build_item(d, "http://localhost", "feed").unwrap();
    assert_eq!(built.enclosure.length_bytes, 0);
}

// An 8-digit upload date becomes UTC midnight of that day; without any date
// field the item gets no publish date.
#[test]
fn publish_date_from_upload_date() {
    let built = build_item(descriptor("a1"), "http://localhost", "feed").unwrap();
    assert_eq!(built.publish_date, Some(FeedDate { year: 2022, month: 2, day: 6 }));
}

#[test]
fn publish_date_renders_as_utc_midnight() {
    let built = build_item(descriptor("a1"), "http://localhost", "feed").unwrap();
    assert_eq!(built.publish_date.unwrap().iso_midnight(), "2022-02-06T00:00:00Z");
    let eve = FeedDate { year: 1999, month: 12, day: 31 };
    assert_eq!(eve.iso_midnight(), "1999-12-31T00:00:00Z");
}

#[test]
fn publish_date_absent_without_date_fields() {
    let mut d = descriptor("a1");
    d.upload_date = None;
    d.release_date = None;
    let built = build_item(d, "http://localhost", "feed").unwrap();
    assert_eq!(built.publish_date, None);
}

#[test]
fn publish_date_falls_back_to_release_date() {
    let mut d = descriptor("a1");
    d.upload_date = None;
    d.release_date = Some("20191231".to_string());
    let built = build_item(d, "http://localhost", "feed").unwrap();
    assert_eq!(built.publish_date, Some(FeedDate { year: 2019, month: 12, day: 31 }));
}

#[test]
fn malformed_date_is_fatal() {
    let mut d = descriptor("a1");
    d.upload_date = Some("2022-02-06".to_string());
    assert!(matches!(
        build_item(d, "http://localhost", "feed"),
        Err(Error::DownloadError(_))
    ));

    let mut d = descriptor("a1");
    d.upload_date = Some("20221306".to_string());
    assert!(matches!(
        build_item(d, "http://localhost", "feed"),
        Err(Error::DownloadError(_))
    ));

    let mut d = descriptor("a1");
    d.upload_date = None;
    d.release_date = Some("2022020".to_string());
    assert!(matches!(
        build_item(d, "http://localhost", "feed"),
        Err(Error::DownloadError(_))
    ));
}

#[test]
fn leap_day_dates() {
    let mut d = descriptor("a1");
    d.upload_date = Some("20240229".to_string());
    let built = build_item(d, "http://localhost", "feed").unwrap();
    assert_eq!(built.publish_date, Some(FeedDate { year: 2024, month: 2, day: 29 }));

    let mut d = descriptor("a1");
    d.upload_date = Some("20230229".to_string());
    assert!(matches!(
        build_item(d, "http://localhost", "feed"),
        Err(Error::DownloadError(_))
    ));

    let mut d = descriptor("a1");
    d.upload_date = Some("19000229".to_string());
    assert!(matches!(
        build_item(d, "http://localhost", "feed"),
        Err(Error::DownloadError(_))
    ));

    let mut d = descriptor("a1");
    d.upload_date = Some("20000229".to_string());
    let built = build_item(d, "http://localhost", "feed").unwrap();
    assert_eq!(built.publish_date, Some(FeedDate { year: 2000, month: 2, day: 29 }));
}

// A descriptor's date is checked before its enclosure URL is built.
#[test]
fn date_error_takes_precedence_over_url_error() {
    let mut d = descriptor("a1");
    d.upload_date = Some("junk".to_string());
    assert!(matches!(
        build_item(d, "not a url", "feed"),
        Err(Error::DownloadError(_))
    ));
}

#[test]
fn malformed_base_url_is_url_error() {
    assert!(matches!(
        build_item(descriptor("a1"), "not a url", "feed"),
        Err(Error::UrlError(_))
    ));
}

#[test]
fn feed_path_validation() {
    assert!(matches!(
        Channel::new("noextension", "https://example.net/p".to_string(), None),
        Err(Error::PathError(_))
    ));
    assert!(matches!(
        Channel::new("dir/.xml", "https://example.net/p".to_string(), None),
        Err(Error::PathError(_))
    ));
    assert!(matches!(
        Channel::new("dir/", "https://example.net/p".to_string(), None),
        Err(Error::PathError(_))
    ));
    assert!(matches!(
        Channel::new("dir/feed.", "https://example.net/p".to_string(), None),
        Err(Error::PathError(_))
    ));

    let c = Channel::new("some/dir/feed.xml", "https://example.net/p".to_string(), None).unwrap();
    assert_eq!(c.feed_file.parent, "some/dir");
    assert_eq!(c.feed_file.stem, "feed");
    assert_eq!(c.feed_file.extension, "xml");

    let c = Channel::new("feed.xml", "https://example.net/p".to_string(), None).unwrap();
    assert_eq!(c.feed_file.parent, "");

    let c = Channel::new("/feed.tar.xml", "https://example.net/p".to_string(), None).unwrap();
    assert_eq!(c.feed_file.parent, "/");
    assert_eq!(c.feed_file.stem, "feed.tar");
    assert_eq!(c.feed_file.extension, "xml");
}

// A non-empty fresh batch of only zero-duration items aborts the update and
// leaves the persisted channel untouched.
#[test]
fn all_zero_duration_batch_aborts() {
    let mut a = descriptor("a1");
    a.duration_seconds = Some(0);
    let mut b = descriptor("b2");
    b.duration_seconds = None;

    let mut channel = new_channel(Some(channel_with(vec![item("old1")])));
    let r = channel.update_with_playlist("http://localhost", None, playlist(vec![a, b]), &tool());
    assert!(matches!(r, Err(Error::AllItemsInvalidError(_))));
    if let Err(Error::AllItemsInvalidError(u)) = r {
        assert_eq!(u, "https://example.net/playlist");
    }

    let persisted = channel.rss_channel.as_ref().unwrap();
    assert_eq!(persisted.items.len(), 1);
    assert_eq!(persisted.items[0].id, "old1");
    assert_eq!(persisted.generator, "older-tool/0.0.1");
}

#[test]
fn mixed_durations_do_not_trip_the_guard() {
    let mut a = descriptor("a1");
    a.duration_seconds = Some(0);
    let b = descriptor("b2");

    let mut channel = new_channel(None);
    channel
        .update_with_playlist("http://localhost", None, playlist(vec![a, b]), &tool())
        .unwrap();
    let feed = channel.rss_channel.unwrap();
    assert_eq!(feed.items.len(), 2);
    assert_eq!(feed.items[0].duration_seconds, 0);
}

// Merging an empty fresh batch changes neither ids nor order.
#[test]
fn empty_batch_is_identity_on_items() {
    let existing = channel_with(vec![item("old1"), item("old2"), item("old3")]);
    let mut channel = new_channel(Some(existing));
    channel
        .update_with_playlist("http://localhost", None, playlist(vec![]), &tool())
        .unwrap();
    let feed = channel.rss_channel.unwrap();
    let ids: Vec<&str> = feed.items.iter().map(|i| i.id.as_str()).collect();
    assert_eq!(ids, vec!["old1", "old2", "old3"]);
}

// Fresh items precede persisted ones; a fresh item replaces the persisted
// item sharing its id; within the batch the first occurrence wins.
#[test]
fn merge_order_and_replacement() {
    let mut first = descriptor("dup");
    first.title = Some("first copy".to_string());
    let mut second = descriptor("dup");
    second.title = Some("second copy".to_string());
    let fresh_old = descriptor("old2");

    let existing = channel_with(vec![item("old1"), item("old2")]);
    let mut channel = new_channel(Some(existing));
    channel
        .update_with_playlist(
            "http://localhost",
            None,
            playlist(vec![first, second, fresh_old]),
            &tool(),
        )
        .unwrap();
    let feed = channel.rss_channel.unwrap();
    let ids: Vec<&str> = feed.items.iter().map(|i| i.id.as_str()).collect();
    assert_eq!(ids, vec!["dup", "old2", "old1"]);
    assert_eq!(feed.items[0].title.as_deref(), Some("first copy"));
    // the persisted "old2" copy was fully replaced by the fresh one
    assert_eq!(feed.items[1].title.as_deref(), Some("video old2"));
    assert_eq!(feed.items[1].publish_date, Some(FeedDate { year: 2022, month: 2, day: 6 }));
}

// With keep = K the final list holds at most K items and the eviction paths
// name exactly the items beyond position K, under the feed's media directory.
#[test]
fn retention_bound_and_eviction_paths() {
    let existing = channel_with(vec![item("old1"), item("old2"), item("old3")]);
    let mut channel = new_channel(Some(existing));
    let paths = channel
        .update_with_playlist("http://localhost", Some(2), playlist(vec![descriptor("n1")]), &tool())
        .unwrap();
    let feed = channel.rss_channel.unwrap();
    let ids: Vec<&str> = feed.items.iter().map(|i| i.id.as_str()).collect();
    assert_eq!(ids, vec!["n1", "old1"]);
    assert_eq!(paths, vec!["feeds/feed/old2.mp4", "feeds/feed/old3.mp4"]);
}

#[test]
fn no_keep_means_no_eviction() {
    let existing = channel_with(vec![item("old1"), item("old2")]);
    let mut channel = new_channel(Some(existing));
    let paths = channel
        .update_with_playlist("http://localhost", None, playlist(vec![descriptor("n1")]), &tool())
        .unwrap();
    assert_eq!(paths, Vec::<String>::new());
    assert_eq!(channel.rss_channel.unwrap().items.len(), 3);
}

#[test]
fn keep_larger_than_list_evicts_nothing() {
    let existing = channel_with(vec![item("old1")]);
    let mut channel = new_channel(Some(existing));
    let paths = channel
        .update_with_playlist("http://localhost", Some(10), playlist(vec![]), &tool())
        .unwrap();
    assert_eq!(paths, Vec::<String>::new());
    assert_eq!(channel.rss_channel.unwrap().items.len(), 1);
}

// A newly created channel gets synthesized metadata; link and generator are
// refreshed on every pass.
#[test]
fn new_channel_metadata_defaults() {
    let mut channel = new_channel(None);
    channel
        .update_with_playlist("http://localhost", None, playlist(vec![descriptor("a1")]), &tool())
        .unwrap();
    let feed = channel.rss_channel.unwrap();
    assert_eq!(feed.title, "a playlist");
    assert_eq!(feed.description, "playcaster podcast feed for a playlist");
    assert_eq!(feed.category, "TV & Film");
    assert_eq!(feed.explicit, "No");
    assert_eq!(feed.block, "Yes");
    assert_eq!(feed.link, "https://example.net/playlist-page");
    assert_eq!(feed.generator, "playcaster/0.1.0");
    assert_eq!(feed.artwork_url, None);
}

#[test]
fn channel_title_falls_back_to_playlist_url() {
    let mut channel = new_channel(None);
    let p = PlaylistInfo {
        title: None,
        webpage_url: None,
        entries: Some(vec![descriptor("a1")]),
    };
    channel.update_with_playlist("http://localhost", None, p, &tool()).unwrap();
    let feed = channel.rss_channel.unwrap();
    assert_eq!(feed.title, "https://example.net/playlist");
    assert_eq!(feed.link, "https://example.net/playlist");
}

#[test]
fn existing_metadata_is_kept_but_link_and_generator_refresh() {
    let existing = channel_with(vec![item("old1")]);
    let mut channel = new_channel(Some(existing));
    channel
        .update_with_playlist("http://localhost", None, playlist(vec![]), &tool())
        .unwrap();
    let feed = channel.rss_channel.unwrap();
    assert_eq!(feed.title, "a feed");
    assert_eq!(feed.description, "a feed description");
    assert_eq!(feed.link, "https://example.net/playlist-page");
    assert_eq!(feed.generator, "playcaster/0.1.0");
}

// Channel artwork syncs from the freshest item that carries some; with none
// anywhere the existing artwork stays.
#[test]
fn artwork_syncs_from_freshest_item() {
    let mut with_art = descriptor("a1");
    with_art.thumbnail_url = Some("https://img.example.net/a1.jpg".to_string());
    let mut channel = new_channel(Some(channel_with(vec![item("old1")])));
    channel
        .update_with_playlist("http://localhost", None, playlist(vec![with_art]), &tool())
        .unwrap();
    assert_eq!(
        channel.rss_channel.unwrap().artwork_url.as_deref(),
        Some("https://img.example.net/a1.jpg")
    );
}

#[test]
fn artwork_untouched_when_no_item_has_any() {
    let mut existing = channel_with(vec![item("old1")]);
    existing.artwork_url = Some("https://img.example.net/channel.jpg".to_string());
    let mut channel = new_channel(Some(existing));
    channel
        .update_with_playlist("http://localhost", None, playlist(vec![descriptor("a1")]), &tool())
        .unwrap();
    assert_eq!(
        channel.rss_channel.unwrap().artwork_url.as_deref(),
        Some("https://img.example.net/channel.jpg")
    );
}

#[test]
fn empty_item_artwork_is_skipped() {
    let mut blank = descriptor("a1");
    blank.thumbnail_url = Some(String::new());
    let mut with_art = descriptor("b2");
    with_art.thumbnail_url = Some("https://img.example.net/b2.jpg".to_string());
    let mut channel = new_channel(None);
    channel
        .update_with_playlist("http://localhost", None, playlist(vec![blank, with_art]), &tool())
        .unwrap();
    assert_eq!(
        channel.rss_channel.unwrap().artwork_url.as_deref(),
        Some("https://img.example.net/b2.jpg")
    );
}

#[test]
fn fetch_without_entry_list_is_an_empty_batch() {
    let existing = channel_with(vec![item("old1")]);
    let mut channel = new_channel(Some(existing));
    let p = PlaylistInfo {
        title: None,
        webpage_url: None,
        entries: None,
    };
    channel.update_with_playlist("http://localhost", None, p, &tool()).unwrap();
    assert_eq!(channel.rss_channel.unwrap().items.len(), 1);
}

#[test]
fn downloader_args_exact() {
    let channel = new_channel(None);
    let args = channel.downloader_args(30, vec!["--quiet".to_string()]);
    assert_eq!(
        args,
        vec![
            "--playlist-end".to_string(),
            "30".to_string(),
            "--format".to_string(),
            "bestvideo[ext=mp4][vcodec^=avc1]+bestaudio[ext=m4a]/best[ext=mp4][vcodec^=avc1]/best[ext=mp4]/best"
                .to_string(),
            "--no-simulate".to_string(),
            "--quiet".to_string(),
            "--no-progress".to_string(),
            "--no-overwrites".to_string(),
            "--output".to_string(),
            "feeds/feed/%(id)s.%(ext)s".to_string(),
        ]
    );
}

#[test]
fn build_failure_leaves_channel_untouched() {
    let mut bad = descriptor("a1");
    bad.upload_date = Some("junk".to_string());
    let existing = channel_with(vec![item("old1")]);
    let mut channel = new_channel(Some(existing));
    let r = channel.update_with_playlist("http://localhost", None, playlist(vec![bad]), &tool());
    assert!(matches!(r, Err(Error::DownloadError(_))));
    let persisted = channel.rss_channel.unwrap();
    assert_eq!(persisted.items.len(), 1);
    assert_eq!(persisted.generator, "older-tool/0.0.1");
}
