use vstd::prelude::*;

use crate::text::{lemma_rfind, rfind, rfind_char};

verus! {

/// The validated pieces of a feed file path. The media directory of the feed
/// is the directory named after `stem`, sibling to the feed file.
#[derive(Debug)]
pub struct FeedPath {
    /// Directory holding the feed file: empty for a bare file name, `"/"`
    /// when the feed file sits in the root directory.
    pub parent: String,
    /// Feed file base name without its extension.
    pub stem: String,
    /// Feed file extension, without the dot.
    pub extension: String,
}

/// Split a path string into parent directory, stem and extension, or `None`
/// when the file name is missing, has an empty stem, or has no extension.
/// A leading dot does not start an extension.
pub open spec fn path_pieces(s: Seq<char>) -> Option<(Seq<char>, Seq<char>, Seq<char>)> {
    let sl = rfind(s, '/');
    let name = s.subrange(sl + 1, s.len() as int);
    let dot = rfind(name, '.');
    if dot <= 0 || dot >= name.len() - 1 {
        None
    } else {
        Some(
            (
                s.subrange(0, if sl <= 0 { sl + 1 } else { sl }),
                name.subrange(0, dot),
                name.subrange(dot + 1, name.len() as int),
            ),
        )
    }
}

/// The media directory of a feed, with a trailing slash: the parent directory
/// (when there is one) followed by the stem.
pub open spec fn media_dir_spec(parent: Seq<char>, stem: Seq<char>) -> Seq<char> {
    let dir = if parent.len() == 0 {
        parent
    } else if parent.last() == '/' {
        parent
    } else {
        parent + "/"@
    };
    dir + stem + "/"@
}

/// The on-disk path of the media file backing item `id`.
pub open spec fn media_path_spec(parent: Seq<char>, stem: Seq<char>, id: Seq<char>) -> Seq<char> {
    media_dir_spec(parent, stem) + id + ".mp4"@
}

impl FeedPath {
    /// Validate and split a feed file path eagerly, before any fetch work.
    pub fn parse(path: &str) -> (r: Option<FeedPath>)
        ensures
            match r {
                Some(p) => path_pieces(path@) matches Some(pieces) && p.parent@ == pieces.0
                    && p.stem@ == pieces.1 && p.extension@ == pieces.2,
                None => path_pieces(path@) is None,
            },
    {
        let n = path.unicode_len();
        proof {
            lemma_rfind(path@, '/');
        }
        let name_start = match rfind_char(path, '/') {
            Some(i) => i + 1,
            None => 0,
        };
        let name = path.substring_char(name_start, n);
        let name_len = n - name_start;
        let dot = match rfind_char(name, '.') {
            Some(d) => d,
            None => {
                return None;
            },
        };
        proof {
            lemma_rfind(name@, '.');
        }
        if dot == 0 || dot >= name_len - 1 {
            return None;
        }
        let parent = if name_start == 0 {
            String::new()
        } else if name_start == 1 {
            path.substring_char(0, 1).to_owned()
        } else {
            path.substring_char(0, name_start - 1).to_owned()
        };
        let stem = name.substring_char(0, dot).to_owned();
        let extension = name.substring_char(dot + 1, name_len).to_owned();
        Some(FeedPath { parent, stem, extension })
    }

    /// The media directory of this feed, with a trailing slash.
    pub fn media_dir(&self) -> (r: String)
        ensures
            r@ == media_dir_spec(self.parent@, self.stem@),
    {
        let mut s = String::new();
        let n = self.parent.as_str().unicode_len();
        if n > 0 {
            s.append(self.parent.as_str());
            if self.parent.as_str().get_char(n - 1) != '/' {
                s.append("/");
            }
        }
        s.append(self.stem.as_str());
        s.append("/");
        proof {
            assert(s@ =~= media_dir_spec(self.parent@, self.stem@));
        }
        s
    }

    /// The on-disk path of the media file backing item `id`.
    pub fn media_file_path(&self, id: &str) -> (r: String)
        ensures
            r@ == media_path_spec(self.parent@, self.stem@, id@),
    {
        let mut s = self.media_dir();
        s.append(id);
        s.append(".mp4");
        proof {
            assert(s@ =~= media_path_spec(self.parent@, self.stem@, id@));
        }
        s
    }
}

} // verus!
