use vstd::prelude::*;

use crate::audio::basename_of;
use crate::text::chars_vec;

verus! {

/// Ghost projection of a [`Track`]: every field as a plain mathematical value.
pub ghost struct TrackView {
    pub title: Seq<char>,
    pub artist: Option<Seq<char>>,
    pub album: Option<Seq<char>>,
    pub path: Seq<char>,
    pub duration_ms: u64,
}

/// The views of a sequence of tracks.
pub open spec fn track_views(v: Seq<Track>) -> Seq<TrackView> {
    v.map_values(|t: Track| t@)
}

/// Immutable descriptor of one track in the library catalog: display
/// metadata, the path of the underlying audio file, and the decoded
/// duration in milliseconds.
#[derive(Debug)]
pub struct Track {
    title: String,
    pub artist: Option<String>,
    pub album: Option<String>,
    path: String,
    duration_ms: u64,
}

impl View for Track {
    type V = TrackView;

    closed spec fn view(&self) -> TrackView {
        TrackView {
            title: self.title@,
            artist: match self.artist {
                Some(a) => Some(a@),
                None => None,
            },
            album: match self.album {
                Some(a) => Some(a@),
                None => None,
            },
            path: self.path@,
            duration_ms: self.duration_ms,
        }
    }
}

impl Track {
    /// Builds a descriptor from already-extracted metadata.
    pub fn new(
        title: String,
        artist: Option<String>,
        album: Option<String>,
        path: String,
        duration_ms: u64,
    ) -> (t: Track)
        ensures
            t@.title == title@,
            t@.artist == (match artist {
                Some(a) => Some(a@),
                None => None::<Seq<char>>,
            }),
            t@.album == (match album {
                Some(a) => Some(a@),
                None => None::<Seq<char>>,
            }),
            t@.path == path@,
            t@.duration_ms == duration_ms,
    {
        Track { title, artist, album, path, duration_ms }
    }

    /// Title fallback: an explicitly tagged title is taken as is; a track
    /// without one is titled by the basename of its file path.
    pub fn get_title(title_opt: Option<&str>, path: &String) -> (r: String)
        ensures
            r@ == (match title_opt {
                Some(t) => t@,
                None => basename_of(path@),
            }),
    {
        match title_opt {
            Some(t) => t.to_owned(),
            None => {
                let cs = chars_vec(path.as_str());
                let n = cs.len();
                let mut title = String::new();
                let mut i: usize = 0;
                while i < n
                    invariant
                        n == cs.len(),
                        i <= n,
                        cs@ == path@,
                        title@ == basename_of(cs@.take(i as int)),
                    decreases n - i,
                {
                    let c = cs[i];
                    if c == '/' {
                        title = String::new();
                    } else {
                        title.push(c);
                    }
                    proof {
                        assert(cs@.take(i + 1).drop_last() =~= cs@.take(i as int));
                        assert(cs@.take(i + 1).last() == cs@[i as int]);
                    }
                    i += 1;
                }
                proof {
                    assert(cs@.take(n as int) =~= cs@);
                }
                title
            },
        }
    }

    pub fn title(&self) -> (r: &String)
        ensures
            r@ == self@.title,
    {
        &self.title
    }

    pub fn path(&self) -> (r: &String)
        ensures
            r@ == self@.path,
    {
        &self.path
    }

    pub fn duration_ms(&self) -> (r: u64)
        ensures
            r == self@.duration_ms,
    {
        self.duration_ms
    }
}

impl Clone for Track {
    /// Cloning preserves the whole projection.
    fn clone(&self) -> (r: Self)
        ensures
            r@ == self@,
    {
        Track {
            title: self.title.clone(),
            artist: match &self.artist {
                Some(a) => Some(a.clone()),
                None => None,
            },
            album: match &self.album {
                Some(a) => Some(a.clone()),
                None => None,
            },
            path: self.path.clone(),
            duration_ms: self.duration_ms,
        }
    }
}

} // verus!
