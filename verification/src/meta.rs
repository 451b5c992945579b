//! What the tags of a file tell about a track.
use crate::text::chars_of;
use crate::text::trim;
use crate::text::trimmed;
use crate::text::matches_word;
use crate::text::same_ignoring_case;
use vstd::prelude::*;

verus! {

/// What is known of a track for display.
pub struct TrackMeta {
    pub title: Option<String>,
    pub artist: Option<String>,
    pub album: Option<String>,
    pub duration_ns: Option<u64>,
}

impl TrackMeta {
    /// Nothing known.
    pub fn empty() -> (meta: Self)
        ensures
            meta.title is None,
            meta.artist is None,
            meta.album is None,
            meta.duration_ns is None,
    {
        TrackMeta { title: None, artist: None, album: None, duration_ns: None }
    }
}

/// What a tag is about.
#[derive(Clone, Copy, Debug, PartialEq, Eq, Structural)]
pub enum TagKind {
    Title,
    Artist,
    Album,
    /// Anything else.
    Other,
}

/// What a tag's own key says it is about, whatever the case of its
/// letters.
pub open spec fn spec_raw_kind(key: Seq<char>) -> TagKind {
    if same_ignoring_case(key, "title"@) {
        TagKind::Title
    } else if same_ignoring_case(key, "artist"@) {
        TagKind::Artist
    } else if same_ignoring_case(key, "album"@) {
        TagKind::Album
    } else {
        TagKind::Other
    }
}

/// What a tag is about: what its standard key says, and else what its own
/// key says.
pub open spec fn spec_tag_kind(standard: TagKind, key: Seq<char>) -> TagKind {
    if standard != TagKind::Other {
        standard
    } else {
        spec_raw_kind(key)
    }
}

/// What a tag is about, going by its standard key first and by its own key
/// where that says nothing.
pub fn tag_kind(standard: TagKind, key: &str) -> (kind: TagKind)
    ensures
        kind == spec_tag_kind(standard, key@),
{
    match standard {
        TagKind::Other => {
            let chars = chars_of(key);
            if matches_word(&chars, "title") {
                TagKind::Title
            } else if matches_word(&chars, "artist") {
                TagKind::Artist
            } else if matches_word(&chars, "album") {
                TagKind::Album
            } else {
                TagKind::Other
            }
        },
        _ => standard,
    }
}

impl TrackMeta {
    /// Takes one tag in. The first value for a field stays; later ones for
    /// the same field are passed over, and so are tags about anything else.
    pub fn apply_tag(&mut self, kind: TagKind, value: String)
        ensures
            final(self).duration_ns == old(self).duration_ns,
            final(self).title == if kind == TagKind::Title && old(self).title is None {
                Some(value)
            } else {
                old(self).title
            },
            final(self).artist == if kind == TagKind::Artist && old(self).artist is None {
                Some(value)
            } else {
                old(self).artist
            },
            final(self).album == if kind == TagKind::Album && old(self).album is None {
                Some(value)
            } else {
                old(self).album
            },
    {
        match kind {
            TagKind::Title => {
                if self.title.is_none() {
                    self.title = Some(value);
                }
            },
            TagKind::Artist => {
                if self.artist.is_none() {
                    self.artist = Some(value);
                }
            },
            TagKind::Album => {
                if self.album.is_none() {
                    self.album = Some(value);
                }
            },
            TagKind::Other => {},
        }
    }

    /// Fills in the length where the tags did not tell it.
    pub fn fill_duration(&mut self, probed: Option<u64>)
        ensures
            final(self).title == old(self).title,
            final(self).artist == old(self).artist,
            final(self).album == old(self).album,
            final(self).duration_ns == if old(self).duration_ns is None {
                probed
            } else {
                old(self).duration_ns
            },
    {
        if self.duration_ns.is_none() {
            self.duration_ns = probed;
        }
    }
}

/// What is shown for a field: its value where it has one that is more than
/// blanks, and else the fallback.
pub open spec fn spec_shown(value: Option<String>, fallback: Seq<char>) -> Seq<char> {
    match value {
        Some(text) => if trimmed(text@).len() > 0 {
            text@
        } else {
            fallback
        },
        None => fallback,
    }
}

/// What is shown for a field of the metadata.
pub fn shown<'a>(value: &'a Option<String>, fallback: &'a str) -> (text: &'a str)
    ensures
        text@ == spec_shown(*value, fallback@),
{
    match value {
        Some(held) => {
            let chars = chars_of(held.as_str());
            if trim(&chars).len() > 0 {
                held.as_str()
            } else {
                fallback
            }
        },
        None => fallback,
    }
}

} // verus!
