//! The metadata of one track, as the embedders take it.

use vstd::prelude::*;
use vstd::slice::slice_to_vec;

verus! {

/// The album name that is written when the catalog gives none.
pub open spec fn unknown_album() -> Seq<char> {
    "Unknown Album"@
}

/// The MIME type under which cover art is embedded.
pub open spec fn cover_mime() -> Seq<char> {
    "image/jpeg"@
}

/// The description of the cover in an ID3v2 picture frame.
pub open spec fn id3_cover_description() -> Seq<char> {
    "Album Cover"@
}

/// The description of the cover in a FLAC picture block.
pub open spec fn flac_cover_description() -> Seq<char> {
    "Front cover"@
}

/// The colour depth that is declared for an embedded cover.
pub const COVER_DEPTH: u32 = 24;

/// What is known of a track when it is tagged.
#[derive(Debug, Clone)]
pub struct TagPayload {
    /// The title.
    pub title: String,
    /// The album, where the catalog names one.
    pub album: Option<String>,
    /// The artists, already joined into one string.
    pub artist: String,
    /// The length of the track in milliseconds, where the catalog gives it.
    pub duration_ms: Option<u64>,
}

/// A front cover as an ID3v2 picture frame holds it.
#[derive(Debug, Clone)]
pub struct FrontCover {
    pub mime_type: String,
    pub description: String,
    pub data: Vec<u8>,
}

/// The frames of a fresh ID3v2 tag, as plain values.
#[derive(Debug, Clone)]
pub struct Id3Fields {
    pub title: String,
    pub album: String,
    pub artist: String,
    /// Whole seconds.
    pub duration_secs: u32,
    pub cover: Option<FrontCover>,
}

impl FrontCover {
    /// The frame as a triple of MIME type, description and image bytes.
    pub open spec fn view(&self) -> (Seq<char>, Seq<char>, Seq<u8>) {
        (self.mime_type@, self.description@, self.data@)
    }
}

impl Id3Fields {
    /// The cover as a triple of MIME type, description and image bytes.
    pub open spec fn cover_view(&self) -> Option<(Seq<char>, Seq<char>, Seq<u8>)> {
        match self.cover {
            Some(cover) => Some(cover@),
            None => None,
        }
    }
}

/// The whole seconds in `duration_ms`, kept to 32 bits; 0 where the length is unknown.
pub open spec fn whole_seconds(duration_ms: Option<u64>) -> int {
    match duration_ms {
        Some(ms) => (ms as int / 1000) % 0x1_0000_0000,
        None => 0,
    }
}

impl TagPayload {
    /// The album name that is written: the track's own, else the placeholder.
    pub open spec fn spec_album_name(&self) -> Seq<char> {
        match self.album {
            Some(album) => album@,
            None => unknown_album(),
        }
    }

    /// The album name that is written: the track's own, else the placeholder.
    pub fn album_name(&self) -> (name: String)
        ensures
            name@ == self.spec_album_name(),
    {
        match &self.album {
            Some(album) => album.clone(),
            None => "Unknown Album".to_owned(),
        }
    }

    /// The length of the track in whole seconds.
    pub fn duration_secs(&self) -> (secs: u32)
        ensures
            secs as int == whole_seconds(self.duration_ms),
    {
        match self.duration_ms {
            Some(ms) => {
                let whole: u64 = ms / 1000;
                let low: u64 = whole % 0x1_0000_0000;
                low as u32
            },
            None => 0,
        }
    }

    /// The frames of the ID3v2 tag of this track: title, album, artist and
    /// length, and the artwork, if any, as a JPEG front cover.
    pub fn id3_fields(&self, artwork: Option<&[u8]>) -> (fields: Id3Fields)
        ensures
            fields.title@ == self.title@,
            fields.album@ == self.spec_album_name(),
            fields.artist@ == self.artist@,
            fields.duration_secs as int == whole_seconds(self.duration_ms),
            fields.cover_view() == (match artwork {
                Some(image) => Some((cover_mime(), id3_cover_description(), image@)),
                None => None,
            }),
    {
        let cover = match artwork {
            Some(image) => Some(
                FrontCover {
                    mime_type: "image/jpeg".to_owned(),
                    description: "Album Cover".to_owned(),
                    data: slice_to_vec(image),
                },
            ),
            None => None,
        };
        Id3Fields {
            title: self.title.clone(),
            album: self.album_name(),
            artist: self.artist.clone(),
            duration_secs: self.duration_secs(),
            cover,
        }
    }
}

} // verus!
