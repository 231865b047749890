//! ID3v2 tags at the head of an MP3 buffer: where the audio begins, and how a
//! fresh tag takes the place of the one that is there.

use vstd::prelude::*;
use id3::TagLike;
use vstd::slice::slice_subrange;
use crate::error::{FormatError, TagError};
use crate::tags::Id3Fields;

verus! {

/// Length of the ID3v2 header.
pub const ID3_HEADER_LEN: usize = 10;

/// One more than the largest size that four syncsafe bytes can hold.
pub const SYNCSAFE_LIMIT: usize = 0x1000_0000;

/// Bytes that the frames of a tag may take beyond their texts and image.
pub const ID3_FRAME_OVERHEAD: usize = 128;

/// The value of a four-byte syncsafe integer: seven low bits of each byte,
/// most significant byte first.
pub open spec fn syncsafe(b0: u8, b1: u8, b2: u8, b3: u8) -> int {
    (b0 as int % 128) * 0x20_0000 + (b1 as int % 128) * 0x4000 + (b2 as int % 128) * 0x80 + (
    b3 as int % 128)
}

/// Whether `data` begins with the bytes `I`, `D`, `3`.
pub open spec fn has_id3_magic(data: Seq<u8>) -> bool {
    data.len() >= 3 && data[0] == 0x49 && data[1] == 0x44 && data[2] == 0x33
}

/// The offset of the first audio byte: behind the ID3v2 tag where `data`
/// begins with a whole header, 0 otherwise.
pub open spec fn mp3_audio_start(data: Seq<u8>) -> int {
    if data.len() >= 10 && has_id3_magic(data) {
        10 + syncsafe(data[6], data[7], data[8], data[9])
    } else {
        0
    }
}

/// A buffer that holds exactly one ID3v2 tag: a header whose size field
/// counts all the bytes behind it.
pub open spec fn is_id3_tag(tag: Seq<u8>) -> bool {
    tag.len() >= 10 && has_id3_magic(tag) && mp3_audio_start(tag) == tag.len()
}

/// `data` with its leading tag, if any, replaced by `tag`.
pub open spec fn retagged(tag: Seq<u8>, data: Seq<u8>) -> Seq<u8> {
    tag + data.subrange(mp3_audio_start(data), data.len() as int)
}

/// The number of bytes that a text takes in UTF-8.
pub open spec fn utf8_len(text: Seq<char>) -> nat {
    vstd::utf8::encode_utf8(text).len()
}

/// An upper bound on the size of the frames that `fields` encode to.
pub open spec fn id3_size_bound(fields: &Id3Fields) -> nat {
    128 + utf8_len(fields.title@) + utf8_len(fields.album@) + utf8_len(fields.artist@) + (
    match fields.cover {
        Some(cover) => utf8_len(cover.mime_type@) + utf8_len(cover.description@)
            + cover.data@.len(),
        None => 0nat,
    })
}

/// The tag that `fields` encode to.
pub open spec fn id3_tag_of(fields: &Id3Fields) -> Seq<u8> {
    id3v24_bytes(
        fields.title@,
        fields.album@,
        fields.artist@,
        fields.duration_secs,
        fields.cover_view(),
    )
}

/// What tagging the buffer `data` comes to, with a tag `tag` whose frames
/// take at most `bound` bytes. A header that announces more bytes than the
/// buffer holds is a truncated buffer. Frames of 2^28 bytes or more, and a
/// result that no buffer can hold, are too large. In every other case the
/// tag stands before the audio of the buffer.
pub open spec fn id3_outcome(data: Seq<u8>, tag: Seq<u8>, bound: nat) -> Result<Seq<u8>, TagError> {
    if mp3_audio_start(data) > data.len() {
        Err(TagError::Format(FormatError::Truncated))
    } else if bound >= 0x1000_0000 || tag.len() + data.len() - mp3_audio_start(data)
        > usize::MAX {
        Err(TagError::TooLarge)
    } else {
        Ok(retagged(tag, data))
    }
}

/// Decodes the syncsafe size of an ID3v2 header.
pub fn syncsafe_size(b0: u8, b1: u8, b2: u8, b3: u8) -> (size: u32)
    ensures
        size as int == syncsafe(b0, b1, b2, b3),
        size < 0x1000_0000,
{
    let size: u32 = ((b0 as u32 & 0x7F) << 21) | ((b1 as u32 & 0x7F) << 14) | ((b2 as u32 & 0x7F)
        << 7) | (b3 as u32 & 0x7F);
    assert(size == (b0 as u32 % 128) * 0x20_0000 + (b1 as u32 % 128) * 0x4000 + (b2 as u32 % 128)
        * 0x80 + (b3 as u32 % 128) && size < 0x1000_0000) by (bit_vector)
        requires
            size == ((b0 as u32 & 0x7F) << 21) | ((b1 as u32 & 0x7F) << 14) | ((b2 as u32 & 0x7F)
                << 7) | (b3 as u32 & 0x7F),
    ;
    size
}

/// Finds the first audio byte of an MP3 buffer.
pub fn find_mp3_audio_start(data: &[u8]) -> (start: usize)
    ensures
        start as int == mp3_audio_start(data@),
{
    if data.len() < 10 || data[0] != 0x49 || data[1] != 0x44 || data[2] != 0x33 {
        return 0;
    }
    let size = syncsafe_size(data[6], data[7], data[8], data[9]);
    ID3_HEADER_LEN + size as usize
}

/// Builds the buffer anew from `tag` and the audio of `data`, in one
/// allocation, and leaves no spare capacity.
pub fn splice_id3(data: &mut Vec<u8>, tag: &[u8]) -> (result: Result<(), TagError>)
    ensures
        mp3_audio_start(old(data)@) > old(data)@.len() <==> result == Err::<(), TagError>(
            TagError::Format(FormatError::Truncated),
        ),
        mp3_audio_start(old(data)@) <= old(data)@.len() && tag@.len() + old(data)@.len()
            - mp3_audio_start(old(data)@) > usize::MAX <==> result == Err::<(), TagError>(
            TagError::TooLarge,
        ),
        result is Ok ==> final(data)@ == retagged(tag@, old(data)@),
        result is Err ==> final(data)@ == old(data)@,
        !(result matches Err(TagError::Encoder)),
        !(result matches Err(TagError::Format(FormatError::NotFlac))),
        !(result matches Err(TagError::Format(FormatError::UnexpectedEnd))),
{
    let start = find_mp3_audio_start(data.as_slice());
    if start > data.len() {
        return Err(TagError::Format(FormatError::Truncated));
    }
    let rest = data.len() - start;
    if rest > usize::MAX - tag.len() {
        return Err(TagError::TooLarge);
    }
    let mut rebuilt: Vec<u8> = Vec::with_capacity(tag.len() + rest);
    rebuilt.extend_from_slice(tag);
    rebuilt.extend_from_slice(slice_subrange(data.as_slice(), start, data.len()));
    assert(rebuilt@ =~= retagged(tag@, data@));
    *data = rebuilt;
    release_spare_capacity(data);
    Ok(())
}

/// `Vec::shrink_to_fit`: gives back capacity beyond the length and keeps the
/// contents as they are.
#[verifier::external_body]
pub(crate) fn release_spare_capacity(data: &mut Vec<u8>)
    ensures
        final(data)@ == old(data)@,
{
    data.shrink_to_fit();
}

/// The error of the `id3` crate. Nothing is read of it.
#[verifier::external_type_specification]
#[verifier::external_body]
pub struct ExId3Error(id3::Error);

/// The bytes that the `id3` crate writes for a fresh ID3v2.4 tag with a
/// title, an album, an artist, a length and, where one is given, a front
/// cover (MIME type, description, image).
pub uninterp spec fn id3v24_bytes(
    title: Seq<char>,
    album: Seq<char>,
    artist: Seq<char>,
    duration_secs: u32,
    cover: Option<(Seq<char>, Seq<char>, Seq<u8>)>,
) -> Seq<u8>;

/// `id3::Tag::new`, the setters `set_title`, `set_album`, `set_artist` and
/// `set_duration`, `add_frame` with a front-cover `Picture`, and
/// `Tag::write_to` with `Version::Id3v24`.
///
/// The encoder refuses, by a panic, frames of 2^28 bytes or more, so the
/// caller keeps the texts and the image under that size. Text frames and a
/// picture frame pass the encoder's validation, and writing into a vector
/// cannot fail, so the call succeeds. What is written is the ten-byte header
/// (`ID3`, version, flags, the syncsafe size of the frames) and then the
/// frames, with no padding: the result is one whole tag, of no more bytes
/// than the header and the bound on the frames come to.
#[verifier::external_body]
pub(crate) fn encode_id3v24(fields: &Id3Fields) -> (result: Result<Vec<u8>, id3::Error>)
    requires
        id3_size_bound(fields) < 0x1000_0000,
    ensures
        result is Ok,
        result matches Ok(bytes) ==> bytes@ == id3v24_bytes(
            fields.title@,
            fields.album@,
            fields.artist@,
            fields.duration_secs,
            fields.cover_view(),
        ) && is_id3_tag(bytes@) && bytes@.len() <= 10 + id3_size_bound(fields),
{
    let mut tag = id3::Tag::new();
    tag.set_title(fields.title.as_str());
    tag.set_album(fields.album.as_str());
    tag.set_artist(fields.artist.as_str());
    tag.set_duration(fields.duration_secs);
    if let Some(cover) = &fields.cover {
        tag.add_frame(id3::frame::Picture {
            mime_type: cover.mime_type.clone(),
            picture_type: id3::frame::PictureType::CoverFront,
            description: cover.description.clone(),
            data: cover.data.clone(),
        });
    }
    let mut bytes = Vec::new();
    tag.write_to(&mut bytes, id3::Version::Id3v24).map(|_| bytes)
}

/// Whether the frames of `fields` stay under the size that a tag can declare.
pub fn id3_size_within_limit(fields: &Id3Fields) -> (fits: bool)
    ensures
        fits == (id3_size_bound(fields) < 0x1000_0000),
{
    let mut total: usize = ID3_FRAME_OVERHEAD;
    let title = fields.title.as_str().as_bytes().len();
    if title >= SYNCSAFE_LIMIT - total {
        return false;
    }
    total = total + title;
    let album = fields.album.as_str().as_bytes().len();
    if album >= SYNCSAFE_LIMIT - total {
        return false;
    }
    total = total + album;
    let artist = fields.artist.as_str().as_bytes().len();
    if artist >= SYNCSAFE_LIMIT - total {
        return false;
    }
    total = total + artist;
    match &fields.cover {
        Some(cover) => {
            let mime = cover.mime_type.as_str().as_bytes().len();
            if mime >= SYNCSAFE_LIMIT - total {
                return false;
            }
            total = total + mime;
            let description = cover.description.as_str().as_bytes().len();
            if description >= SYNCSAFE_LIMIT - total {
                return false;
            }
            total = total + description;
            cover.data.len() < SYNCSAFE_LIMIT - total
        },
        None => true,
    }
}

/// Writes a fresh ID3v2.4 tag with `fields` at the head of `data`, in place
/// of the tag that `data` begins with, if it begins with one.
///
/// A header that announces more bytes than `data` holds is reported as
/// truncated, and frames too large for a tag as too large; `data` then stays
/// as it was. Every other buffer is tagged: the new tag is one whole tag, and
/// the audio that the buffer held is found directly behind it, at 10 plus the
/// size that the new header declares.
pub fn embed_id3(data: &mut Vec<u8>, fields: &Id3Fields) -> (result: Result<(), TagError>)
    ensures
        match id3_outcome(old(data)@, id3_tag_of(fields), id3_size_bound(fields)) {
            Ok(tagged) => result is Ok && final(data)@ == tagged,
            Err(error) => result == Err::<(), TagError>(error) && final(data)@ == old(data)@,
        },
        mp3_audio_start(old(data)@) <= old(data)@.len() && id3_size_bound(fields) < 0x1000_0000
            ==> is_id3_tag(id3_tag_of(fields)) && id3_tag_of(fields).len() <= 10 + id3_size_bound(
            fields,
        ),
        result is Ok ==> {
            &&& mp3_audio_start(final(data)@) == id3_tag_of(fields).len()
            &&& mp3_audio_start(final(data)@) == 10 + syncsafe(
                final(data)@[6],
                final(data)@[7],
                final(data)@[8],
                final(data)@[9],
            )
            &&& final(data)@.subrange(mp3_audio_start(final(data)@), final(data)@.len() as int)
                == old(data)@.subrange(mp3_audio_start(old(data)@), old(data)@.len() as int)
        },
{
    let start = find_mp3_audio_start(data.as_slice());
    if start > data.len() {
        return Err(TagError::Format(FormatError::Truncated));
    }
    if !id3_size_within_limit(fields) {
        return Err(TagError::TooLarge);
    }
    match encode_id3v24(fields) {
        Ok(tag) => {
            proof {
                lemma_audio_follows_new_tag(tag@, data@);
            }
            splice_id3(data, tag.as_slice())
        },
        Err(_) => Err(TagError::Encoder),
    }
}

/// After a whole tag has been written in front of a buffer, the audio is
/// found directly behind that tag, and it is the audio that the buffer held
/// before: all of the buffer where it had no tag of its own.
pub proof fn lemma_audio_follows_new_tag(tag: Seq<u8>, data: Seq<u8>)
    requires
        is_id3_tag(tag),
        mp3_audio_start(data) <= data.len(),
    ensures
        mp3_audio_start(retagged(tag, data)) == tag.len(),
        retagged(tag, data).subrange(tag.len() as int, retagged(tag, data).len() as int)
            == data.subrange(mp3_audio_start(data), data.len() as int),
        mp3_audio_start(data) == 0 ==> retagged(tag, data).subrange(
            tag.len() as int,
            retagged(tag, data).len() as int,
        ) == data,
{
    let whole = retagged(tag, data);
    assert(whole.len() >= 10);
    assert(whole[0] == tag[0] && whole[1] == tag[1] && whole[2] == tag[2]);
    assert(whole[6] == tag[6] && whole[7] == tag[7] && whole[8] == tag[8] && whole[9] == tag[9]);
    assert(whole.subrange(tag.len() as int, whole.len() as int) =~= data.subrange(
        mp3_audio_start(data),
        data.len() as int,
    ));
    if mp3_audio_start(data) == 0 {
        assert(data.subrange(0, data.len() as int) =~= data);
    }
}

/// Tagging twice leaves one tag: the second tag takes the place of the
/// first, so that the buffer is what tagging once with the second would give.
pub proof fn lemma_retagging_replaces(first: Seq<u8>, second: Seq<u8>, data: Seq<u8>)
    requires
        is_id3_tag(first),
        mp3_audio_start(data) <= data.len(),
    ensures
        retagged(second, retagged(first, data)) == retagged(second, data),
{
    lemma_audio_follows_new_tag(first, data);
}

} // verus!
