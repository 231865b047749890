//! Editing the metadata of a FLAC buffer: the comments and the front cover
//! of a track are set in the decoded blocks, and the buffer is built anew
//! from the encoded blocks and the untouched audio frames.

use vstd::prelude::*;
use vstd::slice::{slice_subrange, slice_to_vec};
use crate::error::{FormatError, TagError};
use crate::flac::{
    declared_comment_len, find_flac_audio_start, first_comment_len, flac_audio_start,
    flac_metadata_readable, has_flac_magic, keeps_audio, lemma_audio_start_of_prefix,
    lemma_first_comment_len_range, lemma_metadata_end_is_behind, metadata_readable,
};
use crate::mp3::{release_spare_capacity, utf8_len};
use crate::tags::{cover_mime, flac_cover_description, TagPayload, COVER_DEPTH};

verus! {

/// A picture block, as a value.
pub struct PictureBlock {
    pub kind: int,
    pub mime_type: Seq<char>,
    pub description: Seq<char>,
    pub width: u32,
    pub height: u32,
    pub depth: u32,
    pub num_colors: u32,
    pub data: Seq<u8>,
}

/// What the edits read and change of a tag: the comments of its comment
/// block, by key, and its picture blocks in their order.
pub struct FlacContents {
    pub comments: Map<Seq<char>, Seq<Seq<char>>>,
    pub pictures: Seq<PictureBlock>,
}

/// The sizes in which the blocks of a tag are written.
pub struct FlacLayout {
    /// The number of blocks.
    pub blocks: nat,
    /// The bytes of the content of the first comment block; 0 without one.
    pub comment_len: nat,
    /// The bytes of the largest content among the other blocks.
    pub largest_other: nat,
    /// The bytes of all blocks, headers included.
    pub encoded_len: nat,
    /// The cue sheets whose catalog number is longer than 128 bytes or that
    /// hold a track code longer than 12 bytes: the encoder writes none of
    /// these.
    pub long_cue_sheets: nat,
}

/// A front cover that is put into a tag.
#[derive(Debug, Clone)]
pub struct FlacCover {
    pub mime_type: String,
    pub description: String,
    pub width: u32,
    pub height: u32,
    pub depth: u32,
    pub num_colors: u32,
    pub data: Vec<u8>,
}

/// What is written into the tag of one track.
#[derive(Debug, Clone)]
pub struct FlacEdits {
    pub title: String,
    pub album: String,
    pub artist: String,
    pub cover: Option<FlacCover>,
}

impl FlacCover {
    /// The picture block that this cover becomes.
    pub open spec fn view(&self) -> PictureBlock {
        PictureBlock {
            kind: 3,
            mime_type: self.mime_type@,
            description: self.description@,
            width: self.width,
            height: self.height,
            depth: self.depth,
            num_colors: self.num_colors,
            data: self.data@,
        }
    }

    /// An upper bound on the bytes of the block that this cover becomes.
    pub open spec fn size_bound(&self) -> nat {
        64 + utf8_len(self.mime_type@) + utf8_len(self.description@) + self.data@.len()
    }
}

impl FlacEdits {
    /// The cover as a picture block.
    pub open spec fn cover_view(&self) -> Option<PictureBlock> {
        match self.cover {
            Some(cover) => Some(cover@),
            None => None,
        }
    }

    /// An upper bound on the bytes by which these edits let the comment
    /// block of a tag grow.
    pub open spec fn comment_growth(&self) -> nat {
        103 + utf8_len(self.title@) + utf8_len(self.album@) + utf8_len(self.artist@)
    }

    /// The size of the picture block of these edits, at most; 0 without a cover.
    pub open spec fn cover_bound(&self) -> nat {
        match self.cover {
            Some(cover) => cover.size_bound(),
            None => 0nat,
        }
    }

    /// An upper bound on the bytes by which these edits let a tag grow.
    pub open spec fn growth(&self) -> nat {
        164 + utf8_len(self.title@) + utf8_len(self.album@) + utf8_len(self.artist@) + (
        match self.cover {
            Some(cover) => cover.size_bound(),
            None => 0nat,
        })
    }
}

/// The contents of a tag without blocks.
pub open spec fn no_contents() -> FlacContents {
    FlacContents { comments: Map::empty(), pictures: Seq::empty() }
}

/// The layout of a tag without blocks.
pub open spec fn no_blocks() -> FlacLayout {
    FlacLayout { blocks: 0, comment_len: 0, largest_other: 0, encoded_len: 0, long_cue_sheets: 0 }
}

/// Whether blocks of this layout are written as metadata that can be read
/// again: there is a block, and the content of each fits the three bytes in
/// which a block header declares its length.
pub open spec fn well_laid_out(layout: FlacLayout) -> bool {
    layout.blocks >= 1 && layout.comment_len < 0x100_0000 && layout.largest_other < 0x100_0000
}

/// The larger of two sizes.
pub open spec fn larger(a: nat, b: nat) -> nat {
    if a >= b {
        a
    } else {
        b
    }
}

/// Whether a picture block holds a front cover.
pub open spec fn is_front_cover(picture: PictureBlock) -> bool {
    picture.kind == 3
}

/// The front covers among `pictures`.
pub open spec fn front_covers(pictures: Seq<PictureBlock>) -> Seq<PictureBlock> {
    pictures.filter(|picture: PictureBlock| is_front_cover(picture))
}

/// `pictures` without its front covers.
pub open spec fn without_front_covers(pictures: Seq<PictureBlock>) -> Seq<PictureBlock> {
    pictures.filter(|picture: PictureBlock| !is_front_cover(picture))
}

/// A key that is stored as it is written: it holds no lower-case ASCII letter.
pub open spec fn is_comment_key(key: Seq<char>) -> bool {
    forall|i: int| 0 <= i < key.len() ==> !('a' <= #[trigger] key[i] <= 'z')
}

/// The contents of a tag after title, album, artist and cover were set:
/// title, album and artist hold one value each, every other comment is as it
/// was, and a cover, where one is given, stands behind the pictures that are
/// no front cover.
pub open spec fn edited_with(
    contents: FlacContents,
    title: Seq<char>,
    album: Seq<char>,
    artist: Seq<char>,
    cover: Option<PictureBlock>,
) -> FlacContents {
    FlacContents {
        comments: contents.comments.insert("TITLE"@, seq![title]).insert(
            "ALBUM"@,
            seq![album],
        ).insert("ARTIST"@, seq![artist]),
        pictures: match cover {
            Some(picture) => without_front_covers(contents.pictures).push(picture),
            None => contents.pictures,
        },
    }
}

/// The contents of a tag after the edits.
pub open spec fn edited(contents: FlacContents, edits: &FlacEdits) -> FlacContents {
    edited_with(contents, edits.title@, edits.album@, edits.artist@, edits.cover_view())
}

/// The contents that the edits of a buffer start from: what the decoder
/// reads from its metadata, and nothing where the metadata is not readable
/// or the decoder reports an error.
pub open spec fn start_contents(data: Seq<u8>) -> FlacContents {
    if metadata_readable(data) {
        match flac_read(data) {
            Some(contents) => contents,
            None => no_contents(),
        }
    } else {
        no_contents()
    }
}

/// The contents of the metadata of a buffer after it was tagged.
pub open spec fn tagged_contents(
    before: Seq<u8>,
    title: Seq<char>,
    album: Seq<char>,
    artist: Seq<char>,
    cover: Option<PictureBlock>,
) -> FlacContents {
    edited_with(start_contents(before), title, album, artist, cover)
}

/// Whether `after` is the buffer `before`, tagged: it is the writing of a
/// tag that holds what the metadata of `before` held, with title, album,
/// artist and cover set, and behind that writing the audio frames of
/// `before`.
pub open spec fn flac_tagged(
    before: Seq<u8>,
    after: Seq<u8>,
    title: Seq<char>,
    album: Seq<char>,
    artist: Seq<char>,
    cover: Option<PictureBlock>,
) -> bool {
    exists|tag: metaflac::Tag, head: Seq<u8>|
        {
            &&& flac_contents(tag) == tagged_contents(before, title, album, artist, cover)
            &&& #[trigger] flac_written(tag, head)
            &&& flac_audio_start(before) matches Ok(end) && after == head + before.subrange(
                end,
                before.len() as int,
            )
        }
}

/// The decoded metadata blocks of the `metaflac` crate. What the edits read
/// of them goes by the names below.
#[verifier::external_type_specification]
#[verifier::external_body]
pub struct ExFlacTag(metaflac::Tag);

/// The error of the `metaflac` crate. Nothing is read of it.
#[verifier::external_type_specification]
#[verifier::external_body]
pub struct ExFlacError(metaflac::Error);

/// The comments of the first comment block of a tag (none where it has no
/// such block) and its picture blocks.
pub uninterp spec fn flac_contents(tag: metaflac::Tag) -> FlacContents;

/// How the blocks of a tag are written, in numbers: how many blocks there
/// are, how many bytes the content of the first comment block takes (0 where
/// there is none), how many the largest content of any other block, how many
/// all blocks together, their headers of four bytes included, and how many
/// cue sheets hold a text too long to be written.
pub uninterp spec fn flac_layout(tag: metaflac::Tag) -> FlacLayout;

/// What the `metaflac` crate decodes from the metadata of a buffer: the
/// contents of the tag that it reads, and `None` where it reports an error.
pub uninterp spec fn flac_read(data: Seq<u8>) -> Option<FlacContents>;

/// Whether `bytes` are bytes that the `metaflac` crate writes for `tag`. The
/// comments of a tag may be written in more than one order, so a tag has more
/// than one such writing.
pub uninterp spec fn flac_written(tag: metaflac::Tag, bytes: Seq<u8>) -> bool;

/// The pixel size that the `image` crate decodes from an image file; `None`
/// where it cannot decode the bytes.
pub uninterp spec fn image_size(image: Seq<u8>) -> Option<(u32, u32)>;

/// `metaflac::Tag::new`: a tag with no blocks.
#[verifier::external_body]
pub(crate) fn new_flac_tag() -> (tag: metaflac::Tag)
    ensures
        flac_contents(tag) == no_contents(),
        flac_layout(tag) == no_blocks(),
{
    metaflac::Tag::new()
}

/// `metaflac::Tag::read_from` on the bytes of a buffer.
///
/// The decoders of the blocks index into the payload without a check, so the
/// caller hands over only metadata whose blocks are readable. A block is
/// written in the bytes it was read from, or fewer; only a cue sheet whose
/// last index point lacks its three unread bytes is written three bytes
/// longer, and a cue sheet of 255 tracks with 255 index points each takes
/// under a MiB. So the blocks of the tag take at most twice the room of the
/// metadata of the buffer, the first comment block no more than the buffer
/// declares for it, and every other block less than 2^24 bytes. The catalog
/// number of a cue sheet is read from 128 bytes and a track code from 12, so
/// neither is longer than the encoder writes.
#[verifier::external_body]
pub(crate) fn read_flac_tag(data: &[u8]) -> (result: Result<metaflac::Tag, metaflac::Error>)
    requires
        metadata_readable(data@),
    ensures
        result matches Ok(tag) ==> (flac_audio_start(data@) matches Ok(end) && flac_layout(
            tag,
        ).encoded_len <= 2 * end),
        result matches Ok(tag) ==> flac_layout(tag).comment_len <= first_comment_len(data@, 4),
        result matches Ok(tag) ==> flac_layout(tag).largest_other <= 0xFF_FFFF,
        result matches Ok(tag) ==> flac_layout(tag).long_cue_sheets == 0,
        result is Ok == flac_read(data@) is Some,
        result matches Ok(tag) ==> flac_read(data@) == Some(flac_contents(tag)),
{
    metaflac::Tag::read_from(&mut std::io::Cursor::new(data))
}

/// `metaflac::Tag::set_vorbis` with one value: the comment block (a new one
/// where the tag has none) holds exactly `value` under `key`, and nothing
/// else changes. The crate stores the key in upper case, which is the key as
/// written where it has no lower-case letter. A comment is written as four
/// bytes of length, the key, `=` and the value; a new block has eight bytes
/// of content before its comments and four bytes of header. The block that
/// changes, or comes, is the first comment block.
#[verifier::external_body]
pub(crate) fn set_flac_comment(tag: &mut metaflac::Tag, key: &str, value: &str)
    requires
        is_comment_key(key@),
    ensures
        flac_contents(*final(tag)).comments == flac_contents(*old(tag)).comments.insert(
            key@,
            seq![value@],
        ),
        flac_contents(*final(tag)).pictures == flac_contents(*old(tag)).pictures,
        flac_layout(*final(tag)).encoded_len <= flac_layout(*old(tag)).encoded_len + 32 + 4
            * key@.len() + utf8_len(value@),
        flac_layout(*final(tag)).comment_len <= flac_layout(*old(tag)).comment_len + 13 + 4
            * key@.len() + utf8_len(value@),
        flac_layout(*final(tag)).largest_other == flac_layout(*old(tag)).largest_other,
        flac_layout(*final(tag)).long_cue_sheets == flac_layout(*old(tag)).long_cue_sheets,
        flac_layout(*final(tag)).blocks >= 1,
{
    tag.set_vorbis(key, vec![value]);
}

/// `metaflac::Tag::remove_picture_type` with `PictureType::CoverFront`: the
/// front covers leave, the other blocks stay in their order.
#[verifier::external_body]
pub(crate) fn remove_front_covers(tag: &mut metaflac::Tag)
    ensures
        flac_contents(*final(tag)).pictures == without_front_covers(
            flac_contents(*old(tag)).pictures,
        ),
        flac_contents(*final(tag)).comments == flac_contents(*old(tag)).comments,
        flac_layout(*final(tag)).encoded_len <= flac_layout(*old(tag)).encoded_len,
        flac_layout(*final(tag)).comment_len == flac_layout(*old(tag)).comment_len,
        flac_layout(*final(tag)).largest_other <= flac_layout(*old(tag)).largest_other,
        flac_layout(*final(tag)).long_cue_sheets == flac_layout(*old(tag)).long_cue_sheets,
{
    tag.remove_picture_type(metaflac::block::PictureType::CoverFront);
}

/// `metaflac::Tag::push_block` with a `Block::Picture` of type
/// `PictureType::CoverFront`: the picture becomes the last block. It is
/// written as a header of 4 bytes, 32 bytes of fixed fields, the MIME type,
/// the description and the image.
#[verifier::external_body]
pub(crate) fn push_front_cover(tag: &mut metaflac::Tag, cover: &FlacCover)
    ensures
        flac_contents(*final(tag)).pictures == flac_contents(*old(tag)).pictures.push(cover@),
        flac_contents(*final(tag)).comments == flac_contents(*old(tag)).comments,
        flac_layout(*final(tag)).encoded_len <= flac_layout(*old(tag)).encoded_len
            + cover.size_bound(),
        flac_layout(*final(tag)).comment_len == flac_layout(*old(tag)).comment_len,
        flac_layout(*final(tag)).largest_other <= larger(
            flac_layout(*old(tag)).largest_other,
            cover.size_bound(),
        ),
        flac_layout(*final(tag)).long_cue_sheets == flac_layout(*old(tag)).long_cue_sheets,
        flac_layout(*final(tag)).blocks >= 1,
{
    let mut picture = metaflac::block::Picture::new();
    picture.picture_type = metaflac::block::PictureType::CoverFront;
    picture.mime_type = cover.mime_type.clone();
    picture.description = cover.description.clone();
    picture.width = cover.width;
    picture.height = cover.height;
    picture.depth = cover.depth;
    picture.num_colors = cover.num_colors;
    picture.data = cover.data.clone();
    tag.push_block(metaflac::Block::Picture(picture));
}

/// `metaflac::Tag::write_to` into a fresh buffer: the four bytes of the
/// stream marker and then the blocks. The crate counts the bytes it writes in
/// 32 bits, so the caller keeps the blocks under 4 GiB, and it asserts that
/// the texts of a cue sheet are not longer than their fields, so the caller
/// hands over no cue sheet with a longer one. Writing into a vector cannot
/// fail, so the call succeeds. Each block is written as its type, with
/// the mark of the last block on the last one alone, the low three bytes of
/// the length of its content, and its content: where every content is
/// shorter than 2^24 bytes and there is a block, the walk over the headers
/// ends at the last byte written. The order in which the comments are
/// written is not fixed, so the bytes themselves have no name. The contents
/// and the layout of the tag stay as they are.
#[verifier::external_body]
pub(crate) fn write_flac_tag(tag: &mut metaflac::Tag) -> (result: Result<Vec<u8>, metaflac::Error>)
    requires
        flac_layout(*old(tag)).encoded_len < 0xFFFF_FFFF,
        flac_layout(*old(tag)).long_cue_sheets == 0,
    ensures
        flac_contents(*final(tag)) == flac_contents(*old(tag)),
        flac_layout(*final(tag)) == flac_layout(*old(tag)),
        result is Ok,
        result matches Ok(bytes) ==> has_flac_magic(bytes@) && bytes@.len() == 4 + flac_layout(
            *old(tag),
        ).encoded_len,
        result matches Ok(bytes) ==> (well_laid_out(flac_layout(*old(tag))) ==> flac_audio_start(
            bytes@,
        ) == Ok::<int, FormatError>(bytes@.len() as int)),
        result matches Ok(bytes) ==> flac_written(*old(tag), bytes@),
{
    let mut bytes = Vec::new();
    tag.write_to(&mut bytes).map(|_| bytes)
}

/// `image::load_from_memory`, of which only the width and the height of the
/// decoded image are kept.
#[verifier::external_body]
pub(crate) fn decode_image_size(image: &[u8]) -> (size: Option<(u32, u32)>)
    ensures
        size == image_size(image@),
{
    image::load_from_memory(image).ok().map(|decoded| (decoded.width(), decoded.height()))
}

/// The width and height to declare for a cover: those of the decoded image,
/// and 0 by 0 for bytes that are no image.
pub fn cover_dimensions(size: Option<(u32, u32)>) -> (dimensions: (u32, u32))
    ensures
        dimensions == (match size {
            Some(found) => found,
            None => (0u32, 0u32),
        }),
{
    match size {
        Some(found) => found,
        None => (0, 0),
    }
}

impl TagPayload {
    /// The size of the picture block that `artwork` becomes, at most; 0
    /// without artwork.
    pub open spec fn flac_cover_bound(&self, artwork: Option<&[u8]>) -> nat {
        match artwork {
            Some(image) => 64 + utf8_len(cover_mime()) + utf8_len(flac_cover_description())
                + image@.len(),
            None => 0nat,
        }
    }

    /// An upper bound on the bytes by which the comments of this track let
    /// the comment block of a tag grow.
    pub open spec fn flac_comment_growth(&self) -> nat {
        103 + utf8_len(self.title@) + utf8_len(self.spec_album_name()) + utf8_len(self.artist@)
    }

    /// An upper bound on the bytes by which the comments of this track and
    /// `artwork` let a tag grow.
    pub open spec fn flac_growth(&self, artwork: Option<&[u8]>) -> nat {
        164 + utf8_len(self.title@) + utf8_len(self.spec_album_name()) + utf8_len(self.artist@)
            + self.flac_cover_bound(artwork)
    }

    /// The picture block that `artwork` becomes: a JPEG front cover of 24
    /// bits per pixel, with the pixel size that is decoded from the image and
    /// 0 by 0 where none can be decoded.
    pub open spec fn flac_cover(&self, artwork: Option<&[u8]>) -> Option<PictureBlock> {
        match artwork {
            Some(image) => Some(
                PictureBlock {
                    kind: 3,
                    mime_type: cover_mime(),
                    description: flac_cover_description(),
                    width: (match image_size(image@) {
                        Some(found) => found.0,
                        None => 0u32,
                    }),
                    height: (match image_size(image@) {
                        Some(found) => found.1,
                        None => 0u32,
                    }),
                    depth: 24,
                    num_colors: 0,
                    data: image@,
                },
            ),
            None => None,
        }
    }

    /// The edits that tag a FLAC file with this track: title, album and
    /// artist, and the artwork, if any, as a JPEG front cover of 24 bits per
    /// pixel with the pixel size of the image.
    pub fn flac_edits(&self, artwork: Option<&[u8]>) -> (edits: FlacEdits)
        ensures
            edits.cover_bound() == self.flac_cover_bound(artwork),
            edits.comment_growth() == self.flac_comment_growth(),
            edits.growth() == self.flac_growth(artwork),
            edits.title@ == self.title@,
            edits.album@ == self.spec_album_name(),
            edits.artist@ == self.artist@,
            edits.cover_view() == self.flac_cover(artwork),
    {
        let cover = match artwork {
            Some(image) => {
                let (width, height) = cover_dimensions(decode_image_size(image));
                Some(
                    FlacCover {
                        mime_type: "image/jpeg".to_owned(),
                        description: "Front cover".to_owned(),
                        width,
                        height,
                        depth: COVER_DEPTH,
                        num_colors: 0,
                        data: slice_to_vec(image),
                    },
                )
            },
            None => None,
        };
        FlacEdits {
            title: self.title.clone(),
            album: self.album_name(),
            artist: self.artist.clone(),
            cover,
        }
    }
}

/// Sets title, album and artist in the comments of `tag` and, where the
/// edits bring a cover, puts it in the place of the front covers that are
/// there.
pub fn apply_flac_edits(tag: &mut metaflac::Tag, edits: &FlacEdits)
    ensures
        flac_contents(*final(tag)) == edited(flac_contents(*old(tag)), edits),
        flac_layout(*final(tag)).encoded_len <= flac_layout(*old(tag)).encoded_len
            + edits.growth(),
        flac_layout(*final(tag)).comment_len <= flac_layout(*old(tag)).comment_len
            + edits.comment_growth(),
        flac_layout(*final(tag)).largest_other <= larger(
            flac_layout(*old(tag)).largest_other,
            edits.cover_bound(),
        ),
        flac_layout(*final(tag)).long_cue_sheets == flac_layout(*old(tag)).long_cue_sheets,
        flac_layout(*final(tag)).blocks >= 1,
{
    proof {
        reveal_strlit("TITLE");
        reveal_strlit("ALBUM");
        reveal_strlit("ARTIST");
    }
    set_flac_comment(tag, "TITLE", edits.title.as_str());
    set_flac_comment(tag, "ALBUM", edits.album.as_str());
    set_flac_comment(tag, "ARTIST", edits.artist.as_str());
    match &edits.cover {
        Some(cover) => {
            remove_front_covers(tag);
            push_front_cover(tag, cover);
        },
        None => {},
    }
    assert(flac_contents(*tag).comments =~= edited(flac_contents(*old(tag)), edits).comments);
}

/// Whether the cover of these edits, if they bring one, fits in one block.
pub open spec fn cover_fits_block(edits: &FlacEdits) -> bool {
    edits.cover_bound() < 0x100_0000
}

/// Whether edits of these sizes can be made in the metadata of `data`: the
/// cover fits in one block, the comment block still fits in one block after
/// it has grown, and the blocks stay under 4 GiB even where they take twice
/// the room that they were read from.
pub open spec fn sizes_fit(cover_bound: nat, comment_growth: nat, growth: nat, data: Seq<u8>) -> bool {
    &&& cover_bound < 0x100_0000
    &&& first_comment_len(data, 4) + comment_growth < 0x100_0000
    &&& flac_audio_start(data) matches Ok(end) && 2 * end + growth < 0xFFFF_FFFF
}

/// Whether the edits can be made in the metadata of `data`.
pub open spec fn edits_fit(edits: &FlacEdits, data: Seq<u8>) -> bool {
    sizes_fit(edits.cover_bound(), edits.comment_growth(), edits.growth(), data)
}

/// Whether the buffer `data` can take edits that let its metadata grow by
/// `growth` bytes for sure: the marker, the blocks at their largest and the
/// audio frames together are a length that a buffer can have.
pub open spec fn result_fits(growth: nat, data: Seq<u8>) -> bool {
    flac_audio_start(data) matches Ok(end) && 4 + 2 * end + growth + data.len() - end
        <= usize::MAX
}

/// Why a buffer is refused for sure when edits of these sizes are to be made
/// in it; `None` for a buffer that is not refused on these grounds. A buffer
/// in which no audio can be located is refused with the locator's error, one
/// whose metadata runs past its end as truncated, and one in which the edits
/// do not fit as too large for the container.
pub open spec fn flac_refusal(
    cover_bound: nat,
    comment_growth: nat,
    growth: nat,
    data: Seq<u8>,
) -> Option<TagError> {
    match flac_audio_start(data) {
        Err(error) => Some(TagError::Format(error)),
        Ok(end) => if end > data.len() {
            Some(TagError::Format(FormatError::Truncated))
        } else if !sizes_fit(cover_bound, comment_growth, growth, data) {
            Some(TagError::TooLarge)
        } else {
            None
        },
    }
}

/// Whether `after` is the buffer `before` with new metadata: it begins with
/// the stream marker, its locator finds the audio frames directly behind the
/// new metadata, and they are the audio frames of `before`, all of them.
pub open spec fn retagged_flac(before: Seq<u8>, after: Seq<u8>) -> bool {
    &&& keeps_audio(before, after)
    &&& flac_audio_start(before) matches Ok(end) && flac_audio_start(after) == Ok::<
        int,
        FormatError,
    >(after.len() - (before.len() - end))
}

fn text_len(text: &String) -> (len: usize)
    ensures
        len == utf8_len(text@),
{
    text.as_str().as_bytes().len()
}

/// Says whether the edits can be made in a tag whose metadata took
/// `metadata_len` bytes and whose comment block was declared with
/// `comment_len` bytes.
pub fn check_edits_fit(edits: &FlacEdits, metadata_len: usize, comment_len: usize) -> (fits: bool)
    ensures
        fits == (edits.cover_bound() < 0x100_0000 && comment_len + edits.comment_growth()
            < 0x100_0000 && 2 * metadata_len + edits.growth() < 0xFFFF_FFFF),
{
    let limit: u64 = 0xFFFF_FFFF;
    let block: u64 = 0x100_0000;
    let cover_len: u64 = match &edits.cover {
        Some(cover) => {
            let mime = text_len(&cover.mime_type) as u64;
            let description = text_len(&cover.description) as u64;
            let image = cover.data.len() as u64;
            if mime >= block || description >= block || image >= block {
                return false;
            }
            let bound = 64 + mime + description + image;
            if bound >= block {
                return false;
            }
            bound
        },
        None => 0,
    };
    let title = text_len(&edits.title) as u64;
    let album = text_len(&edits.album) as u64;
    let artist = text_len(&edits.artist) as u64;
    if title >= block || album >= block || artist >= block {
        return false;
    }
    let texts: u64 = title + album + artist;
    if (comment_len as u64) >= block || comment_len as u64 + 103 + texts >= block {
        return false;
    }
    let total: u64 = 164 + texts + cover_len;
    let room = limit - total;
    let metadata: u64 = metadata_len as u64;
    metadata <= room / 2 && 2 * metadata < room
}

/// Builds the buffer anew from the encoded metadata `head` and the audio
/// frames of `data`, which begin at `audio_start`, in one allocation, and
/// leaves no spare capacity.
pub fn rebuild_flac(data: &mut Vec<u8>, head: &[u8], audio_start: usize) -> (result: Result<
    (),
    TagError,
>)
    ensures
        audio_start > old(data)@.len() <==> result == Err::<(), TagError>(
            TagError::Format(FormatError::Truncated),
        ),
        audio_start <= old(data)@.len() && head@.len() + old(data)@.len() - audio_start
            > usize::MAX <==> result == Err::<(), TagError>(TagError::TooLarge),
        result is Ok ==> final(data)@ == head@ + old(data)@.subrange(
            audio_start as int,
            old(data)@.len() as int,
        ),
        result is Err ==> final(data)@ == old(data)@,
        !(result matches Err(TagError::Encoder)),
        !(result matches Err(TagError::Format(FormatError::NotFlac))),
        !(result matches Err(TagError::Format(FormatError::UnexpectedEnd))),
{
    if audio_start > data.len() {
        return Err(TagError::Format(FormatError::Truncated));
    }
    let rest = data.len() - audio_start;
    if rest > usize::MAX - head.len() {
        return Err(TagError::TooLarge);
    }
    let mut rebuilt: Vec<u8> = Vec::with_capacity(head.len() + rest);
    rebuilt.extend_from_slice(head);
    rebuilt.extend_from_slice(slice_subrange(data.as_slice(), audio_start, data.len()));
    assert(rebuilt@ =~= head@ + data@.subrange(audio_start as int, data@.len() as int));
    *data = rebuilt;
    release_spare_capacity(data);
    Ok(())
}

/// The tag that the edits are made in: the decoded metadata of `data` where
/// it can be decoded, an empty tag where it cannot.
pub fn read_or_new_tag(data: &[u8]) -> (tag: metaflac::Tag)
    ensures
        flac_contents(tag) == start_contents(data@),
        flac_audio_start(data@) matches Ok(end) ==> flac_layout(tag).encoded_len <= 2 * end,
        flac_layout(tag).comment_len <= first_comment_len(data@, 4),
        flac_layout(tag).largest_other <= 0xFF_FFFF,
        flac_layout(tag).long_cue_sheets == 0,
        !metadata_readable(data@) ==> flac_contents(tag) == no_contents() && flac_layout(tag)
            == no_blocks(),
{
    proof {
        lemma_metadata_end_is_behind(data@, 4);
        lemma_first_comment_len_range(data@, 4);
    }
    if flac_metadata_readable(data) {
        match read_flac_tag(data) {
            Ok(tag) => tag,
            Err(_) => new_flac_tag(),
        }
    } else {
        new_flac_tag()
    }
}

/// Rewrites the metadata of a FLAC buffer with the edits of one track and
/// keeps its audio frames.
///
/// A buffer in which no audio can be located is refused with the locator's
/// error; one whose metadata runs past its end is refused as truncated;
/// edits too large for the container, and a result that no buffer can hold,
/// are refused as too large. In each of these cases `data` stays as it was.
/// Every other buffer is tagged: `data` then begins with the stream marker,
/// and the locator finds behind the new metadata the audio frames that the
/// buffer held.
pub fn embed_flac(data: &mut Vec<u8>, edits: &FlacEdits) -> (result: Result<(), TagError>)
    ensures
        result is Err ==> final(data)@ == old(data)@,
        result is Ok ==> retagged_flac(old(data)@, final(data)@),
        result is Ok ==> flac_tagged(
            old(data)@,
            final(data)@,
            edits.title@,
            edits.album@,
            edits.artist@,
            edits.cover_view(),
        ),
        flac_refusal(
            edits.cover_bound(),
            edits.comment_growth(),
            edits.growth(),
            old(data)@,
        ) matches Some(error) ==> result == Err::<(), TagError>(error),
        flac_refusal(edits.cover_bound(), edits.comment_growth(), edits.growth(), old(data)@)
            is None ==> (result is Ok || result == Err::<(), TagError>(TagError::TooLarge)),
        flac_refusal(edits.cover_bound(), edits.comment_growth(), edits.growth(), old(data)@)
            is None && result_fits(edits.growth(), old(data)@) ==> result is Ok,
{
    let len = data.len();
    let start = match find_flac_audio_start(data.as_slice()) {
        Ok(start) => start,
        Err(error) => {
            return Err(TagError::Format(error));
        },
    };
    if start > len {
        return Err(TagError::Format(FormatError::Truncated));
    }
    let comment_len = declared_comment_len(data.as_slice());
    if !check_edits_fit(edits, start, comment_len) {
        return Err(TagError::TooLarge);
    }
    let mut tag = read_or_new_tag(data.as_slice());
    apply_flac_edits(&mut tag, edits);
    assert(well_laid_out(flac_layout(tag)));
    let ghost edited_tag = tag;
    match write_flac_tag(&mut tag) {
        Ok(head) => {
            let rebuilt = rebuild_flac(data, head.as_slice(), start);
            proof {
                if rebuilt is Ok {
                    let whole = data@;
                    let audio = old(data)@.subrange(start as int, old(data)@.len() as int);
                    assert(whole =~= head@ + audio);
                    assert(flac_written(edited_tag, head@));
                    assert(whole.subrange(whole.len() - audio.len(), whole.len() as int)
                        =~= audio);
                    assert(whole[0] == head@[0] && whole[1] == head@[1] && whole[2] == head@[2]
                        && whole[3] == head@[3]);
                    lemma_audio_start_of_prefix(head@, audio);
                }
            }
            rebuilt
        },
        Err(_) => Err(TagError::Encoder),
    }
}

/// After edits that bring a cover, a tag holds exactly one front cover,
/// whatever it held before: also where it held the cover of earlier edits.
pub proof fn lemma_one_front_cover(contents: FlacContents, earlier: &FlacEdits, edits: &FlacEdits)
    requires
        edits.cover is Some,
    ensures
        front_covers(edited(contents, edits).pictures).len() == 1,
        front_covers(edited(edited(contents, earlier), edits).pictures).len() == 1,
{
    lemma_cover_replaces(contents.pictures, edits.cover->0@);
    lemma_cover_replaces(edited(contents, earlier).pictures, edits.cover->0@);
}

/// Pictures without their front covers, and one front cover behind them,
/// hold that front cover and no other.
pub proof fn lemma_cover_replaces(pictures: Seq<PictureBlock>, cover: PictureBlock)
    requires
        is_front_cover(cover),
    ensures
        front_covers(without_front_covers(pictures).push(cover)) == seq![cover],
{
    let is_front = |picture: PictureBlock| is_front_cover(picture);
    let is_other = |picture: PictureBlock| !is_front_cover(picture);
    let others = pictures.filter(is_other);
    let kept = others.filter(is_front);
    if kept.len() > 0 {
        others.lemma_filter_pred(is_front, 0);
        others.lemma_filter_contains_rev(is_front, kept[0]);
        let at = choose|i: int| 0 <= i < others.len() && others[i] == kept[0];
        pictures.lemma_filter_pred(is_other, at);
    }
    assert(kept =~= Seq::<PictureBlock>::empty());
    assert(others.push(cover).drop_last() =~= others);
    reveal_with_fuel(Seq::filter, 2);
    assert(others.push(cover).filter(is_front) =~= seq![cover]);
}

/// The edits leave every comment but title, album and artist as it was:
/// present with the same values, or absent.
pub proof fn lemma_other_comments_kept(contents: FlacContents, edits: &FlacEdits, key: Seq<char>)
    requires
        key != "TITLE"@,
        key != "ALBUM"@,
        key != "ARTIST"@,
    ensures
        edited(contents, edits).comments.contains_key(key) == contents.comments.contains_key(key),
        contents.comments.contains_key(key) ==> edited(contents, edits).comments[key]
            == contents.comments[key],
{
}

/// A list whose pictures all pass a test is what the test keeps of it.
pub proof fn lemma_filter_keeps_all(pictures: Seq<PictureBlock>, test: spec_fn(PictureBlock) -> bool)
    requires
        forall|i: int| 0 <= i < pictures.len() ==> test(#[trigger] pictures[i]),
    ensures
        pictures.filter(test) == pictures,
    decreases pictures.len(),
{
    reveal(Seq::filter);
    if pictures.len() > 0 {
        lemma_filter_keeps_all(pictures.drop_last(), test);
        assert(pictures.drop_last().push(pictures.last()) =~= pictures);
    } else {
        assert(pictures.filter(test) =~= pictures);
    }
}

/// The pictures of a tagged buffer: with a cover, that cover is the one
/// front cover and the pictures of every other type are those that were
/// there, in their order; without a cover the pictures are as they were.
pub proof fn lemma_tagged_pictures(
    start: FlacContents,
    title: Seq<char>,
    album: Seq<char>,
    artist: Seq<char>,
    cover: Option<PictureBlock>,
)
    requires
        cover matches Some(picture) ==> is_front_cover(picture),
    ensures
        cover matches Some(picture) ==> front_covers(
            edited_with(start, title, album, artist, cover).pictures,
        ) == seq![picture] && without_front_covers(
            edited_with(start, title, album, artist, cover).pictures,
        ) == without_front_covers(start.pictures),
        cover is None ==> edited_with(start, title, album, artist, cover).pictures
            == start.pictures,
{
    if cover is Some {
        let picture = cover->0;
        let is_other = |picture: PictureBlock| !is_front_cover(picture);
        let others = start.pictures.filter(is_other);
        lemma_cover_replaces(start.pictures, picture);
        assert forall|i: int| 0 <= i < others.len() implies is_other(#[trigger] others[i]) by {
            start.pictures.lemma_filter_pred(is_other, i);
        }
        lemma_filter_keeps_all(others, is_other);
        assert(others.push(picture).drop_last() =~= others);
        reveal_with_fuel(Seq::filter, 2);
        assert(others.push(picture).filter(is_other) =~= others);
    }
}

/// The comments of a tagged buffer: title, album and artist hold one value
/// each, the new one, and every other key is as it was: present with the
/// values that it had, or absent.
pub proof fn lemma_tagged_comments(
    start: FlacContents,
    title: Seq<char>,
    album: Seq<char>,
    artist: Seq<char>,
    cover: Option<PictureBlock>,
    key: Seq<char>,
)
    ensures
        edited_with(start, title, album, artist, cover).comments.contains_key("TITLE"@),
        edited_with(start, title, album, artist, cover).comments["TITLE"@] == seq![title],
        edited_with(start, title, album, artist, cover).comments.contains_key("ALBUM"@),
        edited_with(start, title, album, artist, cover).comments["ALBUM"@] == seq![album],
        edited_with(start, title, album, artist, cover).comments.contains_key("ARTIST"@),
        edited_with(start, title, album, artist, cover).comments["ARTIST"@] == seq![artist],
        key != "TITLE"@ && key != "ALBUM"@ && key != "ARTIST"@ ==> edited_with(
            start,
            title,
            album,
            artist,
            cover,
        ).comments.contains_key(key) == start.comments.contains_key(key),
        key != "TITLE"@ && key != "ALBUM"@ && key != "ARTIST"@ && start.comments.contains_key(key)
            ==> edited_with(start, title, album, artist, cover).comments[key]
            == start.comments[key],
{
    reveal_strlit("TITLE");
    reveal_strlit("ALBUM");
    reveal_strlit("ARTIST");
    assert("TITLE"@[0] == 'T' && "ALBUM"@[0] == 'A' && "ARTIST"@.len() == 6 && "TITLE"@.len() == 5
        && "ALBUM"@.len() == 5);
}

/// The key under which a catalog keeps its own description of a track.
pub open spec fn description_key() -> Seq<char> {
    "DESCRIPTION"@
}

/// Tagging neither makes a description up nor takes one away: the
/// description of a tagged buffer is the one that was there, with the values
/// that it had, and there is none where there was none.
pub proof fn lemma_description_is_kept(
    start: FlacContents,
    title: Seq<char>,
    album: Seq<char>,
    artist: Seq<char>,
    cover: Option<PictureBlock>,
)
    ensures
        edited_with(start, title, album, artist, cover).comments.contains_key(description_key())
            == start.comments.contains_key(description_key()),
        start.comments.contains_key(description_key()) ==> edited_with(
            start,
            title,
            album,
            artist,
            cover,
        ).comments[description_key()] == start.comments[description_key()],
{
    reveal_strlit("DESCRIPTION");
    reveal_strlit("TITLE");
    reveal_strlit("ALBUM");
    reveal_strlit("ARTIST");
    assert("DESCRIPTION"@.len() == 11 && "TITLE"@.len() == 5 && "ALBUM"@.len() == 5 && "ARTIST"@.len()
        == 6);
    lemma_tagged_comments(start, title, album, artist, cover, description_key());
}

} // verus!
