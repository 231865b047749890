//! The metadata region at the head of a FLAC buffer: where the audio frames
//! begin, and whether the blocks before them are laid out well enough to be
//! decoded.

use vstd::prelude::*;
use vstd::slice::slice_subrange;
use crate::error::FormatError;

verus! {

/// Whether `data` begins with the stream marker `fLaC`.
pub open spec fn has_flac_magic(data: Seq<u8>) -> bool {
    data.len() >= 4 && data[0] == 0x66 && data[1] == 0x4C && data[2] == 0x61 && data[3] == 0x43
}

/// Whether the block whose header stands at `pos` is marked as the last one.
pub open spec fn is_last_block(data: Seq<u8>, pos: int) -> bool {
    data[pos] >= 0x80
}

/// The type code of the block whose header stands at `pos`.
pub open spec fn block_kind(data: Seq<u8>, pos: int) -> int {
    data[pos] as int % 128
}

/// The payload length that the header at `pos` declares: three bytes, big-endian.
pub open spec fn block_len(data: Seq<u8>, pos: int) -> int {
    data[pos + 1] as int * 0x1_0000 + data[pos + 2] as int * 0x100 + data[pos + 3] as int
}

/// The position behind the block marked as last, walking the headers from
/// `pos`; `None` where `data` ends before such a header.
pub open spec fn metadata_end(data: Seq<u8>, pos: int) -> Option<int>
    decreases data.len() - pos,
{
    if pos < 0 || pos + 4 > data.len() {
        None
    } else if is_last_block(data, pos) {
        Some(pos + 4 + block_len(data, pos))
    } else if pos + 4 + block_len(data, pos) > data.len() {
        None
    } else {
        metadata_end(data, pos + 4 + block_len(data, pos))
    }
}

/// The offset of the first audio frame of a FLAC buffer.
pub open spec fn flac_audio_start(data: Seq<u8>) -> Result<int, FormatError> {
    if data.len() < 8 || !has_flac_magic(data) {
        Err(FormatError::NotFlac)
    } else {
        match metadata_end(data, 4) {
            Some(end) => Ok(end),
            None => Err(FormatError::UnexpectedEnd),
        }
    }
}

/// Whether `after` is `before` with other metadata: it begins with the
/// stream marker and ends with the audio frames of `before`, all of them.
pub open spec fn keeps_audio(before: Seq<u8>, after: Seq<u8>) -> bool {
    &&& flac_audio_start(before) matches Ok(end) && end <= before.len() && after.len() >= 4
        + before.len() - end && after.subrange(
        after.len() - (before.len() - end),
        after.len() as int,
    ) == before.subrange(end, before.len() as int)
    &&& has_flac_magic(after)
}

/// The walk over the headers ends behind the header that it starts at.
pub proof fn lemma_metadata_end_is_behind(data: Seq<u8>, pos: int)
    requires
        0 <= pos,
    ensures
        metadata_end(data, pos) matches Some(end) ==> end >= pos + 4,
    decreases data.len() - pos,
{
    if pos + 4 <= data.len() && !is_last_block(data, pos) && pos + 4 + block_len(data, pos)
        <= data.len() {
        lemma_metadata_end_is_behind(data, pos + 4 + block_len(data, pos));
    }
}

/// Finds the first audio frame of a FLAC buffer: behind the marker and the
/// metadata blocks, the last of which says so in its header.
///
/// The offset is where the last block's header says that the block ends; it
/// lies behind the buffer where the buffer was cut short. An offset that no
/// `usize` can hold is reported as a truncated buffer.
pub fn find_flac_audio_start(data: &[u8]) -> (result: Result<usize, FormatError>)
    ensures
        match flac_audio_start(data@) {
            Ok(end) => if end <= usize::MAX {
                result == Ok::<usize, FormatError>(end as usize)
            } else {
                result == Err::<usize, FormatError>(FormatError::Truncated)
            },
            Err(error) => result == Err::<usize, FormatError>(error),
        },
        flac_audio_start(data@) matches Ok(end) ==> end >= 8,
{
    proof {
        lemma_metadata_end_is_behind(data@, 4);
    }
    if data.len() < 8 || data[0] != 0x66 || data[1] != 0x4C || data[2] != 0x61 || data[3] != 0x43 {
        return Err(FormatError::NotFlac);
    }
    let mut pos: usize = 4;
    loop
        invariant
            4 <= pos,
            data@.len() >= 8,
            has_flac_magic(data@),
            metadata_end(data@, 4) == metadata_end(data@, pos as int),
        decreases usize::MAX - pos,
    {
        if pos > data.len() - 4 {
            return Err(FormatError::UnexpectedEnd);
        }
        let last = data[pos] >= 0x80;
        let len: usize = (data[pos + 1] as usize) * 0x1_0000 + (data[pos + 2] as usize) * 0x100
            + (data[pos + 3] as usize);
        assert(len as int == block_len(data@, pos as int));
        if len > usize::MAX - 4 - pos {
            if last {
                return Err(FormatError::Truncated);
            } else {
                return Err(FormatError::UnexpectedEnd);
            }
        }
        let next = pos + 4 + len;
        if last {
            return Ok(next);
        }
        pos = next;
    }
}

/// Four bytes of `bytes` from `at`, read as a big-endian number.
pub open spec fn be32(bytes: Seq<u8>, at: int) -> int {
    bytes[at] as int * 0x100_0000 + bytes[at + 1] as int * 0x1_0000 + bytes[at + 2] as int * 0x100
        + bytes[at + 3] as int
}

/// Four bytes of `bytes` from `at`, read as a little-endian number.
pub open spec fn le32(bytes: Seq<u8>, at: int) -> int {
    bytes[at] as int + bytes[at + 1] as int * 0x100 + bytes[at + 2] as int * 0x1_0000 + bytes[at
        + 3] as int * 0x100_0000
}

fn read_be32(bytes: &[u8], at: usize) -> (value: u64)
    requires
        at + 4 <= bytes@.len(),
    ensures
        value as int == be32(bytes@, at as int),
        value <= 0xFFFF_FFFF,
{
    (bytes[at] as u64) * 0x100_0000 + (bytes[at + 1] as u64) * 0x1_0000 + (bytes[at + 2] as u64)
        * 0x100 + (bytes[at + 3] as u64)
}

fn read_le32(bytes: &[u8], at: usize) -> (value: u64)
    requires
        at + 4 <= bytes@.len(),
    ensures
        value as int == le32(bytes@, at as int),
        value <= 0xFFFF_FFFF,
{
    (bytes[at] as u64) + (bytes[at + 1] as u64) * 0x100 + (bytes[at + 2] as u64) * 0x1_0000 + (
    bytes[at + 3] as u64) * 0x100_0000
}

/// Whether one of the bytes of `bytes` from `from` up to `to` is `=`.
pub open spec fn has_equals_sign(bytes: Seq<u8>, from: int, to: int) -> bool {
    exists|k: int| from <= k < to && #[trigger] bytes[k] == 0x3D
}

/// A picture block whose declared MIME type, description and image all lie
/// inside the payload.
pub open spec fn picture_readable(payload: Seq<u8>) -> bool {
    &&& payload.len() >= 8
    &&& 12 + be32(payload, 4) <= payload.len()
    &&& 32 + be32(payload, 4) + be32(payload, 8 + be32(payload, 4)) <= payload.len()
    &&& 32 + be32(payload, 4) + be32(payload, 8 + be32(payload, 4)) + be32(
        payload,
        28 + be32(payload, 4) + be32(payload, 8 + be32(payload, 4)),
    ) <= payload.len()
}

/// `count` comments from `pos` on, each inside the payload and each with a
/// `=` between its key and its value.
pub open spec fn comments_readable(payload: Seq<u8>, pos: int, count: int) -> bool
    decreases count,
{
    if count <= 0 {
        true
    } else {
        &&& 0 <= pos
        &&& pos + 4 <= payload.len()
        &&& pos + 4 + le32(payload, pos) <= payload.len()
        &&& has_equals_sign(payload, pos + 4, pos + 4 + le32(payload, pos))
        &&& comments_readable(payload, pos + 4 + le32(payload, pos), count - 1)
    }
}

/// A comment block whose vendor string and comments all lie inside the payload.
pub open spec fn vorbis_readable(payload: Seq<u8>) -> bool {
    &&& payload.len() >= 4
    &&& 8 + le32(payload, 0) <= payload.len()
    &&& comments_readable(payload, 8 + le32(payload, 0), le32(payload, 4 + le32(payload, 0)))
}

/// `count` cue sheet tracks from `pos` on, each with its fixed fields and its
/// index points inside the payload. A track takes 36 bytes and each of its
/// index points 12, of which the last three are never read.
pub open spec fn cue_tracks_readable(payload: Seq<u8>, pos: int, count: int) -> bool
    decreases count,
{
    if count <= 0 {
        true
    } else {
        &&& 0 <= pos
        &&& pos + 36 <= payload.len()
        &&& (payload[pos + 35] > 0 ==> pos + 36 + 12 * payload[pos + 35] as int - 3
            <= payload.len())
        &&& cue_tracks_readable(payload, pos + 36 + 12 * payload[pos + 35] as int, count - 1)
    }
}

/// A cue sheet block whose 396 fixed bytes and whose tracks lie inside the payload.
pub open spec fn cuesheet_readable(payload: Seq<u8>) -> bool {
    payload.len() >= 396 && cue_tracks_readable(payload, 396, payload[395] as int)
}

/// Whether a block of type `kind` can be decoded from `payload` without
/// reading outside it: stream info needs 34 bytes, an application block 4,
/// comments, cue sheets and pictures need their inner lengths to fit. Seek
/// tables, padding and unknown blocks are taken as they are.
pub open spec fn block_readable(kind: int, payload: Seq<u8>) -> bool {
    if kind == 0 {
        payload.len() >= 34
    } else if kind == 2 {
        payload.len() >= 4
    } else if kind == 4 {
        vorbis_readable(payload)
    } else if kind == 5 {
        cuesheet_readable(payload)
    } else if kind == 6 {
        picture_readable(payload)
    } else {
        true
    }
}

/// Whether every block from `pos` up to the one marked as last lies inside
/// `data` and can be decoded.
pub open spec fn blocks_readable(data: Seq<u8>, pos: int) -> bool
    decreases data.len() - pos,
{
    &&& 0 <= pos
    &&& pos + 4 <= data.len()
    &&& pos + 4 + block_len(data, pos) <= data.len()
    &&& block_readable(
        block_kind(data, pos),
        data.subrange(pos + 4, pos + 4 + block_len(data, pos)),
    )
    &&& (is_last_block(data, pos) || blocks_readable(data, pos + 4 + block_len(data, pos)))
}

/// A FLAC buffer whose metadata can be handed to the decoder: it begins with
/// the marker, its blocks are readable one by one, and together they stay
/// under 2 GiB.
pub open spec fn metadata_readable(data: Seq<u8>) -> bool {
    &&& has_flac_magic(data)
    &&& blocks_readable(data, 4)
    &&& flac_audio_start(data) matches Ok(end) && end <= 0x7FFF_FFFF
}

fn contains_equals_sign(bytes: &[u8], from: usize, to: usize) -> (found: bool)
    requires
        from <= to <= bytes@.len(),
    ensures
        found == has_equals_sign(bytes@, from as int, to as int),
{
    let mut at: usize = from;
    while at < to
        invariant
            from <= at <= to <= bytes@.len(),
            forall|k: int| from <= k < at ==> bytes@[k] != 0x3D,
        decreases to - at,
    {
        if bytes[at] == 0x3D {
            return true;
        }
        at = at + 1;
    }
    false
}

fn check_picture(payload: &[u8]) -> (ok: bool)
    ensures
        ok == picture_readable(payload@),
{
    let len: u64 = payload.len() as u64;
    if len < 8 {
        return false;
    }
    let mime = read_be32(payload, 4);
    if 12 + mime > len {
        return false;
    }
    let description = read_be32(payload, (8 + mime) as usize);
    if 32 + mime + description > len {
        return false;
    }
    let image = read_be32(payload, (28 + mime + description) as usize);
    32 + mime + description + image <= len
}

fn check_vorbis(payload: &[u8]) -> (ok: bool)
    ensures
        ok == vorbis_readable(payload@),
{
    let len: u64 = payload.len() as u64;
    if len < 4 {
        return false;
    }
    let vendor = read_le32(payload, 0);
    if len < 8 || vendor > len - 8 {
        return false;
    }
    let count = read_le32(payload, (4 + vendor) as usize);
    let mut pos: u64 = 8 + vendor;
    let mut left: u64 = count;
    while left > 0
        invariant
            8 + vendor <= pos <= len,
            len == payload@.len(),
            len <= usize::MAX,
            vendor as int == le32(payload@, 0),
            count as int == le32(payload@, 4 + vendor as int),
            comments_readable(payload@, 8 + vendor as int, count as int) == comments_readable(
                payload@,
                pos as int,
                left as int,
            ),
        decreases left,
    {
        if len - pos < 4 {
            return false;
        }
        let size = read_le32(payload, pos as usize);
        if size > len - pos - 4 {
            return false;
        }
        if !contains_equals_sign(payload, (pos + 4) as usize, (pos + 4 + size) as usize) {
            return false;
        }
        pos = pos + 4 + size;
        left = left - 1;
    }
    true
}

fn check_cuesheet(payload: &[u8]) -> (ok: bool)
    ensures
        ok == cuesheet_readable(payload@),
{
    let len: u64 = payload.len() as u64;
    if len < 396 {
        return false;
    }
    let mut pos: u64 = 396;
    let mut left: u8 = payload[395];
    while left > 0
        invariant
            pos <= len,
            len == payload@.len(),
            len <= usize::MAX,
            len >= 396,
            cue_tracks_readable(payload@, 396, payload@[395] as int) == cue_tracks_readable(
                payload@,
                pos as int,
                left as int,
            ),
        decreases left,
    {
        proof {
            reveal_with_fuel(cue_tracks_readable, 2);
        }
        if len - pos < 36 {
            return false;
        }
        let points: u64 = payload[(pos + 35) as usize] as u64;
        let room: u64 = len - pos - 36;
        if points > 0 && 12 * points - 3 > room {
            return false;
        }
        if 12 * points > room {
            // Only the three unread bytes behind the last index point are
            // missing: a further track would have no header.
            return left == 1;
        }
        pos = pos + 36 + 12 * points;
        left = left - 1;
    }
    true
}

fn check_block(kind: u8, payload: &[u8]) -> (ok: bool)
    requires
        kind < 128,
    ensures
        ok == block_readable(kind as int, payload@),
{
    if kind == 0 {
        payload.len() >= 34
    } else if kind == 2 {
        payload.len() >= 4
    } else if kind == 4 {
        check_vorbis(payload)
    } else if kind == 5 {
        check_cuesheet(payload)
    } else if kind == 6 {
        check_picture(payload)
    } else {
        true
    }
}

/// Says whether the metadata of a FLAC buffer can be handed to the decoder.
pub fn flac_metadata_readable(data: &[u8]) -> (ok: bool)
    ensures
        ok == metadata_readable(data@),
{
    if data.len() < 8 || data[0] != 0x66 || data[1] != 0x4C || data[2] != 0x61 || data[3] != 0x43 {
        return false;
    }
    let mut pos: usize = 4;
    loop
        invariant
            4 <= pos <= data@.len(),
            data@.len() >= 8,
            has_flac_magic(data@),
            metadata_end(data@, 4) == metadata_end(data@, pos as int),
            blocks_readable(data@, 4) == blocks_readable(data@, pos as int),
        decreases data@.len() - pos,
    {
        if pos > data.len() - 4 {
            return false;
        }
        let last = data[pos] >= 0x80;
        let kind: u8 = data[pos] % 128;
        let len: usize = (data[pos + 1] as usize) * 0x1_0000 + (data[pos + 2] as usize) * 0x100
            + (data[pos + 3] as usize);
        assert(len as int == block_len(data@, pos as int));
        if len > data.len() - 4 - pos {
            return false;
        }
        let next = pos + 4 + len;
        if !check_block(kind, slice_subrange(data, pos + 4, next)) {
            return false;
        }
        if last {
            return next <= 0x7FFF_FFFF;
        }
        pos = next;
    }
}

/// The payload length that the first comment block from `pos` on declares;
/// 0 where the metadata holds no comment block.
pub open spec fn first_comment_len(data: Seq<u8>, pos: int) -> int
    decreases data.len() - pos,
{
    if pos < 0 || pos + 4 > data.len() {
        0
    } else if block_kind(data, pos) == 4 {
        block_len(data, pos)
    } else if is_last_block(data, pos) || pos + 4 + block_len(data, pos) > data.len() {
        0
    } else {
        first_comment_len(data, pos + 4 + block_len(data, pos))
    }
}

/// A declared comment length is a length of three bytes.
pub proof fn lemma_first_comment_len_range(data: Seq<u8>, pos: int)
    ensures
        0 <= first_comment_len(data, pos) <= 0xFF_FFFF,
    decreases data.len() - pos,
{
    if pos >= 0 && pos + 4 <= data.len() && block_kind(data, pos) != 4 && !is_last_block(data, pos)
        && pos + 4 + block_len(data, pos) <= data.len() {
        lemma_first_comment_len_range(data, pos + 4 + block_len(data, pos));
    }
}

/// Finds the payload length that the first comment block of a FLAC buffer declares.
pub fn declared_comment_len(data: &[u8]) -> (len: usize)
    ensures
        len as int == first_comment_len(data@, 4),
        len <= 0xFF_FFFF,
{
    proof {
        lemma_first_comment_len_range(data@, 4);
    }
    if data.len() < 8 {
        return 0;
    }
    let mut pos: usize = 4;
    loop
        invariant
            4 <= pos <= data@.len(),
            data@.len() >= 8,
            first_comment_len(data@, 4) == first_comment_len(data@, pos as int),
            0 <= first_comment_len(data@, 4) <= 0xFF_FFFF,
        decreases data@.len() - pos,
    {
        if pos > data.len() - 4 {
            return 0;
        }
        let last = data[pos] >= 0x80;
        let kind: u8 = data[pos] % 128;
        let len: usize = (data[pos + 1] as usize) * 0x1_0000 + (data[pos + 2] as usize) * 0x100
            + (data[pos + 3] as usize);
        assert(len as int == block_len(data@, pos as int));
        if kind == 4 {
            return len;
        }
        if last || len > data.len() - 4 - pos {
            return 0;
        }
        pos = pos + 4 + len;
    }
}

/// The walk over the headers of a buffer reads nothing behind its end: with
/// more bytes behind the buffer it ends where it ended.
pub proof fn lemma_metadata_end_of_prefix(head: Seq<u8>, tail: Seq<u8>, pos: int)
    requires
        0 <= pos,
        metadata_end(head, pos) matches Some(end) && end <= head.len(),
    ensures
        metadata_end(head + tail, pos) == metadata_end(head, pos),
    decreases head.len() - pos,
{
    let whole = head + tail;
    assert(pos + 4 <= head.len());
    assert(whole[pos] == head[pos] && whole[pos + 1] == head[pos + 1] && whole[pos + 2] == head[pos
        + 2] && whole[pos + 3] == head[pos + 3]);
    assert(block_len(whole, pos) == block_len(head, pos));
    if !is_last_block(head, pos) {
        lemma_metadata_end_of_prefix(head, tail, pos + 4 + block_len(head, pos));
    }
}

/// Metadata whose locator ends at its last byte keeps that end when audio
/// frames, or anything else, are put behind it.
pub proof fn lemma_audio_start_of_prefix(head: Seq<u8>, tail: Seq<u8>)
    requires
        flac_audio_start(head) == Ok::<int, FormatError>(head.len() as int),
    ensures
        flac_audio_start(head + tail) == Ok::<int, FormatError>(head.len() as int),
{
    let whole = head + tail;
    assert(whole[0] == head[0] && whole[1] == head[1] && whole[2] == head[2] && whole[3]
        == head[3]);
    lemma_metadata_end_of_prefix(head, tail, 4);
}

} // verus!
