//! The staging buffer of one transfer, on disk or in memory, and its smaller
//! sibling for cover thumbnails.
//!
//! A disk-backed buffer names its file; reading and writing that file is the
//! caller's part. A memory-backed buffer owns its bytes, and every operation
//! on them is done here.

use vstd::prelude::*;
use crate::config::{Config, StorageMode};
use crate::error::{FormatError, TagError};
use crate::flac_tag::{
    embed_flac, flac_refusal, flac_tagged, result_fits, retagged_flac, FlacEdits,
};
use crate::mp3::{
    embed_id3, id3_outcome, id3_size_bound, id3_tag_of, id3v24_bytes, is_id3_tag,
    mp3_audio_start, syncsafe, utf8_len,
};
use crate::storage::{decide, use_memory, StorageDecision};
use crate::tags::{cover_mime, id3_cover_description, whole_seconds, TagPayload};

verus! {

/// Bytes reserved for a memory-backed buffer whose final size is unknown.
pub const DEFAULT_CAPACITY: usize = 10485760;

/// Thumbnails of fewer MiB than this are kept in memory.
pub const THUMBNAIL_MEMORY_LIMIT_MB: u64 = 5;

/// The name under which a thumbnail held in memory is uploaded.
pub open spec fn thumbnail_file_name() -> Seq<char> {
    "thumb.jpg"@
}

/// A file in the cache directory.
#[derive(Debug, Clone)]
pub struct DiskPath {
    /// The directory.
    pub dir: String,
    /// The name of the file in it.
    pub file_name: String,
}

/// A file in the cache directory, as a value.
pub struct DiskPathView {
    pub dir: Seq<char>,
    pub file_name: Seq<char>,
}

impl View for DiskPath {
    type V = DiskPathView;

    open spec fn view(&self) -> DiskPathView {
        DiskPathView { dir: self.dir@, file_name: self.file_name@ }
    }
}

/// The staged bytes of one transfer.
#[derive(Debug)]
pub enum AudioBuffer {
    /// Staged in a file, which the caller writes.
    Disk { path: DiskPath, filename: String },
    /// Staged in memory.
    Memory { data: Vec<u8>, filename: String, capacity: usize },
}

/// A cover thumbnail, on disk or in memory.
#[derive(Debug)]
pub enum ThumbnailBuffer {
    /// Stored in a file.
    Disk { path: DiskPath },
    /// Held in memory.
    Memory { data: Vec<u8> },
}

/// What is handed to the upload.
#[derive(Debug)]
pub enum UploadPayload {
    /// The file at this path.
    File { path: DiskPath },
    /// These bytes, under this file name.
    Memory { data: Vec<u8>, file_name: String },
}

/// A staging buffer as a value.
pub enum AudioBufferView {
    Disk { path: DiskPathView, filename: Seq<char> },
    Memory { data: Seq<u8>, filename: Seq<char>, capacity: nat },
}

/// A thumbnail as a value.
pub enum ThumbnailView {
    Disk { path: DiskPathView },
    Memory { data: Seq<u8> },
}

/// An upload payload as a value.
pub enum UploadView {
    File { path: DiskPathView },
    Memory { data: Seq<u8>, file_name: Seq<char> },
}

/// What tagging did to a buffer.
#[derive(Debug, Clone, Copy, PartialEq, Eq, Structural)]
pub enum Tagging {
    /// The bytes in memory now carry the metadata.
    Embedded,
    /// The buffer is a file: the metadata is still to be written to it.
    LeftToFile,
}

impl View for AudioBuffer {
    type V = AudioBufferView;

    open spec fn view(&self) -> AudioBufferView {
        match *self {
            AudioBuffer::Disk { path, filename } => AudioBufferView::Disk {
                path: path@,
                filename: filename@,
            },
            AudioBuffer::Memory { data, filename, capacity } => AudioBufferView::Memory {
                data: data@,
                filename: filename@,
                capacity: capacity as nat,
            },
        }
    }
}

impl View for ThumbnailBuffer {
    type V = ThumbnailView;

    open spec fn view(&self) -> ThumbnailView {
        match *self {
            ThumbnailBuffer::Disk { path } => ThumbnailView::Disk { path: path@ },
            ThumbnailBuffer::Memory { data } => ThumbnailView::Memory { data: data@ },
        }
    }
}

impl View for UploadPayload {
    type V = UploadView;

    open spec fn view(&self) -> UploadView {
        match *self {
            UploadPayload::File { path } => UploadView::File { path: path@ },
            UploadPayload::Memory { data, file_name } => UploadView::Memory {
                data: data@,
                file_name: file_name@,
            },
        }
    }
}

/// The capacity reserved for a transfer of `content_length` bytes: the
/// length itself where it is known and fits, the default otherwise.
pub open spec fn planned_capacity(content_length: u64) -> nat {
    if 0 < content_length <= usize::MAX {
        content_length as nat
    } else {
        10485760
    }
}

impl AudioBufferView {
    /// The buffer after `chunk` was written to it: a memory-backed buffer
    /// holds the chunk behind what it held, a disk-backed one is unchanged.
    pub open spec fn with_chunk(self, chunk: Seq<u8>) -> AudioBufferView {
        match self {
            AudioBufferView::Memory { data, filename, capacity } => AudioBufferView::Memory {
                data: data + chunk,
                filename,
                capacity,
            },
            AudioBufferView::Disk { .. } => self,
        }
    }

    /// The buffer after each of `chunks` was written to it in turn.
    pub open spec fn with_chunks(self, chunks: Seq<Seq<u8>>) -> AudioBufferView
        decreases chunks.len(),
    {
        if chunks.len() == 0 {
            self
        } else {
            self.with_chunk(chunks.first()).with_chunks(chunks.drop_first())
        }
    }

    /// The bytes held in memory; none for a disk-backed buffer.
    pub open spec fn bytes(self) -> Seq<u8> {
        match self {
            AudioBufferView::Memory { data, .. } => data,
            AudioBufferView::Disk { .. } => Seq::empty(),
        }
    }

    /// The size of the staged bytes, given the length of the file of a
    /// disk-backed buffer as far as it could be read.
    pub open spec fn size(self, file_len: Option<u64>) -> nat {
        match self {
            AudioBufferView::Memory { data, .. } => data.len(),
            AudioBufferView::Disk { .. } => match file_len {
                Some(len) => len as nat,
                None => 0,
            },
        }
    }

    /// The same buffer with other bytes in memory.
    pub open spec fn with_bytes(self, bytes: Seq<u8>) -> AudioBufferView {
        match self {
            AudioBufferView::Memory { filename, capacity, .. } => AudioBufferView::Memory {
                data: bytes,
                filename,
                capacity,
            },
            AudioBufferView::Disk { .. } => self,
        }
    }
}

/// The sum of the lengths of `chunks`.
pub open spec fn total_len(chunks: Seq<Seq<u8>>) -> nat
    decreases chunks.len(),
{
    if chunks.len() == 0 {
        0
    } else {
        chunks.first().len() + total_len(chunks.drop_first())
    }
}

impl AudioBuffer {
    /// Stages a transfer of `content_length` bytes (0 when unknown) under
    /// `filename`: in memory where the selector allows it, with capacity
    /// reserved for the announced length, and else in the file `filename` of
    /// `cache_dir`, which the caller creates.
    pub fn new(
        config: &Config,
        content_length: u64,
        filename: String,
        _file_ext: &str,
        cache_dir: &str,
        available_mb: u64,
    ) -> (buffer: Self)
        ensures
            buffer@ == (if use_memory(
                config.storage_mode,
                content_length,
                config.memory_threshold_mb,
                config.memory_buffer_mb,
                available_mb,
            ) {
                AudioBufferView::Memory {
                    data: Seq::empty(),
                    filename: filename@,
                    capacity: planned_capacity(content_length),
                }
            } else {
                AudioBufferView::Disk {
                    path: DiskPathView { dir: cache_dir@, file_name: filename@ },
                    filename: filename@,
                }
            }),
    {
        if Self::should_use_memory(config, content_length, available_mb) {
            let capacity: usize = if content_length > 0 && content_length <= usize::MAX as u64 {
                content_length as usize
            } else {
                DEFAULT_CAPACITY
            };
            AudioBuffer::Memory { data: Vec::with_capacity(capacity), filename, capacity }
        } else {
            Self::new_disk(filename, cache_dir)
        }
    }

    /// A disk-backed buffer for the file `filename` of `cache_dir`, whatever
    /// the configuration says.
    pub fn new_disk(filename: String, cache_dir: &str) -> (buffer: Self)
        ensures
            buffer@ == (AudioBufferView::Disk {
                path: DiskPathView { dir: cache_dir@, file_name: filename@ },
                filename: filename@,
            }),
    {
        let path = DiskPath { dir: cache_dir.to_owned(), file_name: filename.clone() };
        AudioBuffer::Disk { path, filename }
    }

    /// Whether a transfer of `content_length` bytes is staged in memory,
    /// given a reading of the available memory.
    pub fn should_use_memory(config: &Config, content_length: u64, available_mb: u64) -> (memory:
        bool)
        ensures
            memory == use_memory(
                config.storage_mode,
                content_length,
                config.memory_threshold_mb,
                config.memory_buffer_mb,
                available_mb,
            ),
    {
        match decide(
            config.storage_mode,
            content_length,
            config.memory_threshold_mb,
            config.memory_buffer_mb,
            available_mb,
        ) {
            StorageDecision::UseMemory => true,
            StorageDecision::UseDisk => false,
        }
    }

    /// Takes a chunk of the download. A memory-backed buffer appends it and
    /// says `true`; a disk-backed one says `false`, and the caller appends
    /// the chunk to the file.
    pub fn write_chunk(&mut self, chunk: &[u8]) -> (stored: bool)
        ensures
            final(self)@ == old(self)@.with_chunk(chunk@),
            stored == (old(self)@ is Memory),
    {
        match self {
            AudioBuffer::Disk { .. } => false,
            AudioBuffer::Memory { data, .. } => {
                data.extend_from_slice(chunk);
                assert(data@ =~= old(self)@.bytes() + chunk@);
                true
            },
        }
    }

    /// Ends the writing. Nothing is left to do for a memory-backed buffer;
    /// for a disk-backed one the answer `true` asks the caller to flush the
    /// file.
    pub fn finish(&mut self) -> (flush: bool)
        ensures
            final(self)@ == old(self)@,
            flush == (old(self)@ is Disk),
    {
        match self {
            AudioBuffer::Disk { .. } => true,
            AudioBuffer::Memory { .. } => false,
        }
    }

    /// The size of the staged bytes. For a disk-backed buffer the caller
    /// passes the length of the file, or `None` where it could not be read,
    /// which counts as an empty file.
    pub fn size(&self, file_len: Option<u64>) -> (size: u64)
        ensures
            size as nat == self@.size(file_len),
    {
        match self {
            AudioBuffer::Disk { .. } => match file_len {
                Some(len) => len,
                None => 0,
            },
            AudioBuffer::Memory { data, .. } => data.len() as u64,
        }
    }

    /// Whether the bytes are staged in memory.
    pub fn is_memory(&self) -> (memory: bool)
        ensures
            memory == (self@ is Memory),
    {
        match self {
            AudioBuffer::Disk { .. } => false,
            AudioBuffer::Memory { .. } => true,
        }
    }

    /// The name under which the file is delivered.
    pub fn filename(&self) -> (name: &str)
        ensures
            self@ matches AudioBufferView::Disk { filename, .. } ==> name@ == filename,
            self@ matches AudioBufferView::Memory { filename, .. } ==> name@ == filename,
    {
        match self {
            AudioBuffer::Disk { filename, .. } => filename.as_str(),
            AudioBuffer::Memory { filename, .. } => filename.as_str(),
        }
    }

    /// The file of a disk-backed buffer.
    pub fn path(&self) -> (path: Option<&DiskPath>)
        ensures
            match self@ {
                AudioBufferView::Disk { path: staged, .. } => path matches Some(found) && found@
                    == staged,
                AudioBufferView::Memory { .. } => path is None,
            },
    {
        match self {
            AudioBuffer::Disk { path, .. } => Some(path),
            AudioBuffer::Memory { .. } => None,
        }
    }

    /// Tags an MP3 buffer with a fresh ID3v2.4 tag. The bytes of a
    /// memory-backed buffer are rebuilt with the tag in front, unless the
    /// buffer is truncated or the tag too large; a disk-backed buffer is left
    /// to the caller, who writes the same frames to the file.
    pub fn add_id3_tags(&mut self, tags: &TagPayload, artwork: Option<&[u8]>) -> (result: Result<
        Tagging,
        TagError,
    >)
        ensures
            old(self)@ is Disk ==> result == Ok::<Tagging, TagError>(Tagging::LeftToFile)
                && final(self)@ == old(self)@,
            old(self)@ is Memory ==> (match id3_outcome(
                old(self)@.bytes(),
                tags.id3_bytes(artwork),
                tags.id3_bound(artwork),
            ) {
                Ok(tagged) => result == Ok::<Tagging, TagError>(Tagging::Embedded) && final(self)@
                    == old(self)@.with_bytes(tagged),
                Err(error) => result == Err::<Tagging, TagError>(error) && final(self)@ == old(
                    self,
                )@,
            }),
            old(self)@ is Memory && mp3_audio_start(old(self)@.bytes()) <= old(self)@.bytes().len()
                && tags.id3_bound(artwork) < 0x1000_0000 ==> is_id3_tag(tags.id3_bytes(artwork))
                && tags.id3_bytes(artwork).len() <= 10 + tags.id3_bound(artwork),
            old(self)@ is Memory && result is Ok ==> {
                &&& mp3_audio_start(final(self)@.bytes()) == tags.id3_bytes(artwork).len()
                &&& mp3_audio_start(final(self)@.bytes()) == 10 + syncsafe(
                    final(self)@.bytes()[6],
                    final(self)@.bytes()[7],
                    final(self)@.bytes()[8],
                    final(self)@.bytes()[9],
                )
                &&& final(self)@.bytes().subrange(
                    mp3_audio_start(final(self)@.bytes()),
                    final(self)@.bytes().len() as int,
                ) == old(self)@.bytes().subrange(
                    mp3_audio_start(old(self)@.bytes()),
                    old(self)@.bytes().len() as int,
                )
            },
    {
        match self {
            AudioBuffer::Disk { .. } => Ok(Tagging::LeftToFile),
            AudioBuffer::Memory { data, .. } => {
                let fields = tags.id3_fields(artwork);
                assert(id3_tag_of(&fields) == tags.id3_bytes(artwork));
                assert(id3_size_bound(&fields) == tags.id3_bound(artwork));
                match embed_id3(data, &fields) {
                    Ok(()) => Ok(Tagging::Embedded),
                    Err(error) => Err(error),
                }
            },
        }
    }

    /// Tags a FLAC buffer with the comments and the cover of a track. The
    /// bytes of a memory-backed buffer are rebuilt from the edited metadata
    /// and the audio frames, unless no audio can be located in them, they
    /// are truncated, or the metadata would be too large; a disk-backed
    /// buffer is left to the caller, who makes the same edits in the file.
    pub fn add_flac_metadata(&mut self, tags: &TagPayload, artwork: Option<&[u8]>) -> (result:
        Result<Tagging, TagError>)
        ensures
            old(self)@ is Disk ==> result == Ok::<Tagging, TagError>(Tagging::LeftToFile)
                && final(self)@ == old(self)@,
            result is Err ==> final(self)@ == old(self)@,
            old(self)@ is Memory && result is Ok ==> result == Ok::<Tagging, TagError>(
                Tagging::Embedded,
            ) && final(self)@ == old(self)@.with_bytes(final(self)@.bytes()) && retagged_flac(
                old(self)@.bytes(),
                final(self)@.bytes(),
            ),
            old(self)@ is Memory && result is Ok ==> flac_tagged(
                old(self)@.bytes(),
                final(self)@.bytes(),
                tags.title@,
                tags.spec_album_name(),
                tags.artist@,
                tags.flac_cover(artwork),
            ),
            old(self)@ is Memory ==> (flac_refusal(
                tags.flac_cover_bound(artwork),
                tags.flac_comment_growth(),
                tags.flac_growth(artwork),
                old(self)@.bytes(),
            ) matches Some(error) ==> result == Err::<Tagging, TagError>(error)),
            old(self)@ is Memory && flac_refusal(
                tags.flac_cover_bound(artwork),
                tags.flac_comment_growth(),
                tags.flac_growth(artwork),
                old(self)@.bytes(),
            ) is None ==> (result is Ok || result == Err::<Tagging, TagError>(TagError::TooLarge)),
            old(self)@ is Memory && flac_refusal(
                tags.flac_cover_bound(artwork),
                tags.flac_comment_growth(),
                tags.flac_growth(artwork),
                old(self)@.bytes(),
            ) is None && result_fits(tags.flac_growth(artwork), old(self)@.bytes()) ==> result
                is Ok,
    {
        match self {
            AudioBuffer::Disk { .. } => Ok(Tagging::LeftToFile),
            AudioBuffer::Memory { data, .. } => {
                let edits: FlacEdits = tags.flac_edits(artwork);
                match embed_flac(data, &edits) {
                    Ok(()) => Ok(Tagging::Embedded),
                    Err(error) => Err(error),
                }
            },
        }
    }

    /// The payload of the upload, with a copy of the bytes held in memory.
    pub fn to_input_file(&self) -> (payload: UploadPayload)
        ensures
            payload@ == self@.upload(),
    {
        match self {
            AudioBuffer::Disk { path, .. } => UploadPayload::File { path: clone_path(path) },
            AudioBuffer::Memory { data, filename, .. } => UploadPayload::Memory {
                data: data.clone(),
                file_name: filename.clone(),
            },
        }
    }

    /// The payload of the upload, which takes the bytes held in memory over.
    pub fn into_input_file(self) -> (payload: UploadPayload)
        ensures
            payload@ == self@.upload(),
    {
        match self {
            AudioBuffer::Disk { path, .. } => UploadPayload::File { path },
            AudioBuffer::Memory { data, filename, .. } => UploadPayload::Memory {
                data,
                file_name: filename,
            },
        }
    }

    /// A copy of the bytes held in memory; `None` for a disk-backed buffer,
    /// whose file the caller reads.
    pub fn get_data(&self) -> (bytes: Option<Vec<u8>>)
        ensures
            match self@ {
                AudioBufferView::Memory { data, .. } => bytes matches Some(copy) && copy@ == data,
                AudioBufferView::Disk { .. } => bytes is None,
            },
    {
        match self {
            AudioBuffer::Disk { .. } => None,
            AudioBuffer::Memory { data, .. } => Some(data.clone()),
        }
    }

    /// Gives the buffer up. The answer names the file that the caller
    /// removes if it is still there; the bytes of a memory-backed buffer are
    /// dropped.
    pub fn cleanup(self) -> (file: Option<DiskPath>)
        ensures
            match self@ {
                AudioBufferView::Disk { path, .. } => file matches Some(found) && found@ == path,
                AudioBufferView::Memory { .. } => file is None,
            },
    {
        match self {
            AudioBuffer::Disk { path, .. } => Some(path),
            AudioBuffer::Memory { .. } => None,
        }
    }
}

impl AudioBufferView {
    /// What the buffer hands to the upload: its file, or its bytes under its
    /// file name.
    pub open spec fn upload(self) -> UploadView {
        match self {
            AudioBufferView::Disk { path, .. } => UploadView::File { path },
            AudioBufferView::Memory { data, filename, .. } => UploadView::Memory {
                data,
                file_name: filename,
            },
        }
    }
}

impl TagPayload {
    /// An upper bound on the size of the frames of the ID3v2.4 tag of this
    /// track with `artwork` as its cover.
    pub open spec fn id3_bound(&self, artwork: Option<&[u8]>) -> nat {
        128 + utf8_len(self.title@) + utf8_len(self.spec_album_name()) + utf8_len(self.artist@)
            + (match artwork {
            Some(image) => utf8_len(cover_mime()) + utf8_len(id3_cover_description())
                + image@.len(),
            None => 0nat,
        })
    }

    /// The bytes of the ID3v2.4 tag of this track with `artwork` as its cover.
    pub open spec fn id3_bytes(&self, artwork: Option<&[u8]>) -> Seq<u8> {
        id3v24_bytes(
            self.title@,
            self.spec_album_name(),
            self.artist@,
            whole_seconds(self.duration_ms) as u32,
            match artwork {
                Some(image) => Some(
                    (cover_mime(), id3_cover_description(), image@),
                ),
                None => None,
            },
        )
    }
}

/// Whether a thumbnail of `len` bytes is kept in memory: never in disk mode,
/// and in the other modes if it has fewer than five whole MiB.
pub open spec fn thumbnail_in_memory(mode: StorageMode, len: nat) -> bool {
    mode != StorageMode::Disk && len / 1048576 < 5
}

impl ThumbnailBuffer {
    /// Stages the bytes of a thumbnail. Where they go to disk, they come
    /// back beside the buffer, and the caller writes them to its file.
    pub fn new(config: &Config, data: Vec<u8>, cache_dir: &str, filename: &str) -> (staged: (
        Self,
        Option<Vec<u8>>,
    ))
        ensures
            thumbnail_in_memory(config.storage_mode, data@.len()) ==> staged.0@
                == (ThumbnailView::Memory { data: data@ }) && staged.1 is None,
            !thumbnail_in_memory(config.storage_mode, data@.len()) ==> staged.0@
                == (ThumbnailView::Disk {
                path: DiskPathView { dir: cache_dir@, file_name: filename@ },
            }) && staged.1 == Some(data),
    {
        let in_memory = match config.storage_mode {
            StorageMode::Disk => false,
            StorageMode::Memory | StorageMode::Hybrid => {
                let size_mb = data.len() as u64 / 1048576;
                size_mb < THUMBNAIL_MEMORY_LIMIT_MB
            },
        };
        if in_memory {
            (ThumbnailBuffer::Memory { data }, None)
        } else {
            let path = DiskPath { dir: cache_dir.to_owned(), file_name: filename.to_owned() };
            (ThumbnailBuffer::Disk { path }, Some(data))
        }
    }

    /// A thumbnail that is already stored in a file.
    pub fn from_path(path: DiskPath) -> (buffer: Self)
        ensures
            buffer@ == (ThumbnailView::Disk { path: path@ }),
    {
        ThumbnailBuffer::Disk { path }
    }

    /// A thumbnail held in memory.
    pub fn from_memory(data: Vec<u8>) -> (buffer: Self)
        ensures
            buffer@ == (ThumbnailView::Memory { data: data@ }),
    {
        ThumbnailBuffer::Memory { data }
    }

    /// A copy of the bytes held in memory; `None` for a thumbnail on disk,
    /// whose file the caller reads.
    pub fn get_data(&self) -> (bytes: Option<Vec<u8>>)
        ensures
            match self@ {
                ThumbnailView::Memory { data } => bytes matches Some(copy) && copy@ == data,
                ThumbnailView::Disk { .. } => bytes is None,
            },
    {
        match self {
            ThumbnailBuffer::Disk { .. } => None,
            ThumbnailBuffer::Memory { data } => Some(data.clone()),
        }
    }

    /// The file of a thumbnail on disk.
    pub fn path(&self) -> (path: Option<&DiskPath>)
        ensures
            match self@ {
                ThumbnailView::Disk { path: stored } => path matches Some(found) && found@
                    == stored,
                ThumbnailView::Memory { .. } => path is None,
            },
    {
        match self {
            ThumbnailBuffer::Disk { path } => Some(path),
            ThumbnailBuffer::Memory { .. } => None,
        }
    }

    /// Whether the thumbnail is held in memory.
    pub fn is_memory(&self) -> (memory: bool)
        ensures
            memory == (self@ is Memory),
    {
        match self {
            ThumbnailBuffer::Disk { .. } => false,
            ThumbnailBuffer::Memory { .. } => true,
        }
    }

    /// The payload of the upload, with a copy of the bytes held in memory.
    pub fn to_input_file(&self) -> (payload: UploadPayload)
        ensures
            payload@ == self@.upload(),
    {
        match self {
            ThumbnailBuffer::Disk { path } => UploadPayload::File { path: clone_path(path) },
            ThumbnailBuffer::Memory { data } => UploadPayload::Memory {
                data: data.clone(),
                file_name: "thumb.jpg".to_owned(),
            },
        }
    }

    /// The payload of the upload, which takes the bytes held in memory over.
    pub fn into_input_file(self) -> (payload: UploadPayload)
        ensures
            payload@ == self@.upload(),
    {
        match self {
            ThumbnailBuffer::Disk { path } => UploadPayload::File { path },
            ThumbnailBuffer::Memory { data } => UploadPayload::Memory {
                data,
                file_name: "thumb.jpg".to_owned(),
            },
        }
    }

    /// Gives the thumbnail up. The answer names the file that the caller
    /// removes if it is still there.
    pub fn cleanup(self) -> (file: Option<DiskPath>)
        ensures
            match self@ {
                ThumbnailView::Disk { path } => file matches Some(found) && found@ == path,
                ThumbnailView::Memory { .. } => file is None,
            },
    {
        match self {
            ThumbnailBuffer::Disk { path } => Some(path),
            ThumbnailBuffer::Memory { .. } => None,
        }
    }
}

impl ThumbnailView {
    /// What the thumbnail hands to the upload: its file, or its bytes under
    /// the fixed thumbnail name.
    pub open spec fn upload(self) -> UploadView {
        match self {
            ThumbnailView::Disk { path } => UploadView::File { path },
            ThumbnailView::Memory { data } => UploadView::Memory {
                data,
                file_name: thumbnail_file_name(),
            },
        }
    }
}

/// The chunks of a download, one behind the other.
pub open spec fn joined(chunks: Seq<Seq<u8>>) -> Seq<u8>
    decreases chunks.len(),
{
    if chunks.len() == 0 {
        Seq::empty()
    } else {
        chunks.first() + joined(chunks.drop_first())
    }
}

/// A memory-backed buffer that took a run of chunks holds them joined behind
/// what it held, so that its size has grown by the sum of their lengths.
pub proof fn lemma_chunks_are_joined(buffer: AudioBufferView, chunks: Seq<Seq<u8>>)
    requires
        buffer is Memory,
    ensures
        buffer.with_chunks(chunks) == buffer.with_bytes(buffer.bytes() + joined(chunks)),
        buffer.with_chunks(chunks).size(None) == buffer.size(None) + total_len(chunks),
        joined(chunks).len() == total_len(chunks),
    decreases chunks.len(),
{
    if chunks.len() == 0 {
        assert(buffer.bytes() + joined(chunks) =~= buffer.bytes());
    } else {
        let next = buffer.with_chunk(chunks.first());
        lemma_chunks_are_joined(next, chunks.drop_first());
        assert(next.bytes() + joined(chunks.drop_first()) =~= buffer.bytes() + joined(chunks));
    }
}

/// However a payload is split into chunks, a memory-backed buffer that took
/// the chunks holds the same bytes and has the same size.
pub proof fn lemma_chunking_invariance(
    buffer: AudioBufferView,
    split_a: Seq<Seq<u8>>,
    split_b: Seq<Seq<u8>>,
)
    requires
        buffer is Memory,
        joined(split_a) == joined(split_b),
    ensures
        buffer.with_chunks(split_a) == buffer.with_chunks(split_b),
        buffer.with_chunks(split_a).size(None) == buffer.size(None) + joined(split_a).len(),
        total_len(split_a) == total_len(split_b),
{
    lemma_chunks_are_joined(buffer, split_a);
    lemma_chunks_are_joined(buffer, split_b);
}

fn clone_path(path: &DiskPath) -> (copy: DiskPath)
    ensures
        copy@ == path@,
{
    DiskPath { dir: path.dir.clone(), file_name: path.file_name.clone() }
}

} // verus!
