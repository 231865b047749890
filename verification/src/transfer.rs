//! The decisions of one transfer: which covers to fetch, whether a download
//! is worth keeping, which tagger a file goes to, which quality to ask for
//! next, and when the upload transport is rebuilt. Waiting and sending are
//! the caller's part; what to do next is decided here.

use vstd::prelude::*;
use crate::audio_buffer::{AudioBuffer, Tagging};
use crate::config::CoverMode;
use crate::error::TagError;
use crate::flac_tag::{flac_refusal, flac_tagged, result_fits, retagged_flac};
use crate::mp3::{id3_outcome, is_id3_tag, mp3_audio_start};
use crate::tags::TagPayload;
use crate::text::{contains_text, same_text};
use crate::utils::is_stale_reference;

verus! {

/// Downloads of fewer bytes than this are not audio files.
pub const MIN_AUDIO_SIZE: u64 = 1024;

/// The bitrate of the lossless tier.
pub const TIER_LOSSLESS: u32 = 999000;

/// The bitrate of the high tier.
pub const TIER_HIGH: u32 = 320000;

/// The bitrate of the standard tier.
pub const TIER_STANDARD: u32 = 128000;

/// What is fetched and embedded for a cover mode.
#[derive(Debug, Clone, Copy, PartialEq, Eq, Structural)]
pub struct CoverPolicy {
    /// Fetch the original image.
    pub download_original: bool,
    /// Fetch the resized thumbnail.
    pub download_thumbnail: bool,
    /// Write the text metadata into the file.
    pub embed_tags: bool,
    /// Write the original image into the file.
    pub embed_cover: bool,
}

/// The policy of a cover mode: the original is fetched, and embedded, in the
/// modes `Original` and `Both`, the thumbnail in `Thumbnail` and `Both`, and
/// the text metadata is always written.
pub fn resolve_cover_policy(cover_mode: CoverMode) -> (policy: CoverPolicy)
    ensures
        policy.download_original == (cover_mode == CoverMode::Original || cover_mode
            == CoverMode::Both),
        policy.download_thumbnail == (cover_mode == CoverMode::Thumbnail || cover_mode
            == CoverMode::Both),
        policy.embed_tags,
        policy.embed_cover == policy.download_original,
{
    let download_original = match cover_mode {
        CoverMode::Original | CoverMode::Both => true,
        CoverMode::Thumbnail => false,
    };
    let download_thumbnail = match cover_mode {
        CoverMode::Thumbnail | CoverMode::Both => true,
        CoverMode::Original => false,
    };
    CoverPolicy {
        download_original,
        download_thumbnail,
        embed_tags: true,
        embed_cover: download_original,
    }
}

/// Why a transfer ended without an upload.
#[derive(Debug, Clone, Copy, PartialEq, Eq, Structural)]
pub enum TransferError {
    /// The server answered without success, or announced no length.
    Upstream,
    /// The download is empty.
    EmptyFile,
    /// The download has this many bytes, too few for an audio file.
    UndersizedFile(u64),
}

/// Accepts the answer to the download request: it must report success and
/// announce a length other than 0, which is then the length to stage.
pub fn check_response(success: bool, content_length: Option<u64>) -> (result: Result<
    u64,
    TransferError,
>)
    ensures
        result == (match content_length {
            Some(length) if success && length > 0 => Ok::<u64, TransferError>(length),
            _ => Err::<u64, TransferError>(TransferError::Upstream),
        }),
{
    if !success {
        return Err(TransferError::Upstream);
    }
    match content_length {
        Some(length) => if length > 0 {
            Ok(length)
        } else {
            Err(TransferError::Upstream)
        },
        None => Err(TransferError::Upstream),
    }
}

/// Accepts a finished download by its size: an empty one and one of fewer
/// than 1024 bytes are refused.
pub fn validate_download(actual_size: u64) -> (result: Result<(), TransferError>)
    ensures
        actual_size == 0 <==> result == Err::<(), TransferError>(TransferError::EmptyFile),
        0 < actual_size < 1024 <==> result == Err::<(), TransferError>(
            TransferError::UndersizedFile(actual_size),
        ),
        actual_size >= 1024 <==> result is Ok,
{
    if actual_size == 0 {
        Err(TransferError::EmptyFile)
    } else if actual_size < MIN_AUDIO_SIZE {
        Err(TransferError::UndersizedFile(actual_size))
    } else {
        Ok(())
    }
}

/// The container that a file extension stands for.
#[derive(Debug, Clone, Copy, PartialEq, Eq, Structural)]
pub enum TagFormat {
    Mp3,
    Flac,
    /// No tagger knows the extension: the file is delivered untagged.
    Unknown,
}

/// The container of a file extension: `mp3`, `flac`, or neither.
pub open spec fn format_of(file_ext: Seq<char>) -> TagFormat {
    if file_ext == "mp3"@ {
        TagFormat::Mp3
    } else if file_ext == "flac"@ {
        TagFormat::Flac
    } else {
        TagFormat::Unknown
    }
}

/// The container of a file extension.
pub fn tag_format(file_ext: &str) -> (format: TagFormat)
    ensures
        format == format_of(file_ext@),
{
    if same_text(file_ext, "mp3") {
        TagFormat::Mp3
    } else if same_text(file_ext, "flac") {
        TagFormat::Flac
    } else {
        TagFormat::Unknown
    }
}

/// What tagging did, or why it was not done.
#[derive(Debug, Clone, Copy, PartialEq, Eq, Structural)]
pub enum TagReport {
    /// The tagger ran and answered this.
    Done(Tagging),
    /// No tagger knows the extension.
    Skipped,
    /// The tagger refused; the file is delivered as it was downloaded.
    Failed(TagError),
}

/// Hands a finished download to the tagger of its extension, with the
/// original cover where the policy embeds one. A file of an unknown
/// extension is left alone, and so is one that its tagger refuses: a refusal
/// never loses the audio.
pub fn tag_download(
    buffer: &mut AudioBuffer,
    file_ext: &str,
    tags: &TagPayload,
    original_cover: Option<&[u8]>,
    policy: CoverPolicy,
) -> (report: TagReport)
    ensures
        format_of(file_ext@) == TagFormat::Unknown <==> report == TagReport::Skipped,
        report is Skipped || report is Failed ==> final(buffer)@ == old(buffer)@,
        old(buffer)@ is Disk ==> final(buffer)@ == old(buffer)@ && (report == TagReport::Skipped
            || report == TagReport::Done(Tagging::LeftToFile)),
        old(buffer)@ is Memory ==> final(buffer)@ is Memory && report != TagReport::Done(
            Tagging::LeftToFile,
        ),
        format_of(file_ext@) == TagFormat::Mp3 && old(buffer)@ is Memory ==> (match id3_outcome(
            old(buffer)@.bytes(),
            tags.id3_bytes(embedded_cover(original_cover, policy)),
            tags.id3_bound(embedded_cover(original_cover, policy)),
        ) {
            Ok(tagged) => report == TagReport::Done(Tagging::Embedded) && final(buffer)@ == old(
                buffer,
            )@.with_bytes(tagged),
            Err(error) => report == TagReport::Failed(error),
        }),
        format_of(file_ext@) == TagFormat::Mp3 && old(buffer)@ is Memory && mp3_audio_start(
            old(buffer)@.bytes(),
        ) <= old(buffer)@.bytes().len() && tags.id3_bound(embedded_cover(original_cover, policy))
            < 0x1000_0000 ==> is_id3_tag(tags.id3_bytes(embedded_cover(original_cover, policy)))
            && tags.id3_bytes(embedded_cover(original_cover, policy)).len() <= 10 + tags.id3_bound(
            embedded_cover(original_cover, policy),
        ),
        format_of(file_ext@) == TagFormat::Flac && old(buffer)@ is Memory && report is Done
            ==> final(buffer)@ == old(buffer)@.with_bytes(final(buffer)@.bytes())
            && retagged_flac(old(buffer)@.bytes(), final(buffer)@.bytes()),
        format_of(file_ext@) == TagFormat::Flac && old(buffer)@ is Memory && report is Done
            ==> flac_tagged(
            old(buffer)@.bytes(),
            final(buffer)@.bytes(),
            tags.title@,
            tags.spec_album_name(),
            tags.artist@,
            tags.flac_cover(embedded_cover(original_cover, policy)),
        ),
        format_of(file_ext@) == TagFormat::Flac && old(buffer)@ is Memory ==> (flac_refusal(
            tags.flac_cover_bound(embedded_cover(original_cover, policy)),
            tags.flac_comment_growth(),
            tags.flac_growth(embedded_cover(original_cover, policy)),
            old(buffer)@.bytes(),
        ) matches Some(error) ==> report == TagReport::Failed(error)),
        format_of(file_ext@) == TagFormat::Flac && old(buffer)@ is Memory && flac_refusal(
            tags.flac_cover_bound(embedded_cover(original_cover, policy)),
            tags.flac_comment_growth(),
            tags.flac_growth(embedded_cover(original_cover, policy)),
            old(buffer)@.bytes(),
        ) is None ==> (report == TagReport::Done(Tagging::Embedded) || report
            == TagReport::Failed(TagError::TooLarge)),
        format_of(file_ext@) == TagFormat::Flac && old(buffer)@ is Memory && flac_refusal(
            tags.flac_cover_bound(embedded_cover(original_cover, policy)),
            tags.flac_comment_growth(),
            tags.flac_growth(embedded_cover(original_cover, policy)),
            old(buffer)@.bytes(),
        ) is None && result_fits(
            tags.flac_growth(embedded_cover(original_cover, policy)),
            old(buffer)@.bytes(),
        ) ==> report == TagReport::Done(Tagging::Embedded),
{
    let artwork = if policy.embed_cover {
        original_cover
    } else {
        None
    };
    match tag_format(file_ext) {
        TagFormat::Mp3 => match buffer.add_id3_tags(tags, artwork) {
            Ok(done) => TagReport::Done(done),
            Err(error) => TagReport::Failed(error),
        },
        TagFormat::Flac => match buffer.add_flac_metadata(tags, artwork) {
            Ok(done) => TagReport::Done(done),
            Err(error) => TagReport::Failed(error),
        },
        TagFormat::Unknown => TagReport::Skipped,
    }
}

/// The cover that is embedded: the original where the policy embeds covers.
pub open spec fn embedded_cover<'a>(original_cover: Option<&'a [u8]>, policy: CoverPolicy) -> Option<
    &'a [u8],
> {
    if policy.embed_cover {
        original_cover
    } else {
        None
    }
}

/// How a request for a download address ended.
#[derive(Debug, Clone, Copy, PartialEq, Eq, Structural)]
pub enum UrlOutcome {
    /// An address came back.
    Address,
    /// The answer held an empty address.
    Empty,
    /// The request failed.
    Failed,
}

/// What to do after a request for a download address.
#[derive(Debug, Clone, Copy, PartialEq, Eq, Structural)]
pub enum TierDecision {
    /// Download from the address that came back.
    Use,
    /// Ask again at this bitrate.
    Retry(u32),
    /// Tell the user that the track cannot be had.
    Unavailable,
    /// Tell the user that the request failed.
    GiveUp,
}

/// The bitrate to ask for first: lossless for an entitled account, high
/// otherwise.
pub fn first_tier(entitled: bool) -> (tier: u32)
    ensures
        tier == (if entitled {
            TIER_LOSSLESS
        } else {
            TIER_HIGH
        }),
{
    if entitled {
        TIER_LOSSLESS
    } else {
        TIER_HIGH
    }
}

/// The rule of the quality fallback. An address is used. On a failure and
/// on an empty address the lossless tier falls back to the high tier and the
/// high tier to the standard tier. Below that nothing is left: an empty
/// address means that the track is unavailable, a failure that the request
/// is given up.
pub open spec fn tier_rule(entitled: bool, tier: u32, outcome: UrlOutcome) -> TierDecision {
    if outcome == UrlOutcome::Address {
        TierDecision::Use
    } else if tier == TIER_LOSSLESS {
        TierDecision::Retry(TIER_HIGH)
    } else if tier == TIER_HIGH {
        TierDecision::Retry(TIER_STANDARD)
    } else if outcome == UrlOutcome::Empty {
        TierDecision::Unavailable
    } else {
        TierDecision::GiveUp
    }
}

/// The next step of the quality fallback.
pub fn next_tier(entitled: bool, tier: u32, outcome: UrlOutcome) -> (decision: TierDecision)
    ensures
        decision == tier_rule(entitled, tier, outcome),
{
    match outcome {
        UrlOutcome::Address => TierDecision::Use,
        UrlOutcome::Empty => if tier == TIER_LOSSLESS {
            TierDecision::Retry(TIER_HIGH)
        } else if tier == TIER_HIGH {
            TierDecision::Retry(TIER_STANDARD)
        } else {
            TierDecision::Unavailable
        },
        UrlOutcome::Failed => if tier == TIER_LOSSLESS {
            TierDecision::Retry(TIER_HIGH)
        } else if tier == TIER_HIGH {
            TierDecision::Retry(TIER_STANDARD)
        } else {
            TierDecision::GiveUp
        },
    }
}

/// From the tier that is asked first, every lower tier is asked in turn
/// before the user hears of a failure: nothing but the standard tier ends
/// the fallback without an address.
pub proof fn lemma_failure_only_at_the_lowest_tier(entitled: bool, tier: u32, outcome: UrlOutcome)
    requires
        tier == TIER_LOSSLESS || tier == TIER_HIGH || tier == TIER_STANDARD,
    ensures
        outcome != UrlOutcome::Address && tier != TIER_STANDARD ==> tier_rule(
            entitled,
            tier,
            outcome,
        ) is Retry,
        tier_rule(entitled, tier, outcome) is Unavailable || tier_rule(entitled, tier, outcome)
            is GiveUp ==> tier == TIER_STANDARD,
        tier_rule(entitled, TIER_LOSSLESS, outcome) is Retry ==> tier_rule(
            entitled,
            TIER_LOSSLESS,
            outcome,
        ) == TierDecision::Retry(TIER_HIGH),
        tier_rule(entitled, TIER_HIGH, outcome) is Retry ==> tier_rule(entitled, TIER_HIGH, outcome)
            == TierDecision::Retry(TIER_STANDARD),
{
}

/// The fallback only ever goes down: a retry asks for a lower bitrate than
/// the one that failed, so that no tier is asked for twice, and on the
/// standard tier it never asks again.
pub proof fn lemma_fallback_descends(entitled: bool, tier: u32, outcome: UrlOutcome)
    requires
        tier == TIER_LOSSLESS || tier == TIER_HIGH || tier == TIER_STANDARD,
    ensures
        tier_rule(entitled, tier, outcome) matches TierDecision::Retry(lower) ==> lower < tier && (
        lower == TIER_HIGH || lower == TIER_STANDARD),
        tier == TIER_STANDARD ==> !(tier_rule(entitled, tier, outcome) is Retry),
{
}

/// What is known of a cached upload of a track.
#[derive(Debug, Clone, Copy, PartialEq, Eq, Structural)]
pub struct CachedRecord {
    /// The record holds a reference to the uploaded file.
    pub has_file_reference: bool,
    /// The size of the cached file in bytes.
    pub size: i64,
}

/// What to do with a request, given the cache.
#[derive(Debug, Clone, Copy, PartialEq, Eq, Structural)]
pub enum CachePlan {
    /// Send the cached file.
    SendCached,
    /// Delete the record and run the full transfer.
    PurgeAndTransfer,
    /// Run the full transfer.
    Transfer,
}

/// Plans a request from the cache: a record with a file reference and more
/// than 1024 bytes is sent, one with a reference and fewer bytes is purged,
/// and without a usable record the transfer runs.
pub fn plan_from_cache(record: Option<CachedRecord>) -> (plan: CachePlan)
    ensures
        plan == (match record {
            Some(found) => if !found.has_file_reference {
                CachePlan::Transfer
            } else if found.size > 1024 {
                CachePlan::SendCached
            } else {
                CachePlan::PurgeAndTransfer
            },
            None => CachePlan::Transfer,
        }),
{
    match record {
        Some(found) => if !found.has_file_reference {
            CachePlan::Transfer
        } else if found.size > 1024 {
            CachePlan::SendCached
        } else {
            CachePlan::PurgeAndTransfer
        },
        None => CachePlan::Transfer,
    }
}

/// What to do after sending a cached file failed.
#[derive(Debug, Clone, Copy, PartialEq, Eq, Structural)]
pub enum CacheRecovery {
    /// The reference is stale: delete the record and run the full transfer.
    PurgeAndTransfer,
    /// Hand the failure on.
    Surface,
}

/// Decides what follows a failed send of a cached file: a reference that the
/// platform calls invalid is purged and the transfer runs, any other failure
/// is handed on.
pub fn recover_cached_send(message: &str) -> (recovery: CacheRecovery)
    ensures
        recovery == (if contains_text(
            message@,
            "invalid remote file identifier"@,
        ) {
            CacheRecovery::PurgeAndTransfer
        } else {
            CacheRecovery::Surface
        }),
{
    if is_stale_reference(message) {
        CacheRecovery::PurgeAndTransfer
    } else {
        CacheRecovery::Surface
    }
}

/// The bitrate of a file of `size` bytes that plays for `duration_secs`
/// seconds, in bits per second; the bitrate that the catalog names where the
/// length is unknown.
pub open spec fn bitrate_of(size: u64, duration_secs: u64, catalog_bitrate: u64) -> int {
    if duration_secs > 0 {
        8 * size as int / duration_secs as int
    } else {
        catalog_bitrate as int
    }
}

/// Computes the bitrate to record for a file, kept to 64 bits.
pub fn actual_bitrate(size: u64, duration_secs: u64, catalog_bitrate: u64) -> (bitrate: u64)
    ensures
        bitrate as int == (if bitrate_of(size, duration_secs, catalog_bitrate) <= u64::MAX {
            bitrate_of(size, duration_secs, catalog_bitrate)
        } else {
            u64::MAX as int
        }),
{
    if duration_secs == 0 {
        return catalog_bitrate;
    }
    let bits: u128 = 8 * (size as u128);
    let rate: u128 = bits / (duration_secs as u128);
    if rate > u64::MAX as u128 {
        u64::MAX
    } else {
        rate as u64
    }
}

/// The state of the upload transport: whether one is built, and how many
/// uploads it has served.
#[derive(Debug, Clone, Copy, PartialEq, Eq, Structural)]
pub struct UploadClientState {
    /// A transport is built.
    pub has_client: bool,
    /// Uploads that the transport has been handed out for.
    pub reuse_count: u32,
}

impl UploadClientState {
    /// The state before the first upload: no transport yet.
    pub fn new() -> (state: Self)
        ensures
            state == (UploadClientState { has_client: false, reuse_count: 0 }),
    {
        UploadClientState { has_client: false, reuse_count: 0 }
    }

    /// Whether the next upload gets a new transport: where none is built, or
    /// the one at hand has served `reuse_limit` uploads.
    pub open spec fn needs_rebuild(self, reuse_limit: u32) -> bool {
        !self.has_client || self.reuse_count >= reuse_limit
    }

    /// The state after the transport was handed out for one more upload.
    pub open spec fn after_checkout(self, reuse_limit: u32) -> UploadClientState {
        let served: u32 = if self.needs_rebuild(reuse_limit) {
            0
        } else {
            self.reuse_count
        };
        UploadClientState {
            has_client: true,
            reuse_count: if served == u32::MAX {
                u32::MAX
            } else {
                (served + 1) as u32
            },
        }
    }

    /// Hands the transport out for one upload and says whether the caller
    /// has to build a new one first.
    pub fn checkout(&mut self, reuse_limit: u32) -> (rebuild: bool)
        ensures
            rebuild == old(self).needs_rebuild(reuse_limit),
            *final(self) == old(self).after_checkout(reuse_limit),
    {
        let rebuild = !self.has_client || self.reuse_count >= reuse_limit;
        if rebuild {
            self.has_client = true;
            self.reuse_count = 0;
        }
        self.reuse_count = self.reuse_count.saturating_add(1);
        rebuild
    }
}

/// A transport never serves more uploads than the limit allows: after a
/// checkout its count is at most the limit, or 1 where the limit is 0 and
/// every upload gets a transport of its own.
pub proof fn lemma_reuse_is_bounded(state: UploadClientState, reuse_limit: u32)
    ensures
        state.after_checkout(reuse_limit).has_client,
        state.after_checkout(reuse_limit).reuse_count >= 1,
        state.after_checkout(reuse_limit).reuse_count <= (if reuse_limit >= 1 {
            reuse_limit
        } else {
            1
        }),
        state.needs_rebuild(reuse_limit) ==> state.after_checkout(reuse_limit).reuse_count == 1,
{
}

} // verus!
