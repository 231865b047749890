use music163bot::audio_buffer::{AudioBuffer, Tagging};
use music163bot::board::{holds, step, TransferBoard, TransferEvent, TransferState};
use music163bot::config::CoverMode;
use music163bot::counters::{is_due, peak_after, update_peak, MaintenanceCounters, UploadCounters};
use music163bot::error::{FormatError, TagError};
use music163bot::tags::TagPayload;
use music163bot::transfer::{
    actual_bitrate, check_response, first_tier, next_tier, plan_from_cache, resolve_cover_policy,
    tag_download, tag_format, validate_download, CachePlan, CachedRecord, TagFormat, TagReport,
    TierDecision, TransferError, UploadClientState, UrlOutcome, TIER_HIGH, TIER_LOSSLESS,
    TIER_STANDARD,
};
use std::sync::atomic::{AtomicU32, Ordering};

#[test]
fn update_peak_tracks_highest_value() {
    let counter = std::sync::atomic::AtomicU32::new(0);
    assert_eq!(update_peak(&counter, 1), 1);
    assert_eq!(update_peak(&counter, 2), 2);
    assert_eq!(update_peak(&counter, 2), 2);
    assert_eq!(update_peak(&counter, 1), 2);
}

#[test]
fn the_peak_is_the_larger_value() {
    assert_eq!(peak_after(0, 0), 0);
    assert_eq!(peak_after(3, 5), 5);
    assert_eq!(peak_after(5, 3), 5);
    assert_eq!(peak_after(u32::MAX, 1), u32::MAX);
    let counter = AtomicU32::new(7);
    assert_eq!(update_peak(&counter, 3), 7);
    assert_eq!(counter.load(Ordering::Relaxed), 7);
    assert_eq!(update_peak(&counter, 9), 9);
    assert_eq!(counter.load(Ordering::Relaxed), 9);
}

#[test]
fn uploads_in_flight_are_counted() {
    let counters = UploadCounters::default();
    assert_eq!(counters.upload_started(), (1, 1));
    assert_eq!(counters.upload_started(), (2, 2));
    assert_eq!(counters.upload_finished(), 1);
    assert_eq!(counters.upload_started(), (2, 2));
    assert_eq!(counters.upload_started(), (3, 3));
    assert_eq!(counters.upload_finished(), 2);
    assert_eq!(counters.upload_finished(), 1);
    assert_eq!(counters.upload_finished(), 0);
    assert_eq!(counters.upload_started(), (1, 3));
    assert_eq!(counters.peak_in_flight.load(Ordering::Relaxed), 3);
    assert_eq!(counters.in_flight.load(Ordering::Relaxed), 1);
}

#[test]
fn maintenance_runs_every_interval() {
    let counters = MaintenanceCounters::new();
    let runs: Vec<bool> = (0..7)
        .map(|_| MaintenanceCounters::should_run(&counters.db_analyze_requests, 3))
        .collect();
    assert_eq!(runs, vec![false, false, true, false, false, true, false]);
    assert_eq!(counters.db_analyze_requests.load(Ordering::Relaxed), 7);
    assert!(MaintenanceCounters::should_run(&counters.memory_release_requests, 1));
    assert!(MaintenanceCounters::should_run(&counters.memory_release_requests, 1));
    // An interval of 0 turns maintenance off and counts nothing.
    assert!(!MaintenanceCounters::should_run(&counters.memory_release_requests, 0));
    assert_eq!(counters.memory_release_requests.load(Ordering::Relaxed), 2);
}

#[test]
fn due_dates_wrap_with_the_counter() {
    assert!(!is_due(0, 0));
    assert!(is_due(0, 1));
    assert!(is_due(9, 10));
    assert!(!is_due(10, 10));
    assert!(is_due(19, 10));
    // After 2^32 - 1 requests the count wraps to 0, a multiple of everything.
    assert!(is_due(u32::MAX, 7));
    assert!(!is_due(u32::MAX - 1, 7));
    assert!(is_due(u32::MAX - 1, 5));
}

#[test]
fn cover_modes_become_policies() {
    let thumbnail = resolve_cover_policy(CoverMode::Thumbnail);
    assert!(!thumbnail.download_original);
    assert!(thumbnail.download_thumbnail);
    assert!(thumbnail.embed_tags);
    assert!(!thumbnail.embed_cover);
    let original = resolve_cover_policy(CoverMode::Original);
    assert!(original.download_original);
    assert!(!original.download_thumbnail);
    assert!(original.embed_tags);
    assert!(original.embed_cover);
    let both = resolve_cover_policy(CoverMode::Both);
    assert!(both.download_original && both.download_thumbnail && both.embed_tags && both.embed_cover);
}

#[test]
fn responses_need_success_and_a_length() {
    assert_eq!(check_response(true, Some(10)), Ok(10));
    assert_eq!(check_response(true, Some(0)), Err(TransferError::Upstream));
    assert_eq!(check_response(true, None), Err(TransferError::Upstream));
    assert_eq!(check_response(false, Some(10)), Err(TransferError::Upstream));
    assert_eq!(check_response(false, None), Err(TransferError::Upstream));
}

#[test]
fn downloads_need_a_kib() {
    assert_eq!(validate_download(0), Err(TransferError::EmptyFile));
    assert_eq!(validate_download(1), Err(TransferError::UndersizedFile(1)));
    assert_eq!(validate_download(1023), Err(TransferError::UndersizedFile(1023)));
    assert_eq!(validate_download(1024), Ok(()));
    assert_eq!(validate_download(u64::MAX), Ok(()));
}

#[test]
fn extensions_pick_the_tagger() {
    assert_eq!(tag_format("mp3"), TagFormat::Mp3);
    assert_eq!(tag_format("flac"), TagFormat::Flac);
    assert_eq!(tag_format("MP3"), TagFormat::Unknown);
    assert_eq!(tag_format(""), TagFormat::Unknown);
    assert_eq!(tag_format("ogg"), TagFormat::Unknown);
    assert_eq!(tag_format("mp3 "), TagFormat::Unknown);
}

fn tags() -> TagPayload {
    TagPayload { title: "t".to_string(), album: None, artist: "a".to_string(), duration_ms: Some(5000) }
}

fn in_memory(bytes: &[u8]) -> AudioBuffer {
    AudioBuffer::Memory { data: bytes.to_vec(), filename: "f".to_string(), capacity: 0 }
}

#[test]
fn tagging_dispatches_and_never_loses_the_audio() {
    let audio = b"\xFF\xFBaudio".to_vec();
    let policy = resolve_cover_policy(CoverMode::Thumbnail);

    let mut unknown = in_memory(&audio);
    assert_eq!(tag_download(&mut unknown, "ogg", &tags(), None, policy), TagReport::Skipped);
    assert_eq!(unknown.get_data(), Some(audio.clone()));

    let mut mp3 = in_memory(&audio);
    assert_eq!(
        tag_download(&mut mp3, "mp3", &tags(), None, policy),
        TagReport::Done(Tagging::Embedded)
    );
    let tagged = mp3.get_data().unwrap();
    assert!(tagged.starts_with(b"ID3"));
    assert!(tagged.ends_with(&audio));

    // An MP3 body is no FLAC: the tagger refuses and the bytes stay.
    let mut wrong = in_memory(&audio);
    assert_eq!(
        tag_download(&mut wrong, "flac", &tags(), None, policy),
        TagReport::Failed(TagError::Format(FormatError::NotFlac))
    );
    assert_eq!(wrong.get_data(), Some(audio.clone()));

    let mut disk = AudioBuffer::new_disk("f.mp3".to_string(), "/c");
    assert_eq!(
        tag_download(&mut disk, "mp3", &tags(), None, policy),
        TagReport::Done(Tagging::LeftToFile)
    );
    assert_eq!(tag_download(&mut disk, "wav", &tags(), None, policy), TagReport::Skipped);
}

#[test]
fn the_cover_is_embedded_only_where_the_policy_says_so() {
    let audio = b"\xFF\xFBaudio".to_vec();
    let art = vec![1u8, 2, 3];
    let mut without = in_memory(&audio);
    tag_download(&mut without, "mp3", &tags(), Some(&art), resolve_cover_policy(CoverMode::Thumbnail));
    let mut with = in_memory(&audio);
    tag_download(&mut with, "mp3", &tags(), Some(&art), resolve_cover_policy(CoverMode::Both));
    let mut plain = in_memory(&audio);
    tag_download(&mut plain, "mp3", &tags(), None, resolve_cover_policy(CoverMode::Both));
    assert_eq!(without.get_data(), plain.get_data());
    assert!(with.get_data().unwrap().len() > plain.get_data().unwrap().len());
}

#[test]
fn quality_falls_back_tier_by_tier() {
    assert_eq!(first_tier(true), 999_000);
    assert_eq!(first_tier(false), 320_000);
    assert_eq!((TIER_LOSSLESS, TIER_HIGH, TIER_STANDARD), (999_000, 320_000, 128_000));
    for entitled in [true, false] {
        for tier in [TIER_LOSSLESS, TIER_HIGH, TIER_STANDARD] {
            assert_eq!(next_tier(entitled, tier, UrlOutcome::Address), TierDecision::Use);
        }
    }
    // Every tier falls back to the next lower one, on a failure and on an
    // empty address alike, with and without entitlement.
    for entitled in [true, false] {
        for outcome in [UrlOutcome::Empty, UrlOutcome::Failed] {
            assert_eq!(next_tier(entitled, TIER_LOSSLESS, outcome), TierDecision::Retry(320_000));
            assert_eq!(next_tier(entitled, TIER_HIGH, outcome), TierDecision::Retry(128_000));
        }
        // Only the lowest tier ends the fallback.
        assert_eq!(next_tier(entitled, TIER_STANDARD, UrlOutcome::Failed), TierDecision::GiveUp);
        assert_eq!(next_tier(entitled, TIER_STANDARD, UrlOutcome::Empty), TierDecision::Unavailable);
    }
}

#[test]
fn the_fallback_asks_every_tier_in_turn() {
    for entitled in [true, false] {
        for outcome in [UrlOutcome::Empty, UrlOutcome::Failed] {
            let mut asked = vec![first_tier(entitled)];
            let last = loop {
                match next_tier(entitled, *asked.last().unwrap(), outcome) {
                    TierDecision::Retry(lower) => asked.push(lower),
                    decision => break decision,
                }
            };
            let expected: Vec<u32> =
                if entitled { vec![999_000, 320_000, 128_000] } else { vec![320_000, 128_000] };
            assert_eq!(asked, expected);
            let ending = if outcome == UrlOutcome::Empty {
                TierDecision::Unavailable
            } else {
                TierDecision::GiveUp
            };
            assert_eq!(last, ending);
        }
    }
}

#[test]
fn the_cache_is_used_when_its_record_is_sound() {
    assert_eq!(plan_from_cache(None), CachePlan::Transfer);
    let record = |has_file_reference, size| Some(CachedRecord { has_file_reference, size });
    assert_eq!(plan_from_cache(record(true, 1025)), CachePlan::SendCached);
    assert_eq!(plan_from_cache(record(true, 1024)), CachePlan::PurgeAndTransfer);
    assert_eq!(plan_from_cache(record(true, 0)), CachePlan::PurgeAndTransfer);
    assert_eq!(plan_from_cache(record(true, -5)), CachePlan::PurgeAndTransfer);
    assert_eq!(plan_from_cache(record(false, 5000)), CachePlan::Transfer);
    assert_eq!(plan_from_cache(record(false, 0)), CachePlan::Transfer);
}

#[test]
fn bitrates_come_from_size_and_length() {
    assert_eq!(actual_bitrate(30_000_000, 250, 1_411_000), 960_000);
    assert_eq!(actual_bitrate(1000, 3, 0), 2666);
    assert_eq!(actual_bitrate(30_000_000, 0, 1_411_000), 1_411_000);
    assert_eq!(actual_bitrate(0, 10, 5), 0);
    assert_eq!(actual_bitrate(u64::MAX, 1, 5), u64::MAX);
    assert_eq!(actual_bitrate(u64::MAX, 8, 5), u64::MAX);
    assert_eq!(actual_bitrate(u64::MAX, 16, 5), u64::MAX / 2);
}

#[test]
fn the_upload_transport_is_rebuilt_after_its_limit() {
    let mut state = UploadClientState::new();
    assert_eq!(state, UploadClientState { has_client: false, reuse_count: 0 });
    let rebuilds: Vec<bool> = (0..8).map(|_| state.checkout(3)).collect();
    assert_eq!(rebuilds, vec![true, false, false, true, false, false, true, false]);
    assert_eq!(state, UploadClientState { has_client: true, reuse_count: 2 });
}

#[test]
fn a_limit_of_zero_rebuilds_every_time() {
    let mut state = UploadClientState::new();
    for _ in 0..4 {
        assert!(state.checkout(0));
        assert_eq!(state.reuse_count, 1);
    }
    let mut one = UploadClientState::new();
    for _ in 0..4 {
        assert!(one.checkout(1));
        assert_eq!(one.reuse_count, 1);
    }
}

#[test]
fn the_use_count_saturates() {
    let mut state = UploadClientState { has_client: true, reuse_count: u32::MAX - 1 };
    assert!(!state.checkout(u32::MAX));
    assert_eq!(state.reuse_count, u32::MAX);
    assert!(state.checkout(u32::MAX));
    assert_eq!(state.reuse_count, 1);
}

#[test]
fn a_transfer_walks_through_its_stages() {
    assert_eq!(step(TransferState::Queued, TransferEvent::SlotGranted), TransferState::Downloading);
    assert_eq!(step(TransferState::Downloading, TransferEvent::DownloadFinished), TransferState::Tagging);
    assert_eq!(step(TransferState::Downloading, TransferEvent::DownloadFailed), TransferState::Failed);
    assert_eq!(step(TransferState::Tagging, TransferEvent::Tagged), TransferState::Uploading);
    assert_eq!(step(TransferState::Uploading, TransferEvent::Uploaded), TransferState::Completed);
    assert_eq!(step(TransferState::Uploading, TransferEvent::UploadFailed), TransferState::Failed);
    // Events out of turn change nothing.
    assert_eq!(step(TransferState::Queued, TransferEvent::Uploaded), TransferState::Queued);
    assert_eq!(step(TransferState::Downloading, TransferEvent::SlotGranted), TransferState::Downloading);
    assert_eq!(step(TransferState::Tagging, TransferEvent::DownloadFailed), TransferState::Tagging);
    assert_eq!(step(TransferState::Completed, TransferEvent::SlotGranted), TransferState::Completed);
    assert_eq!(step(TransferState::Failed, TransferEvent::Tagged), TransferState::Failed);
    assert!(!holds(TransferState::Queued));
    assert!(holds(TransferState::Downloading) && holds(TransferState::Tagging) && holds(TransferState::Uploading));
    assert!(!holds(TransferState::Completed) && !holds(TransferState::Failed));
}

#[test]
fn no_more_transfers_download_than_the_limit_allows() {
    let mut board = TransferBoard::new(2);
    let ids: Vec<usize> = (0..4).map(|_| board.enqueue()).collect();
    assert_eq!(ids, vec![0, 1, 2, 3]);
    assert_eq!(board.slots_in_use(), 0);
    assert_eq!(board.handle(0, TransferEvent::SlotGranted), Some(TransferState::Downloading));
    assert_eq!(board.handle(1, TransferEvent::SlotGranted), Some(TransferState::Downloading));
    // The limit is reached: the third transfer keeps waiting.
    assert_eq!(board.handle(2, TransferEvent::SlotGranted), Some(TransferState::Queued));
    assert_eq!(board.slots_in_use(), 2);
    assert_eq!(board.handle(0, TransferEvent::DownloadFinished), Some(TransferState::Tagging));
    assert_eq!(board.handle(2, TransferEvent::SlotGranted), Some(TransferState::Queued));
    assert_eq!(board.handle(0, TransferEvent::Tagged), Some(TransferState::Uploading));
    assert_eq!(board.handle(2, TransferEvent::SlotGranted), Some(TransferState::Queued));
    assert_eq!(board.slots_in_use(), 2);
    // Only an end frees the slot, a failure as well as a success.
    assert_eq!(board.handle(1, TransferEvent::DownloadFailed), Some(TransferState::Failed));
    assert_eq!(board.slots_in_use(), 1);
    assert_eq!(board.handle(2, TransferEvent::SlotGranted), Some(TransferState::Downloading));
    assert_eq!(board.handle(3, TransferEvent::SlotGranted), Some(TransferState::Queued));
    assert_eq!(board.handle(0, TransferEvent::Uploaded), Some(TransferState::Completed));
    assert_eq!(board.handle(3, TransferEvent::SlotGranted), Some(TransferState::Downloading));
    assert_eq!(board.slots_in_use(), 2);
    assert_eq!(board.state(0), Some(TransferState::Completed));
    assert_eq!(board.state(1), Some(TransferState::Failed));
    assert_eq!(board.state(2), Some(TransferState::Downloading));
    assert_eq!(board.state(4), None);
    assert_eq!(board.handle(9, TransferEvent::SlotGranted), None);
    assert_eq!(board.slots_in_use(), 2);
}

#[test]
fn the_numbers_of_ended_transfers_are_given_out_again() {
    let mut board = TransferBoard::new(1);
    assert_eq!(board.enqueue(), 0);
    assert_eq!(board.enqueue(), 1);
    assert_eq!(board.enqueue(), 2);
    board.handle(1, TransferEvent::SlotGranted);
    board.handle(1, TransferEvent::DownloadFailed);
    assert_eq!(board.state(1), Some(TransferState::Failed));
    assert_eq!(board.slots_in_use(), 0);
    // The first ended transfer makes room for the next one.
    assert_eq!(board.enqueue(), 1);
    assert_eq!(board.state(1), Some(TransferState::Queued));
    assert_eq!(board.enqueue(), 3);
    for round in 0..100 {
        assert_eq!(board.handle(0, TransferEvent::SlotGranted), Some(TransferState::Downloading));
        assert_eq!(board.handle(0, TransferEvent::DownloadFinished), Some(TransferState::Tagging));
        assert_eq!(board.handle(0, TransferEvent::Tagged), Some(TransferState::Uploading));
        let end = if round % 2 == 0 { TransferEvent::Uploaded } else { TransferEvent::UploadFailed };
        board.handle(0, end);
        assert_eq!(board.slots_in_use(), 0);
        assert_eq!(board.enqueue(), 0);
    }
    assert_eq!(board.state(4), None);
}

#[test]
fn a_board_without_slots_starts_nothing() {
    let mut board = TransferBoard::new(0);
    let id = board.enqueue();
    assert_eq!(board.handle(id, TransferEvent::SlotGranted), Some(TransferState::Queued));
    assert_eq!(board.slots_in_use(), 0);
}
