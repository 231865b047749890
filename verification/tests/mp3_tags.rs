use id3::TagLike;
use music163bot::audio_buffer::{AudioBuffer, Tagging};
use music163bot::error::{FormatError, TagError};
use music163bot::mp3::{
    embed_id3, find_mp3_audio_start, id3_size_within_limit, splice_id3, syncsafe_size,
};
use music163bot::tags::{FrontCover, Id3Fields, TagPayload};
use std::io::Cursor;

fn payload() -> TagPayload {
    TagPayload {
        title: "夜曲".to_string(),
        album: Some("十一月的萧邦".to_string()),
        artist: "周杰伦/Someone".to_string(),
        duration_ms: Some(226_500),
    }
}

fn memory_buffer(bytes: &[u8]) -> AudioBuffer {
    AudioBuffer::Memory { data: bytes.to_vec(), filename: "a.mp3".to_string(), capacity: bytes.len() }
}

fn bytes_of(buffer: &AudioBuffer) -> Vec<u8> {
    match buffer {
        AudioBuffer::Memory { data, .. } => data.clone(),
        AudioBuffer::Disk { .. } => panic!("expected a buffer in memory"),
    }
}

fn header_with_size(size: [u8; 4]) -> Vec<u8> {
    let mut data = b"ID3".to_vec();
    data.extend_from_slice(&[0x04, 0x00, 0x00]);
    data.extend_from_slice(&size);
    data
}

#[test]
fn test_find_mp3_audio_start() {
    // ID3v2 header with size 0
    let mut mp3_data = b"ID3".to_vec();
    mp3_data.extend_from_slice(&[0x04, 0x00]); // Version 2.4.0
    mp3_data.push(0x00); // Flags
    mp3_data.extend_from_slice(&[0x00, 0x00, 0x00, 0x00]); // Size = 0 (syncsafe)
    mp3_data.extend_from_slice(b"\xFF\xFB"); // MP3 sync word

    let result = find_mp3_audio_start(&mp3_data);
    assert_eq!(result, 10); // 10 byte header
}

#[test]
fn syncsafe_sizes_are_decoded() {
    assert_eq!(find_mp3_audio_start(&header_with_size([0, 0, 0, 0])), 10);
    assert_eq!(find_mp3_audio_start(&header_with_size([0, 0, 2, 1])), 267);
    assert_eq!(syncsafe_size(0, 0, 2, 1), 257);
    assert_eq!(syncsafe_size(0x7F, 0x7F, 0x7F, 0x7F), 0x0FFF_FFFF);
    assert_eq!(syncsafe_size(1, 0, 0, 0), 1 << 21);
    assert_eq!(syncsafe_size(0, 1, 0, 0), 1 << 14);
    // The high bit of each byte carries no value.
    assert_eq!(syncsafe_size(0x80, 0x80, 0x82, 0x81), 257);
    assert_eq!(syncsafe_size(0xFF, 0xFF, 0xFF, 0xFF), 0x0FFF_FFFF);
}

#[test]
fn audio_starts_at_zero_without_a_whole_header() {
    assert_eq!(find_mp3_audio_start(&[]), 0);
    assert_eq!(find_mp3_audio_start(b"ID3"), 0);
    assert_eq!(find_mp3_audio_start(b"ID3\x04\x00\x00\x00\x00\x00"), 0);
    assert_eq!(find_mp3_audio_start(b"\xFF\xFB\x90\x00 some audio that is long"), 0);
    assert_eq!(find_mp3_audio_start(b"id3\x04\x00\x00\x00\x00\x00\x00rest"), 0);
}

#[test]
fn embedding_round_trips_through_the_parser() {
    let audio: Vec<u8> = b"\xFF\xFB\x90\x00 pretend audio frames".to_vec();
    let mut buffer = memory_buffer(&audio);
    let result = buffer.add_id3_tags(&payload(), None);
    assert_eq!(result, Ok(Tagging::Embedded));
    let bytes = bytes_of(&buffer);
    assert_ne!(bytes, audio);

    let tag = id3::Tag::read_from2(Cursor::new(&bytes)).unwrap();
    assert_eq!(tag.title(), Some("夜曲"));
    assert_eq!(tag.album(), Some("十一月的萧邦"));
    assert_eq!(tag.artist(), Some("周杰伦/Someone"));
    assert_eq!(tag.duration(), Some(226));
    assert_eq!(tag.pictures().count(), 0);

    let start = find_mp3_audio_start(&bytes);
    let declared = syncsafe_size(bytes[6], bytes[7], bytes[8], bytes[9]) as usize;
    assert_eq!(start, 10 + declared);
    assert_eq!(start, bytes.len() - audio.len());
    assert_eq!(&bytes[start..], &audio[..]);
    assert_eq!(&bytes[..3], b"ID3");
    assert_eq!(bytes[3], 4);
}

#[test]
fn missing_album_gets_the_placeholder() {
    let tags = TagPayload {
        title: "t".to_string(),
        album: None,
        artist: "a".to_string(),
        duration_ms: None,
    };
    assert_eq!(tags.album_name(), "Unknown Album");
    assert_eq!(tags.duration_secs(), 0);
    let mut buffer = memory_buffer(b"\xFF\xFBaudio");
    assert_eq!(buffer.add_id3_tags(&tags, None), Ok(Tagging::Embedded));
    let tag = id3::Tag::read_from2(Cursor::new(bytes_of(&buffer))).unwrap();
    assert_eq!(tag.album(), Some("Unknown Album"));
    assert_eq!(tag.duration(), Some(0));
}

#[test]
fn durations_are_whole_seconds_in_32_bits() {
    let mut tags = payload();
    tags.duration_ms = Some(999);
    assert_eq!(tags.duration_secs(), 0);
    tags.duration_ms = Some(1000);
    assert_eq!(tags.duration_secs(), 1);
    tags.duration_ms = Some(4_294_967_295_999);
    assert_eq!(tags.duration_secs(), 4_294_967_295);
    tags.duration_ms = Some(4_294_967_296_000);
    assert_eq!(tags.duration_secs(), 0);
    tags.duration_ms = Some(u64::MAX);
    assert_eq!(tags.duration_secs(), ((u64::MAX / 1000) % (1 << 32)) as u32);
}

#[test]
fn the_cover_is_embedded_as_a_front_cover() {
    let art = vec![0xFF, 0xD8, 0xFF, 0xE0, 1, 2, 3, 4];
    let fields = payload().id3_fields(Some(&art));
    let cover = fields.cover.as_ref().unwrap();
    assert_eq!(cover.mime_type, "image/jpeg");
    assert_eq!(cover.description, "Album Cover");
    assert_eq!(cover.data, art);
    assert_eq!(fields.title, "夜曲");
    assert_eq!(fields.duration_secs, 226);

    let mut buffer = memory_buffer(b"\xFF\xFBaudio");
    assert_eq!(buffer.add_id3_tags(&payload(), Some(&art)), Ok(Tagging::Embedded));
    let tag = id3::Tag::read_from2(Cursor::new(bytes_of(&buffer))).unwrap();
    let pictures: Vec<_> = tag.pictures().collect();
    assert_eq!(pictures.len(), 1);
    assert_eq!(pictures[0].picture_type, id3::frame::PictureType::CoverFront);
    assert_eq!(pictures[0].mime_type, "image/jpeg");
    assert_eq!(pictures[0].description, "Album Cover");
    assert_eq!(pictures[0].data, art);
}

#[test]
fn tagging_twice_leaves_one_tag_and_one_cover() {
    let audio: Vec<u8> = b"\xFF\xFB\x90\x00 pretend audio frames".to_vec();
    let first_art = vec![1u8; 40];
    let second_art = vec![2u8; 30];

    let mut twice = memory_buffer(&audio);
    assert_eq!(twice.add_id3_tags(&payload(), Some(&first_art)), Ok(Tagging::Embedded));
    let mut other = payload();
    other.title = "second".to_string();
    assert_eq!(twice.add_id3_tags(&other, Some(&second_art)), Ok(Tagging::Embedded));

    let mut once = memory_buffer(&audio);
    assert_eq!(once.add_id3_tags(&other, Some(&second_art)), Ok(Tagging::Embedded));
    assert_eq!(bytes_of(&twice), bytes_of(&once));

    let bytes = bytes_of(&twice);
    let tag = id3::Tag::read_from2(Cursor::new(&bytes)).unwrap();
    assert_eq!(tag.title(), Some("second"));
    let pictures: Vec<_> = tag.pictures().collect();
    assert_eq!(pictures.len(), 1);
    assert_eq!(pictures[0].data, second_art);
    let start = find_mp3_audio_start(&bytes);
    assert_eq!(&bytes[start..], &audio[..]);
}

#[test]
fn an_existing_tag_is_replaced() {
    let mut data = header_with_size([0, 0, 0, 5]);
    data.extend_from_slice(&[0, 0, 0, 0, 0]);
    data.extend_from_slice(b"\xFF\xFBaudio");
    let mut spliced = data.clone();
    assert_eq!(splice_id3(&mut spliced, b"NEWTAG"), Ok(()));
    assert_eq!(spliced, b"NEWTAG\xFF\xFBaudio".to_vec());
    assert_eq!(spliced.capacity(), spliced.len());
}

#[test]
fn a_buffer_without_a_tag_is_prefixed() {
    let mut data = b"\xFF\xFBaudio".to_vec();
    assert_eq!(splice_id3(&mut data, b"TAG"), Ok(()));
    assert_eq!(data, b"TAG\xFF\xFBaudio".to_vec());
    let mut short = b"ID3ab".to_vec();
    assert_eq!(splice_id3(&mut short, b"TAG"), Ok(()));
    assert_eq!(short, b"TAGID3ab".to_vec());
}

#[test]
fn a_header_that_promises_too_much_is_truncated() {
    let mut data = header_with_size([0, 0, 0, 9]);
    data.extend_from_slice(b"12345678");
    let before = data.clone();
    assert_eq!(splice_id3(&mut data, b"TAG"), Err(TagError::Format(FormatError::Truncated)));
    assert_eq!(data, before);

    let fields = payload().id3_fields(None);
    assert_eq!(embed_id3(&mut data, &fields), Err(TagError::Format(FormatError::Truncated)));
    assert_eq!(data, before);

    let mut buffer = memory_buffer(&before);
    assert_eq!(
        buffer.add_id3_tags(&payload(), None),
        Err(TagError::Format(FormatError::Truncated))
    );
    assert_eq!(bytes_of(&buffer), before);

    // A tag that ends exactly at the end of the buffer is whole.
    let mut exact = header_with_size([0, 0, 0, 8]);
    exact.extend_from_slice(b"12345678");
    assert_eq!(splice_id3(&mut exact, b"TAG"), Ok(()));
    assert_eq!(exact, b"TAG".to_vec());
}

#[test]
fn frames_beyond_the_size_field_are_too_large() {
    let small = Id3Fields {
        title: "t".to_string(),
        album: "a".to_string(),
        artist: "r".to_string(),
        duration_secs: 1,
        cover: None,
    };
    assert!(id3_size_within_limit(&small));
    let limit = 0x1000_0000usize;
    let mut large = small.clone();
    large.cover = Some(FrontCover {
        mime_type: "image/jpeg".to_string(),
        description: "Album Cover".to_string(),
        data: vec![0u8; limit - 128 - 3 - 10 - 11],
    });
    assert!(!id3_size_within_limit(&large));
    let mut data = b"\xFF\xFBaudio".to_vec();
    assert_eq!(embed_id3(&mut data, &large), Err(TagError::TooLarge));
    assert_eq!(data, b"\xFF\xFBaudio".to_vec());
    large.cover.as_mut().unwrap().data.pop();
    assert!(id3_size_within_limit(&large));
}

#[test]
fn a_buffer_on_disk_is_left_to_the_caller() {
    let mut buffer = AudioBuffer::new_disk("a.mp3".to_string(), "/cache");
    assert_eq!(buffer.add_id3_tags(&payload(), None), Ok(Tagging::LeftToFile));
    assert_eq!(buffer.add_flac_metadata(&payload(), None), Ok(Tagging::LeftToFile));
    assert!(!buffer.is_memory());
}

#[test]
fn a_buffer_with_an_old_tag_is_retagged_with_success() {
    let audio = [0xFFu8, 0xFB, 0x41, 0x42, 0x43];
    let mut data = header_with_size([0, 0, 2, 1]);
    data.extend_from_slice(&[0u8; 257]);
    data.extend_from_slice(&audio);
    let tags = TagPayload { title: "T".to_string(), album: None, artist: String::new(), duration_ms: None };
    let mut buffer = memory_buffer(&data);
    assert_eq!(buffer.add_id3_tags(&tags, None), Ok(Tagging::Embedded));
    let bytes = bytes_of(&buffer);
    let start = find_mp3_audio_start(&bytes);
    assert_eq!(bytes.len(), start + 5);
    assert_eq!(&bytes[start..], &audio[..]);
    assert_eq!(start, 10 + syncsafe_size(bytes[6], bytes[7], bytes[8], bytes[9]) as usize);
    // The 267 bytes of the old tag are gone.
    assert!(bytes.len() < 267);
}

#[test]
fn tagging_succeeds_on_every_whole_buffer() {
    let samples: [&[u8]; 5] = [b"", b"I", b"ID3", b"ID3\x04\x00\x00\x00\x00\x00\x00", b"\xFF\xFBaudio"];
    for sample in samples {
        let mut data = sample.to_vec();
        assert_eq!(embed_id3(&mut data, &payload().id3_fields(None)), Ok(()));
        let start = find_mp3_audio_start(&data);
        let old_start = find_mp3_audio_start(sample);
        assert_eq!(&data[start..], &sample[old_start..]);
    }
}
