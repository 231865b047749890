use music163bot::audio_buffer::{AudioBuffer, DiskPath, ThumbnailBuffer, UploadPayload};
use music163bot::config::{Config, StorageMode};
use music163bot::scratch::DownloadScratch;

fn memory_buffer() -> AudioBuffer {
    let mut config = Config::default();
    config.storage_mode = StorageMode::Memory;
    AudioBuffer::new(&config, 64, "track.mp3".to_string(), "mp3", "/cache", 4096)
}

fn payload(len: usize) -> Vec<u8> {
    (0..len).map(|i| (i * 7 % 251) as u8).collect()
}

fn write_split(bytes: &[u8], sizes: &[usize]) -> AudioBuffer {
    let mut buffer = memory_buffer();
    let mut at = 0;
    for size in sizes {
        assert!(buffer.write_chunk(&bytes[at..at + size]));
        at += size;
    }
    assert!(buffer.write_chunk(&bytes[at..]));
    assert!(!buffer.finish());
    buffer
}

#[test]
fn size_is_the_sum_of_the_chunks_however_they_are_split() {
    let bytes = payload(1000);
    let splits: [&[usize]; 5] = [&[], &[1000], &[1, 1, 1], &[0, 500, 0, 499], &[333, 333, 333]];
    for split in splits {
        let buffer = write_split(&bytes, split);
        assert_eq!(buffer.size(None), 1000);
        assert_eq!(buffer.size(Some(5)), 1000);
        assert_eq!(buffer.get_data(), Some(bytes.clone()));
    }
}

#[test]
fn a_buffer_on_disk_hands_its_chunks_back() {
    let mut buffer = AudioBuffer::new_disk("track.mp3".to_string(), "/cache");
    assert!(!buffer.is_memory());
    assert!(!buffer.write_chunk(&[1, 2, 3]));
    assert!(buffer.finish());
    assert_eq!(buffer.size(Some(3)), 3);
    assert_eq!(buffer.size(None), 0);
    assert_eq!(buffer.get_data(), None);
    assert_eq!(buffer.filename(), "track.mp3");
    let path = buffer.path().unwrap();
    assert_eq!(path.dir, "/cache");
    assert_eq!(path.file_name, "track.mp3");
}

#[test]
fn disk_mode_stages_on_disk() {
    let config = Config::default();
    let buffer = AudioBuffer::new(&config, 64, "track.flac".to_string(), "flac", "./cache", u64::MAX);
    match &buffer {
        AudioBuffer::Disk { path, filename } => {
            assert_eq!(path.dir, "./cache");
            assert_eq!(path.file_name, "track.flac");
            assert_eq!(filename, "track.flac");
        }
        AudioBuffer::Memory { .. } => panic!("expected a buffer on disk"),
    }
}

#[test]
fn a_buffer_in_memory_has_a_name_and_no_path() {
    let buffer = memory_buffer();
    assert!(buffer.is_memory());
    assert_eq!(buffer.filename(), "track.mp3");
    assert!(buffer.path().is_none());
    assert_eq!(buffer.size(Some(99)), 0);
}

#[test]
fn the_upload_takes_the_bytes_or_the_file() {
    let mut buffer = memory_buffer();
    buffer.write_chunk(&[5, 6, 7]);
    match buffer.to_input_file() {
        UploadPayload::Memory { data, file_name } => {
            assert_eq!(data, vec![5, 6, 7]);
            assert_eq!(file_name, "track.mp3");
        }
        UploadPayload::File { .. } => panic!("expected bytes"),
    }
    assert_eq!(buffer.size(None), 3);
    match buffer.into_input_file() {
        UploadPayload::Memory { data, file_name } => {
            assert_eq!(data, vec![5, 6, 7]);
            assert_eq!(file_name, "track.mp3");
        }
        UploadPayload::File { .. } => panic!("expected bytes"),
    }
    let disk = AudioBuffer::new_disk("d.mp3".to_string(), "/c");
    match disk.to_input_file() {
        UploadPayload::File { path } => assert_eq!((path.dir.as_str(), path.file_name.as_str()), ("/c", "d.mp3")),
        UploadPayload::Memory { .. } => panic!("expected a file"),
    }
    match disk.into_input_file() {
        UploadPayload::File { path } => assert_eq!((path.dir.as_str(), path.file_name.as_str()), ("/c", "d.mp3")),
        UploadPayload::Memory { .. } => panic!("expected a file"),
    }
}

#[test]
fn cleanup_names_the_file_and_touches_nothing() {
    // The file was never created: giving the buffer up is still in order.
    let disk = AudioBuffer::new_disk("gone.mp3".to_string(), "/no/such/dir");
    let file = disk.cleanup().unwrap();
    assert_eq!(file.dir, "/no/such/dir");
    assert_eq!(file.file_name, "gone.mp3");
    assert!(memory_buffer().cleanup().is_none());
    let thumb = ThumbnailBuffer::from_path(DiskPath { dir: "/no".to_string(), file_name: "t.jpg".to_string() });
    assert_eq!(thumb.cleanup().unwrap().file_name, "t.jpg");
    assert!(ThumbnailBuffer::from_memory(vec![1]).cleanup().is_none());
}

#[test]
fn thumbnails_stay_in_memory_when_small() {
    let mut config = Config::default();
    config.storage_mode = StorageMode::Hybrid;
    let (buffer, to_write) = ThumbnailBuffer::new(&config, vec![1, 2, 3], "/cache", "t.jpg");
    assert!(buffer.is_memory());
    assert!(to_write.is_none());
    assert!(buffer.path().is_none());
    assert_eq!(buffer.get_data(), Some(vec![1, 2, 3]));
    match buffer.to_input_file() {
        UploadPayload::Memory { data, file_name } => {
            assert_eq!(data, vec![1, 2, 3]);
            assert_eq!(file_name, "thumb.jpg");
        }
        UploadPayload::File { .. } => panic!("expected bytes"),
    }
    match buffer.into_input_file() {
        UploadPayload::Memory { data, file_name } => {
            assert_eq!(data, vec![1, 2, 3]);
            assert_eq!(file_name, "thumb.jpg");
        }
        UploadPayload::File { .. } => panic!("expected bytes"),
    }
    config.storage_mode = StorageMode::Memory;
    let just_under = vec![0u8; 5 * 1024 * 1024 - 1];
    assert!(ThumbnailBuffer::new(&config, just_under, "/cache", "t.jpg").0.is_memory());
}

#[test]
fn thumbnails_go_to_disk_in_disk_mode_or_when_large() {
    let config = Config::default();
    let (buffer, to_write) = ThumbnailBuffer::new(&config, vec![1, 2, 3], "/cache", "t.jpg");
    assert!(!buffer.is_memory());
    assert_eq!(to_write, Some(vec![1, 2, 3]));
    assert_eq!(buffer.get_data(), None);
    let path = buffer.path().unwrap();
    assert_eq!((path.dir.as_str(), path.file_name.as_str()), ("/cache", "t.jpg"));
    match buffer.to_input_file() {
        UploadPayload::File { path } => assert_eq!(path.file_name, "t.jpg"),
        UploadPayload::Memory { .. } => panic!("expected a file"),
    }
    let mut hybrid = Config::default();
    hybrid.storage_mode = StorageMode::Hybrid;
    let large = vec![0u8; 5 * 1024 * 1024];
    let (buffer, to_write) = ThumbnailBuffer::new(&hybrid, large, "/cache", "big.jpg");
    assert!(!buffer.is_memory());
    assert_eq!(to_write.unwrap().len(), 5 * 1024 * 1024);
}

#[test]
fn thumbnails_are_made_from_paths_and_bytes() {
    let path = DiskPath { dir: "/cache".to_string(), file_name: "x.jpg".to_string() };
    let on_disk = ThumbnailBuffer::from_path(path);
    assert!(!on_disk.is_memory());
    assert_eq!(on_disk.path().unwrap().file_name, "x.jpg");
    let in_memory = ThumbnailBuffer::from_memory(vec![4, 2]);
    assert!(in_memory.is_memory());
    assert!(in_memory.path().is_none());
    assert_eq!(in_memory.get_data(), Some(vec![4, 2]));
}

#[test]
fn the_scratch_size_comes_from_the_configuration() {
    assert_eq!(DownloadScratch::new(256).chunk_size, 256 * 1024);
    assert_eq!(DownloadScratch::new(0).chunk_size, 0);
    assert_eq!(DownloadScratch::new(usize::MAX).chunk_size, usize::MAX);
    assert_eq!(DownloadScratch::new(usize::MAX / 1024).chunk_size, usize::MAX / 1024 * 1024);
    let scratch = DownloadScratch::new(1);
    assert!(scratch.buffer.is_empty());
    assert_eq!(scratch.downloaded, 0);
}

#[test]
fn small_chunks_are_gathered() {
    let mut scratch = DownloadScratch::new(1);
    assert!(scratch.push(&[1u8; 400]).is_empty());
    assert!(scratch.push(&[2u8; 624]).is_empty());
    assert_eq!(scratch.buffer.len(), 1024);
    assert_eq!(scratch.downloaded, 1024);
    // One byte more than fits: what waits is written, the chunk waits.
    let writes = scratch.push(&[3u8; 1]);
    assert_eq!(writes.len(), 1);
    assert_eq!(writes[0].len(), 1024);
    assert_eq!(&writes[0][..400], &[1u8; 400][..]);
    assert_eq!(&writes[0][400..], &[2u8; 624][..]);
    assert_eq!(scratch.buffer, vec![3u8]);
    assert_eq!(scratch.downloaded, 1025);
    assert_eq!(scratch.finish(), Some(vec![3u8]));
    assert_eq!(scratch.finish(), None);
    assert_eq!(scratch.downloaded, 1025);
}

#[test]
fn large_chunks_are_written_at_once() {
    let mut scratch = DownloadScratch::new(1);
    assert!(scratch.push(&[1u8; 10]).is_empty());
    let writes = scratch.push(&[2u8; 1024]);
    assert_eq!(writes, vec![vec![1u8; 10], vec![2u8; 1024]]);
    assert!(scratch.buffer.is_empty());
    // A chunk of exactly the scratch size fits while nothing waits.
    assert!(scratch.push(&[4u8; 1024]).is_empty());
    assert_eq!(scratch.buffer.len(), 1024);
    let writes = scratch.push(&[3u8; 2000]);
    assert_eq!(writes, vec![vec![4u8; 1024], vec![3u8; 2000]]);
    let writes = scratch.push(&[5u8; 2000]);
    assert_eq!(writes, vec![vec![5u8; 2000]]);
    assert_eq!(scratch.downloaded, 10 + 1024 + 1024 + 2000 + 2000);
    assert_eq!(scratch.finish(), None);
}

#[test]
fn scratch_and_buffer_keep_every_byte() {
    let bytes = payload(10_000);
    for step in [1usize, 7, 500, 1023, 1024, 1025, 4096, 10_000] {
        let mut scratch = DownloadScratch::new(1);
        let mut buffer = memory_buffer();
        let mut writes_seen = 0;
        for chunk in bytes.chunks(step) {
            for write in scratch.push(chunk) {
                assert!(buffer.write_chunk(&write));
                writes_seen += 1;
            }
        }
        if let Some(rest) = scratch.finish() {
            assert!(buffer.write_chunk(&rest));
            writes_seen += 1;
        }
        buffer.finish();
        assert_eq!(scratch.downloaded, 10_000);
        assert_eq!(buffer.size(None), 10_000);
        assert_eq!(buffer.get_data(), Some(bytes.clone()));
        assert!(writes_seen <= bytes.chunks(step).count() + 1);
    }
}

#[test]
fn the_byte_count_saturates() {
    let mut scratch = DownloadScratch { buffer: Vec::new(), chunk_size: 8, downloaded: u64::MAX - 1 };
    scratch.push(&[1, 2, 3]);
    assert_eq!(scratch.downloaded, u64::MAX);
}
