//! Tunables of the staging pipeline.

use vstd::prelude::*;

verus! {

/// Where the bytes of a transfer are staged while it is processed.
#[derive(Debug, Clone, Copy, PartialEq, Eq, Structural)]
pub enum StorageMode {
    /// Always a file in the cache directory.
    Disk,
    /// A byte buffer, as long as enough memory is available.
    Memory,
    /// Chosen per transfer from the file size and the available memory.
    Hybrid,
}

/// Which cover images are fetched for a transfer.
#[derive(Debug, Clone, Copy, PartialEq, Eq, Structural)]
pub enum CoverMode {
    /// Only the small image shown beside the upload.
    Thumbnail,
    /// Only the original image, which is embedded in the file.
    Original,
    /// Both images.
    Both,
}

impl Default for CoverMode {
    fn default() -> (mode: Self)
        ensures
            mode == CoverMode::Thumbnail,
    {
        CoverMode::Thumbnail
    }
}

impl Default for StorageMode {
    fn default() -> (mode: Self)
        ensures
            mode == StorageMode::Disk,
    {
        StorageMode::Disk
    }
}

/// The settings of one running instance.
#[derive(Debug, Clone)]
pub struct Config {
    pub bot_token: String,
    pub music_u: Option<String>,
    pub bot_api: String,
    pub music_api: String,
    pub bot_admin: Vec<i64>,
    pub bot_debug: bool,
    pub database: String,
    pub log_level: String,
    pub cache_dir: String,
    pub auto_update: bool,
    pub auto_retry: bool,
    pub max_retry_times: u32,
    pub download_timeout: u64,
    pub check_md5: bool,
    /// Where transfers are staged.
    pub storage_mode: StorageMode,
    /// In hybrid mode, files of more MiB than this go to disk.
    pub memory_threshold_mb: u64,
    /// MiB that must stay available beside a file staged in memory.
    pub memory_buffer_mb: u64,
    /// Largest file, in MiB, that may be staged in memory.
    pub memory_max_file_mb: u64,
    /// How many transfers may download at once.
    pub max_concurrent_downloads: u32,
    pub download_pool_max_idle_per_host: usize,
    pub download_connect_timeout_secs: u64,
    /// Size, in KiB, of the scratch buffer between the network and the staging buffer.
    pub download_chunk_size_kb: usize,
    pub cover_mode: CoverMode,
    /// Uploads after which the upload transport is rebuilt.
    pub upload_client_reuse_requests: u32,
    pub upload_timeout_secs: u64,
    /// Every this many transfers the allocator is asked to release memory; 0 turns it off.
    pub memory_release_interval_requests: u32,
    /// Every this many transfers the cache statistics are refreshed; 0 turns it off.
    pub db_analyze_interval_requests: u32,
}

impl Default for Config {
    fn default() -> (config: Self)
        ensures
            config.bot_token@ == Seq::<char>::empty(),
            config.music_u is None,
            config.bot_api@ == "https://api.telegram.org"@,
            config.music_api@ == "https://music.163.com"@,
            config.bot_admin@ == Seq::<i64>::empty(),
            !config.bot_debug,
            config.database@ == "cache.db"@,
            config.log_level@ == "info"@,
            config.cache_dir@ == "./cache"@,
            config.auto_update,
            config.auto_retry,
            config.max_retry_times == 3,
            config.download_timeout == 60,
            config.check_md5,
            config.storage_mode == StorageMode::Disk,
            config.memory_threshold_mb == 100,
            config.memory_buffer_mb == 100,
            config.memory_max_file_mb == 100,
            config.max_concurrent_downloads == 3,
            config.download_pool_max_idle_per_host == 2,
            config.download_connect_timeout_secs == 10,
            config.download_chunk_size_kb == 256,
            config.cover_mode == CoverMode::Thumbnail,
            config.upload_client_reuse_requests == 50,
            config.upload_timeout_secs == 300,
            config.memory_release_interval_requests == 10,
            config.db_analyze_interval_requests == 20,
    {
        Config {
            bot_token: String::new(),
            music_u: None,
            bot_api: "https://api.telegram.org".to_owned(),
            music_api: "https://music.163.com".to_owned(),
            bot_admin: Vec::new(),
            bot_debug: false,
            database: "cache.db".to_owned(),
            log_level: "info".to_owned(),
            cache_dir: "./cache".to_owned(),
            auto_update: true,
            auto_retry: true,
            max_retry_times: 3,
            download_timeout: 60,
            check_md5: true,
            storage_mode: StorageMode::Disk,
            memory_threshold_mb: 100,
            memory_buffer_mb: 100,
            memory_max_file_mb: 100,
            max_concurrent_downloads: 3,
            download_pool_max_idle_per_host: 2,
            download_connect_timeout_secs: 10,
            download_chunk_size_kb: 256,
            cover_mode: CoverMode::Thumbnail,
            upload_client_reuse_requests: 50,
            upload_timeout_secs: 300,
            memory_release_interval_requests: 10,
            db_analyze_interval_requests: 20,
        }
    }
}

} // verus!
