use music163bot::config::{Config, CoverMode, StorageMode};

#[test]
fn download_pool_defaults_are_tunable() {
    let config = Config::default();
    assert!(config.download_pool_max_idle_per_host > 0);
    assert!(config.download_connect_timeout_secs > 0);
}

#[test]
fn download_chunk_size_has_default() {
    let config = Config::default();
    assert!(config.download_chunk_size_kb >= 64);
}

#[test]
fn memory_max_file_has_default() {
    let config = Config::default();
    assert_eq!(config.memory_max_file_mb, 100);
}

#[test]
fn upload_client_reuse_has_default() {
    let config = Config::default();
    assert!(config.upload_client_reuse_requests > 0);
    assert!(config.upload_timeout_secs > 0);
}

#[test]
fn maintenance_interval_defaults_exist() {
    let config = Config::default();
    assert!(config.memory_release_interval_requests >= 1);
    assert!(config.db_analyze_interval_requests >= 1);
}

#[test]
fn default_cover_mode_is_thumbnail() {
    let config = Config::default();
    assert_eq!(config.cover_mode, CoverMode::Thumbnail);
}

#[test]
fn defaults_hold_the_documented_values() {
    let config = Config::default();
    assert_eq!(config.bot_token, "");
    assert_eq!(config.music_u, None);
    assert_eq!(config.bot_api, "https://api.telegram.org");
    assert_eq!(config.music_api, "https://music.163.com");
    assert!(config.bot_admin.is_empty());
    assert_eq!(config.database, "cache.db");
    assert_eq!(config.log_level, "info");
    assert_eq!(config.cache_dir, "./cache");
    assert_eq!(config.max_retry_times, 3);
    assert_eq!(config.download_timeout, 60);
    assert_eq!(config.storage_mode, StorageMode::Disk);
    assert_eq!(config.memory_threshold_mb, 100);
    assert_eq!(config.memory_buffer_mb, 100);
    assert_eq!(config.max_concurrent_downloads, 3);
    assert_eq!(config.download_pool_max_idle_per_host, 2);
    assert_eq!(config.download_connect_timeout_secs, 10);
    assert_eq!(config.download_chunk_size_kb, 256);
    assert_eq!(config.upload_client_reuse_requests, 50);
    assert_eq!(config.upload_timeout_secs, 300);
    assert_eq!(config.memory_release_interval_requests, 10);
    assert_eq!(config.db_analyze_interval_requests, 20);
    assert_eq!(StorageMode::default(), StorageMode::Disk);
    assert_eq!(CoverMode::default(), CoverMode::Thumbnail);
}
