//! The settings file: sections, `key = value` lines and comments, and the
//! configuration that they give.

use vstd::prelude::*;
use vstd::string::StrSliceExecFns;
use crate::config::{Config, CoverMode, StorageMode};
use crate::text::{
    find_char, lowercase, parse_i64, parse_u32, parse_u64, parse_usize, parsed_i64, parsed_u32,
    parsed_u64, parsed_usize, position_of, same_text, to_lowercase, trim, trimmed,
};

verus! {

/// Why a settings file gives no configuration.
#[derive(Debug, Clone, Copy, PartialEq, Eq, Structural)]
pub enum ConfigError {
    /// The file names no bot token.
    MissingToken,
}

/// What one line of a settings file says.
pub enum Line {
    /// Nothing: an empty line, a comment, or a line without `=`.
    Skip,
    /// The section that the following keys belong to.
    Section(Seq<char>),
    /// A key, in lower case, and its value.
    Entry(Seq<char>, Seq<char>),
}

/// What one line of a settings file says, as it is read.
#[derive(Debug)]
pub enum ParsedLine {
    Skip,
    Section(String),
    Entry(String, String),
}

impl View for ParsedLine {
    type V = Line;

    open spec fn view(&self) -> Line {
        match *self {
            ParsedLine::Skip => Line::Skip,
            ParsedLine::Section(name) => Line::Section(name@),
            ParsedLine::Entry(key, value) => Line::Entry(key@, value@),
        }
    }
}

/// Reads one line. White space around the line, the key and the value does
/// not count. A line that begins with `#` is a comment, one in square
/// brackets names a section, and any other line with a `=` sets the key
/// before its first `=` to the value behind it.
pub open spec fn classify(line: Seq<char>) -> Line {
    let text = trimmed(line);
    if text.len() == 0 || text[0] == '#' {
        Line::Skip
    } else if text[0] == '[' && text.last() == ']' {
        Line::Section(text.subrange(1, text.len() - 1))
    } else {
        match position_of(text, '=') {
            Some(at) => Line::Entry(
                lowercase(trimmed(text.subrange(0, at))),
                trimmed(text.subrange(at + 1, text.len() as int)),
            ),
            None => Line::Skip,
        }
    }
}

/// Reads one line of a settings file.
pub fn parse_line(line: &str) -> (parsed: ParsedLine)
    ensures
        parsed@ == classify(line@),
{
    let text = trim(line);
    let len = text.unicode_len();
    if len == 0 {
        return ParsedLine::Skip;
    }
    let first = text.get_char(0);
    if first == '#' {
        return ParsedLine::Skip;
    }
    let last = text.get_char(len - 1);
    if first == '[' && last == ']' {
        return ParsedLine::Section(text.substring_char(1, len - 1).to_owned());
    }
    match find_char(text, '=') {
        Some(at) => {
            let key = to_lowercase(trim(text.substring_char(0, at)));
            let value = trim(text.substring_char(at + 1, len)).to_owned();
            ParsedLine::Entry(key, value)
        },
        None => ParsedLine::Skip,
    }
}

/// The settings read so far: the section at hand and the entries, each
/// under its full key.
pub struct Scan {
    pub section: Seq<char>,
    pub entries: Seq<(Seq<char>, Seq<char>)>,
}

/// The key of an entry with its section before it, where it stands in one.
pub open spec fn full_key(section: Seq<char>, key: Seq<char>) -> Seq<char> {
    if section.len() == 0 {
        key
    } else {
        section + seq!['.'] + key
    }
}

/// The settings after one more line.
pub open spec fn scan_line(state: Scan, line: Seq<char>) -> Scan {
    match classify(line) {
        Line::Skip => state,
        Line::Section(name) => Scan { section: name, entries: state.entries },
        Line::Entry(key, value) => Scan {
            section: state.section,
            entries: state.entries.push((full_key(state.section, key), value)),
        },
    }
}

/// The settings that the lines of a file give, read from the first line on.
pub open spec fn scanned(lines: Seq<Seq<char>>) -> Scan
    decreases lines.len(),
{
    if lines.len() == 0 {
        Scan { section: Seq::empty(), entries: Seq::empty() }
    } else {
        scan_line(scanned(lines.drop_last()), lines.last())
    }
}

/// The value of a key: that of the last entry that sets it.
pub open spec fn setting(entries: Seq<(Seq<char>, Seq<char>)>, key: Seq<char>) -> Option<
    Seq<char>,
>
    decreases entries.len(),
{
    if entries.len() == 0 {
        None
    } else if entries.last().0 == key {
        Some(entries.last().1)
    } else {
        setting(entries.drop_last(), key)
    }
}

/// The entries of a list as values.
pub open spec fn entry_views(entries: Seq<(String, String)>) -> Seq<(Seq<char>, Seq<char>)> {
    entries.map_values(|entry: (String, String)| (entry.0@, entry.1@))
}

/// The lines of a list as values.
pub open spec fn line_views(lines: Seq<String>) -> Seq<Seq<char>> {
    lines.map_values(|line: String| line@)
}

/// Reads the entries of a settings file from its lines.
pub fn read_entries(lines: &Vec<String>) -> (entries: Vec<(String, String)>)
    ensures
        entry_views(entries@) == scanned(line_views(lines@)).entries,
{
    let mut entries: Vec<(String, String)> = Vec::new();
    let mut section = String::new();
    let mut at: usize = 0;
    while at < lines.len()
        invariant
            at <= lines@.len(),
            section@ == scanned(line_views(lines@).subrange(0, at as int)).section,
            entry_views(entries@) == scanned(line_views(lines@).subrange(0, at as int)).entries,
        decreases lines@.len() - at,
    {
        proof {
            let upto = line_views(lines@).subrange(0, at + 1);
            assert(upto.drop_last() =~= line_views(lines@).subrange(0, at as int));
            assert(upto.last() == lines@[at as int]@);
        }
        match parse_line(lines[at].as_str()) {
            ParsedLine::Skip => {},
            ParsedLine::Section(name) => {
                section = name;
            },
            ParsedLine::Entry(key, value) => {
                let full = if section.as_str().unicode_len() == 0 {
                    key
                } else {
                    let mut full = section.clone();
                    crate::text::push_char(&mut full, '.');
                    vstd::string::StringExecFns::append(&mut full, key.as_str());
                    full
                };
                assert(full@ =~= full_key(section@, key@));
                let ghost before = entry_views(entries@);
                entries.push((full, value));
                assert(entry_views(entries@) =~= before.push((full@, value@)));
            },
        }
        at = at + 1;
    }
    assert(line_views(lines@).subrange(0, lines@.len() as int) =~= line_views(lines@));
    entries
}

/// Looks a key up among the entries.
pub fn lookup<'a>(entries: &'a Vec<(String, String)>, key: &str) -> (value: Option<&'a str>)
    ensures
        match setting(entry_views(entries@), key@) {
            Some(found) => value matches Some(text) && text@ == found,
            None => value is None,
        },
{
    let mut at: usize = entries.len();
    assert(entry_views(entries@).subrange(0, at as int) =~= entry_views(entries@));
    while at > 0
        invariant
            at <= entries@.len(),
            setting(entry_views(entries@), key@) == setting(
                entry_views(entries@).subrange(0, at as int),
                key@,
            ),
        decreases at,
    {
        let ghost upto = entry_views(entries@).subrange(0, at as int);
        assert(upto.drop_last() =~= entry_views(entries@).subrange(0, at - 1));
        assert(upto.last() == (entries@[at - 1].0@, entries@[at - 1].1@));
        if same_text(entries[at - 1].0.as_str(), key) {
            return Some(entries[at - 1].1.as_str());
        }
        at = at - 1;
    }
    assert(entry_views(entries@).subrange(0, 0) =~= Seq::<(Seq<char>, Seq<char>)>::empty());
    None
}

/// The storage mode that a word names.
pub open spec fn storage_mode_named(word: Seq<char>) -> Option<StorageMode> {
    if word == "disk"@ {
        Some(StorageMode::Disk)
    } else if word == "memory"@ {
        Some(StorageMode::Memory)
    } else if word == "hybrid"@ {
        Some(StorageMode::Hybrid)
    } else {
        None
    }
}

/// The cover mode that a word names.
pub open spec fn cover_mode_named(word: Seq<char>) -> Option<CoverMode> {
    if word == "thumbnail"@ {
        Some(CoverMode::Thumbnail)
    } else if word == "original"@ {
        Some(CoverMode::Original)
    } else if word == "both"@ {
        Some(CoverMode::Both)
    } else {
        None
    }
}

impl StorageMode {
    /// Reads a storage mode, in either case of its letters.
    pub fn parse(text: &str) -> (mode: Option<StorageMode>)
        ensures
            mode == storage_mode_named(lowercase(text@)),
    {
        let lower = to_lowercase(text);
        if same_text(lower.as_str(), "disk") {
            Some(StorageMode::Disk)
        } else if same_text(lower.as_str(), "memory") {
            Some(StorageMode::Memory)
        } else if same_text(lower.as_str(), "hybrid") {
            Some(StorageMode::Hybrid)
        } else {
            None
        }
    }

    /// The word for a storage mode.
    pub fn to_string(&self) -> (word: String)
        ensures
            storage_mode_named(word@) == Some(*self),
    {
        proof {
            reveal_strlit("disk");
            reveal_strlit("memory");
            reveal_strlit("hybrid");
            assert("disk"@.len() == 4 && "memory"@.len() == 6);
            assert("hybrid"@[0] == 'h' && "memory"@[0] == 'm');
        }
        match self {
            StorageMode::Disk => "disk".to_owned(),
            StorageMode::Memory => "memory".to_owned(),
            StorageMode::Hybrid => "hybrid".to_owned(),
        }
    }
}

impl CoverMode {
    /// Reads a cover mode, in either case of its letters.
    pub fn parse(text: &str) -> (mode: Option<CoverMode>)
        ensures
            mode == cover_mode_named(lowercase(text@)),
    {
        let lower = to_lowercase(text);
        if same_text(lower.as_str(), "thumbnail") {
            Some(CoverMode::Thumbnail)
        } else if same_text(lower.as_str(), "original") {
            Some(CoverMode::Original)
        } else if same_text(lower.as_str(), "both") {
            Some(CoverMode::Both)
        } else {
            None
        }
    }
}

/// The numbers of a comma-separated list: every part that is a number once
/// the white space around it is cut off.
pub open spec fn id_list(text: Seq<char>) -> Seq<i64>
    decreases text.len(),
{
    match position_of(text, ',') {
        Some(at) => if 0 <= at < text.len() {
            id_of(text.subrange(0, at)) + id_list(text.subrange(at + 1, text.len() as int))
        } else {
            Seq::empty()
        },
        None => id_of(text),
    }
}

/// The number that one part of a list stands for, if it stands for one.
pub open spec fn id_of(part: Seq<char>) -> Seq<i64> {
    match parsed_i64(trimmed(part)) {
        Some(id) => seq![id],
        None => Seq::empty(),
    }
}

/// Reads a comma-separated list of numbers; parts that are no numbers are
/// passed over.
pub fn parse_id_list(text: &str) -> (ids: Vec<i64>)
    ensures
        ids@ == id_list(text@),
{
    let mut ids: Vec<i64> = Vec::new();
    let mut rest: &str = text;
    loop
        invariant
            id_list(text@) == ids@ + id_list(rest@),
        decreases rest@.len(),
    {
        let len = rest.unicode_len();
        match find_char(rest, ',') {
            Some(at) => {
                let ghost before = ids@;
                match parse_i64(trim(rest.substring_char(0, at))) {
                    Some(id) => {
                        ids.push(id);
                    },
                    None => {},
                }
                assert(ids@ =~= before + id_of(rest@.subrange(0, at as int)));
                let next = rest.substring_char(at + 1, len);
                assert(before + id_list(rest@) =~= ids@ + id_list(next@));
                rest = next;
            },
            None => {
                let ghost before = ids@;
                match parse_i64(trim(rest)) {
                    Some(id) => {
                        ids.push(id);
                    },
                    None => {},
                }
                assert(ids@ =~= before + id_of(rest@));
                return ids;
            },
        }
    }
}

/// A configuration as a value.
pub struct ConfigView {
    pub bot_token: Seq<char>,
    pub music_u: Option<Seq<char>>,
    pub bot_api: Seq<char>,
    pub music_api: Seq<char>,
    pub bot_admin: Seq<i64>,
    pub bot_debug: bool,
    pub database: Seq<char>,
    pub log_level: Seq<char>,
    pub cache_dir: Seq<char>,
    pub auto_update: bool,
    pub auto_retry: bool,
    pub max_retry_times: u32,
    pub download_timeout: u64,
    pub check_md5: bool,
    pub storage_mode: StorageMode,
    pub memory_threshold_mb: u64,
    pub memory_buffer_mb: u64,
    pub memory_max_file_mb: u64,
    pub max_concurrent_downloads: u32,
    pub download_pool_max_idle_per_host: usize,
    pub download_connect_timeout_secs: u64,
    pub download_chunk_size_kb: usize,
    pub cover_mode: CoverMode,
    pub upload_client_reuse_requests: u32,
    pub upload_timeout_secs: u64,
    pub memory_release_interval_requests: u32,
    pub db_analyze_interval_requests: u32,
}

impl View for Config {
    type V = ConfigView;

    open spec fn view(&self) -> ConfigView {
        ConfigView {
            bot_token: self.bot_token@,
            music_u: match self.music_u {
                Some(cookie) => Some(cookie@),
                None => None,
            },
            bot_api: self.bot_api@,
            music_api: self.music_api@,
            bot_admin: self.bot_admin@,
            bot_debug: self.bot_debug,
            database: self.database@,
            log_level: self.log_level@,
            cache_dir: self.cache_dir@,
            auto_update: self.auto_update,
            auto_retry: self.auto_retry,
            max_retry_times: self.max_retry_times,
            download_timeout: self.download_timeout,
            check_md5: self.check_md5,
            storage_mode: self.storage_mode,
            memory_threshold_mb: self.memory_threshold_mb,
            memory_buffer_mb: self.memory_buffer_mb,
            memory_max_file_mb: self.memory_max_file_mb,
            max_concurrent_downloads: self.max_concurrent_downloads,
            download_pool_max_idle_per_host: self.download_pool_max_idle_per_host,
            download_connect_timeout_secs: self.download_connect_timeout_secs,
            download_chunk_size_kb: self.download_chunk_size_kb,
            cover_mode: self.cover_mode,
            upload_client_reuse_requests: self.upload_client_reuse_requests,
            upload_timeout_secs: self.upload_timeout_secs,
            memory_release_interval_requests: self.memory_release_interval_requests,
            db_analyze_interval_requests: self.db_analyze_interval_requests,
        }
    }
}

/// A text setting: its value where it is set, `preset` where it is not.
pub open spec fn text_setting(
    entries: Seq<(Seq<char>, Seq<char>)>,
    key: Seq<char>,
    preset: Seq<char>,
) -> Seq<char> {
    match setting(entries, key) {
        Some(value) => value,
        None => preset,
    }
}

/// A switch: on where it is set to `true` in either case of its letters,
/// off where it is set to anything else, `preset` where it is not set.
pub open spec fn flag_setting(entries: Seq<(Seq<char>, Seq<char>)>, key: Seq<char>, preset: bool) -> bool {
    match setting(entries, key) {
        Some(value) => lowercase(value) == "true"@,
        None => preset,
    }
}

/// A number of 64 bits: its value where it is set to a number, `fallback`
/// where it is set to anything else, `preset` where it is not set.
pub open spec fn u64_setting(
    entries: Seq<(Seq<char>, Seq<char>)>,
    key: Seq<char>,
    preset: u64,
    fallback: u64,
) -> u64 {
    match setting(entries, key) {
        Some(value) => match parsed_u64(value) {
            Some(number) => number,
            None => fallback,
        },
        None => preset,
    }
}

/// A number of 32 bits, read as `u64_setting` reads one of 64.
pub open spec fn u32_setting(
    entries: Seq<(Seq<char>, Seq<char>)>,
    key: Seq<char>,
    preset: u32,
    fallback: u32,
) -> u32 {
    match setting(entries, key) {
        Some(value) => match parsed_u32(value) {
            Some(number) => number,
            None => fallback,
        },
        None => preset,
    }
}

/// A number of the machine's word size, read as `u64_setting` reads one of 64 bits.
pub open spec fn usize_setting(
    entries: Seq<(Seq<char>, Seq<char>)>,
    key: Seq<char>,
    preset: usize,
    fallback: usize,
) -> usize {
    match setting(entries, key) {
        Some(value) => match parsed_usize(value) {
            Some(number) => number,
            None => fallback,
        },
        None => preset,
    }
}

/// The configuration that the entries of a settings file give. What no
/// entry sets keeps its preset. The database is named by `database`, else by
/// `database.url`; the administrators by `bot.botadmin`, else by `bot.admin`.
/// A mode that no word names keeps its preset.
pub open spec fn configured(entries: Seq<(Seq<char>, Seq<char>)>) -> ConfigView {
    ConfigView {
        bot_token: text_setting(entries, "bot.token"@, Seq::empty()),
        music_u: setting(entries, "music.music_u"@),
        bot_api: text_setting(entries, "bot.api"@, "https://api.telegram.org"@),
        music_api: text_setting(entries, "music.api"@, "https://music.163.com"@),
        bot_admin: match setting(entries, "bot.botadmin"@) {
            Some(list) => id_list(list),
            None => match setting(entries, "bot.admin"@) {
                Some(list) => id_list(list),
                None => Seq::empty(),
            },
        },
        bot_debug: flag_setting(entries, "botdebug"@, false),
        database: text_setting(
            entries,
            "database"@,
            text_setting(entries, "database.url"@, "cache.db"@),
        ),
        log_level: text_setting(entries, "loglevel"@, "info"@),
        cache_dir: text_setting(entries, "download.dir"@, "./cache"@),
        auto_update: flag_setting(entries, "autoupdate"@, true),
        auto_retry: flag_setting(entries, "autoretry"@, true),
        max_retry_times: u32_setting(entries, "maxretrytimes"@, 3, 3),
        download_timeout: u64_setting(entries, "downloadtimeout"@, 60, 60),
        check_md5: flag_setting(entries, "checkmd5"@, true),
        storage_mode: match setting(entries, "download.storage_mode"@) {
            Some(word) => match storage_mode_named(lowercase(word)) {
                Some(mode) => mode,
                None => StorageMode::Disk,
            },
            None => StorageMode::Disk,
        },
        memory_threshold_mb: u64_setting(entries, "download.memory_threshold"@, 100, 100),
        memory_buffer_mb: u64_setting(entries, "download.memory_buffer"@, 100, 100),
        memory_max_file_mb: u64_setting(entries, "download.memory_max_file_mb"@, 100, 64),
        max_concurrent_downloads: u32_setting(entries, "download.max_concurrent"@, 3, 3),
        download_pool_max_idle_per_host: usize_setting(
            entries,
            "download.pool_max_idle_per_host"@,
            2,
            2,
        ),
        download_connect_timeout_secs: u64_setting(
            entries,
            "download.connect_timeout_secs"@,
            10,
            10,
        ),
        download_chunk_size_kb: usize_setting(entries, "download.chunk_size_kb"@, 256, 256),
        cover_mode: match setting(entries, "download.cover_mode"@) {
            Some(word) => match cover_mode_named(lowercase(word)) {
                Some(mode) => mode,
                None => CoverMode::Thumbnail,
            },
            None => CoverMode::Thumbnail,
        },
        upload_client_reuse_requests: u32_setting(entries, "upload.client_reuse_requests"@, 50, 50),
        upload_timeout_secs: u64_setting(entries, "upload.timeout_secs"@, 300, 300),
        memory_release_interval_requests: u32_setting(
            entries,
            "maintenance.memory_release_interval_requests"@,
            10,
            1,
        ),
        db_analyze_interval_requests: u32_setting(
            entries,
            "maintenance.db_analyze_interval_requests"@,
            20,
            1,
        ),
    }
}

fn text_of(entries: &Vec<(String, String)>, key: &str, preset: String) -> (value: String)
    ensures
        value@ == text_setting(entry_views(entries@), key@, preset@),
{
    match lookup(entries, key) {
        Some(found) => found.to_owned(),
        None => preset,
    }
}

fn flag_of(entries: &Vec<(String, String)>, key: &str, preset: bool) -> (value: bool)
    ensures
        value == flag_setting(entry_views(entries@), key@, preset),
{
    match lookup(entries, key) {
        Some(found) => {
            let lower = to_lowercase(found);
            same_text(lower.as_str(), "true")
        },
        None => preset,
    }
}

fn u64_of(entries: &Vec<(String, String)>, key: &str, preset: u64, fallback: u64) -> (value: u64)
    ensures
        value == u64_setting(entry_views(entries@), key@, preset, fallback),
{
    match lookup(entries, key) {
        Some(found) => match parse_u64(found) {
            Some(number) => number,
            None => fallback,
        },
        None => preset,
    }
}

fn u32_of(entries: &Vec<(String, String)>, key: &str, preset: u32, fallback: u32) -> (value: u32)
    ensures
        value == u32_setting(entry_views(entries@), key@, preset, fallback),
{
    match lookup(entries, key) {
        Some(found) => match parse_u32(found) {
            Some(number) => number,
            None => fallback,
        },
        None => preset,
    }
}

fn usize_of(entries: &Vec<(String, String)>, key: &str, preset: usize, fallback: usize) -> (value:
    usize)
    ensures
        value == usize_setting(entry_views(entries@), key@, preset, fallback),
{
    match lookup(entries, key) {
        Some(found) => match parse_usize(found) {
            Some(number) => number,
            None => fallback,
        },
        None => preset,
    }
}

impl Config {
    /// The configuration that the entries of a settings file give, whether
    /// or not they name a token.
    pub fn from_entries(entries: &Vec<(String, String)>) -> (config: Config)
        ensures
            config@ == configured(entry_views(entries@)),
    {
        let music_u = match lookup(entries, "music.music_u") {
            Some(cookie) => Some(cookie.to_owned()),
            None => None,
        };
        let bot_admin = match lookup(entries, "bot.botadmin") {
            Some(list) => parse_id_list(list),
            None => match lookup(entries, "bot.admin") {
                Some(list) => parse_id_list(list),
                None => Vec::new(),
            },
        };
        let storage_mode = match lookup(entries, "download.storage_mode") {
            Some(word) => match StorageMode::parse(word) {
                Some(mode) => mode,
                None => StorageMode::Disk,
            },
            None => StorageMode::Disk,
        };
        let cover_mode = match lookup(entries, "download.cover_mode") {
            Some(word) => match CoverMode::parse(word) {
                Some(mode) => mode,
                None => CoverMode::Thumbnail,
            },
            None => CoverMode::Thumbnail,
        };
        let database_url = text_of(entries, "database.url", "cache.db".to_owned());
        Config {
            bot_token: text_of(entries, "bot.token", String::new()),
            music_u,
            bot_api: text_of(entries, "bot.api", "https://api.telegram.org".to_owned()),
            music_api: text_of(entries, "music.api", "https://music.163.com".to_owned()),
            bot_admin,
            bot_debug: flag_of(entries, "botdebug", false),
            database: text_of(entries, "database", database_url),
            log_level: text_of(entries, "loglevel", "info".to_owned()),
            cache_dir: text_of(entries, "download.dir", "./cache".to_owned()),
            auto_update: flag_of(entries, "autoupdate", true),
            auto_retry: flag_of(entries, "autoretry", true),
            max_retry_times: u32_of(entries, "maxretrytimes", 3, 3),
            download_timeout: u64_of(entries, "downloadtimeout", 60, 60),
            check_md5: flag_of(entries, "checkmd5", true),
            storage_mode,
            memory_threshold_mb: u64_of(entries, "download.memory_threshold", 100, 100),
            memory_buffer_mb: u64_of(entries, "download.memory_buffer", 100, 100),
            memory_max_file_mb: u64_of(entries, "download.memory_max_file_mb", 100, 64),
            max_concurrent_downloads: u32_of(entries, "download.max_concurrent", 3, 3),
            download_pool_max_idle_per_host: usize_of(
                entries,
                "download.pool_max_idle_per_host",
                2,
                2,
            ),
            download_connect_timeout_secs: u64_of(entries, "download.connect_timeout_secs", 10, 10),
            download_chunk_size_kb: usize_of(entries, "download.chunk_size_kb", 256, 256),
            cover_mode,
            upload_client_reuse_requests: u32_of(entries, "upload.client_reuse_requests", 50, 50),
            upload_timeout_secs: u64_of(entries, "upload.timeout_secs", 300, 300),
            memory_release_interval_requests: u32_of(
                entries,
                "maintenance.memory_release_interval_requests",
                10,
                1,
            ),
            db_analyze_interval_requests: u32_of(
                entries,
                "maintenance.db_analyze_interval_requests",
                20,
                1,
            ),
        }
    }

    /// Reads the configuration from the lines of a settings file. A file
    /// that names no bot token gives none.
    pub fn load(lines: &Vec<String>) -> (result: Result<Config, ConfigError>)
        ensures
            configured(scanned(line_views(lines@)).entries).bot_token.len() == 0 <==> result
                is Err,
            result matches Ok(config) ==> config@ == configured(
                scanned(line_views(lines@)).entries,
            ),
    {
        let entries = read_entries(lines);
        let config = Config::from_entries(&entries);
        if config.bot_token.as_str().unicode_len() == 0 {
            Err(ConfigError::MissingToken)
        } else {
            Ok(config)
        }
    }
}

} // verus!
