use music163bot::text::{
    chars_of, eq_ignore_ascii_case, parse_u64, push_decimal, small_letter, str_contains, trim,
};
use music163bot::utils::{
    clean_filename, extract_first_url, file_extension, format_duration, is_stale_reference,
    is_timeout_error, parse_music_id, pick_music_id, transfer_file_name,
};

#[test]
fn file_names_lose_what_cannot_stand_in_them() {
    assert_eq!(clean_filename("a/b\\c?d*e:f|g<h>i\"j"), "a b c d e f g h i j");
    assert_eq!(clean_filename("  AC/DC - T.N.T.mp3 "), "AC DC - T.N.T.mp3");
    assert_eq!(clean_filename("?lead and trail?"), "lead and trail");
    assert_eq!(clean_filename("///"), "");
    assert_eq!(clean_filename(""), "");
    assert_eq!(clean_filename("周杰伦 - 晴天.flac"), "周杰伦 - 晴天.flac");
    assert_eq!(clean_filename("\u{3000}名前\u{00A0}\n"), "名前");
    assert_eq!(clean_filename("a\tb"), "a\tb");
}

#[test]
fn trimming_agrees_with_the_standard_library() {
    let samples = [
        "", " ", "a", " a", "a ", "  a b  ", "\t\n\r x \u{0B}\u{0C}", "\u{85}x\u{1680}",
        "\u{2000}\u{200A}x\u{2028}\u{2029}\u{202F}\u{205F}\u{3000}", "\u{200B}x\u{200B}",
        "\u{FEFF}x", " \u{1F3B5} ", "\u{180E}x",
    ];
    for sample in samples {
        assert_eq!(trim(sample), sample.trim());
    }
}

#[test]
fn numbers_are_read_as_the_standard_library_reads_them() {
    let samples = [
        "", "0", "7", "42", "0042", "+5", "+", "-5", "+-5", "5+", " 5", "5 ", "1e3", "١٢٣",
        "18446744073709551615", "18446744073709551616", "99999999999999999999999", "+0",
        "184467440737095516150", "12a", "+18446744073709551615", "1_000",
    ];
    for sample in samples {
        assert_eq!(parse_u64(sample), sample.parse::<u64>().ok());
    }
    assert_eq!(parse_u64("18446744073709551615"), Some(u64::MAX));
    assert_eq!(parse_u64("18446744073709551616"), None);
}

#[test]
fn durations_are_minutes_and_seconds() {
    assert_eq!(format_duration(0), "00:00");
    assert_eq!(format_duration(9), "00:09");
    assert_eq!(format_duration(59), "00:59");
    assert_eq!(format_duration(60), "01:00");
    assert_eq!(format_duration(226), "03:46");
    assert_eq!(format_duration(600), "10:00");
    assert_eq!(format_duration(5999), "99:59");
    assert_eq!(format_duration(6000), "100:00");
    assert_eq!(format_duration(u64::MAX), "307445734561825860:15");
}

#[test]
fn decimals_are_appended() {
    let mut text = "n=".to_string();
    push_decimal(&mut text, 0);
    push_decimal(&mut text, 1234567890);
    push_decimal(&mut text, u64::MAX);
    assert_eq!(text, "n=0123456789018446744073709551615");
}

#[test]
fn track_numbers_are_found_in_catalog_links() {
    assert_eq!(parse_music_id("https://music.163.com/song?id=12345"), Some(12345));
    assert_eq!(parse_music_id("https://music.163.com/#/song?id=186016&userid=99"), Some(186016));
    assert_eq!(parse_music_id("look: http://music.163.com/m/song?uct=x&id=31 there"), Some(31));
    // Without an `id` parameter the first run of digits of a song address counts.
    assert_eq!(parse_music_id("https://y.music.163.com/m/song/7654321/?userid=1"), Some(163));
    assert_eq!(parse_music_id("https://example.org/song/7654321"), Some(7654321));
    // Digits too large for a number decide all the same.
    assert_eq!(parse_music_id("https://music.163.com/song?id=99999999999999999999999"), None);
}

#[test]
fn track_numbers_are_found_in_plain_numbers() {
    assert_eq!(parse_music_id("12345"), Some(12345));
    assert_eq!(parse_music_id("  12345\n"), Some(12345));
    assert_eq!(parse_music_id("+7"), Some(7));
    assert_eq!(parse_music_id("12345 and more"), None);
    assert_eq!(parse_music_id("hello"), None);
    assert_eq!(parse_music_id(""), None);
    assert_eq!(parse_music_id("https://example.com/album/42"), None);
    assert_eq!(parse_music_id("http://163cn.tv/abcdef"), None);
}

#[test]
fn the_patterns_decide_in_their_order() {
    assert_eq!(pick_music_id(Some("5"), Some("6"), "7"), Some(5));
    assert_eq!(pick_music_id(None, Some("6"), "7"), Some(6));
    assert_eq!(pick_music_id(None, None, " 7 "), Some(7));
    assert_eq!(pick_music_id(Some("x"), Some("6"), "7"), None);
    assert_eq!(pick_music_id(None, Some(""), "7"), None);
    assert_eq!(pick_music_id(None, None, "seven"), None);
}

#[test]
fn the_first_address_is_extracted() {
    assert_eq!(
        extract_first_url("see https://163cn.tv/abc123 and http://x.org/y"),
        Some("https://163cn.tv/abc123".to_string())
    );
    assert_eq!(
        extract_first_url("分享: http://music.163.com/song?id=5&x=1。"),
        Some("http://music.163.com/song?id=5&x=1".to_string())
    );
    assert_eq!(extract_first_url("no address here"), None);
    assert_eq!(extract_first_url("ftp://example.com/file"), None);
    assert_eq!(extract_first_url(""), None);
}

#[test]
fn timeouts_are_told_by_their_message() {
    assert!(is_timeout_error("operation timeout"));
    assert!(is_timeout_error("deadline has elapsed"));
    assert!(is_timeout_error("timeout"));
    assert!(!is_timeout_error("Timeout"));
    assert!(!is_timeout_error("connection reset"));
    assert!(!is_timeout_error(""));
    assert!(!is_timeout_error("timeou"));
}

#[test]
fn stale_references_are_told_by_their_message() {
    assert!(is_stale_reference("Bad Request: invalid remote file identifier specified"));
    assert!(!is_stale_reference("Bad Request: file is too big"));
    assert!(!is_stale_reference(""));
}

#[test]
fn the_extension_comes_from_the_address() {
    assert_eq!(file_extension("http://m.music.126.net/a/b.flac?auth=1"), "flac");
    assert_eq!(file_extension("http://m.music.126.net/a/b.mp3"), "mp3");
    assert_eq!(file_extension("http://m.music.126.net/a/b.FLAC"), "mp3");
    assert_eq!(file_extension(""), "mp3");
}

#[test]
fn file_names_are_built_from_artists_and_title() {
    assert_eq!(transfer_file_name("周杰伦", "晴天", "flac"), "周杰伦 - 晴天.flac");
    assert_eq!(transfer_file_name("A/B/C", "Song: One?", "mp3"), "A,B,C - Song  One .mp3");
    assert_eq!(transfer_file_name("", "", "mp3"), "- .mp3");
    assert_eq!(transfer_file_name(" x", "y", ""), "x - y.");
}

#[test]
fn searching_agrees_with_the_standard_library() {
    let texts = ["", "a", "ab", "abc", "aab", "ababab", "timeout", "a timeout b", "周杰伦晴天", "晴"];
    for haystack in texts {
        for needle in texts {
            assert_eq!(str_contains(haystack, needle), haystack.contains(needle));
        }
    }
    assert_eq!(chars_of("a晴b"), vec!['a', '晴', 'b']);
    assert!(chars_of("").is_empty());
}

#[test]
fn ascii_case_is_ignored_as_the_standard_library_ignores_it() {
    let texts = ["", "a", "A", "abc", "ABC", "aBc", "abd", "ab", "é", "É", "K", "k", "\u{212A}", "[", "{", "@", "`"];
    for left in texts {
        for right in texts {
            assert_eq!(eq_ignore_ascii_case(left, right), left.eq_ignore_ascii_case(right));
        }
    }
    for code in 0u8..=127 {
        let c = code as char;
        assert_eq!(small_letter(c), c.to_ascii_lowercase());
    }
    assert_eq!(small_letter('É'), 'É');
}
