use music163bot::commands::{
    is_music_link, join_words, parse_callback, parse_command, parse_inline_query,
    read_command_name, split_words, Command,
};

fn command(text: &str) -> (Command, String, Option<String>) {
    let line = parse_command(text).unwrap();
    (line.command, line.name, line.args)
}

#[test]
fn words_are_split_as_the_standard_library_splits_them() {
    let samples = [
        "", " ", "a", " a ", "a b", "  a   b\tc\nd  ", "/music 夜曲  周杰伦", "a\u{3000}b\u{A0}c",
        "\u{2028}x\u{85}", "one", "tab\tsep", "a\u{200B}b",
    ];
    for sample in samples {
        let expected: Vec<String> = sample.split_whitespace().map(str::to_string).collect();
        assert_eq!(split_words(sample), expected);
    }
}

#[test]
fn words_are_joined_with_single_spaces() {
    let words: Vec<String> = ["a", "b", "c"].iter().map(|w| w.to_string()).collect();
    assert_eq!(join_words(&words, 0), "a b c");
    assert_eq!(join_words(&words, 1), "b c");
    assert_eq!(join_words(&words, 2), "c");
    assert_eq!(join_words(&words, 3), "");
    assert_eq!(join_words(&words, 9), "");
    assert_eq!(join_words(&Vec::new(), 0), "");
}

#[test]
fn command_names_lose_slashes_and_the_bot_name() {
    assert_eq!(read_command_name("/start"), "start");
    assert_eq!(read_command_name("/start@Music163bot"), "start");
    assert_eq!(read_command_name("///music@a@b"), "music");
    assert_eq!(read_command_name("start"), "start");
    assert_eq!(read_command_name("/"), "");
    assert_eq!(read_command_name("/@bot"), "");
    assert_eq!(read_command_name("/a/b"), "a/b");
    assert_eq!(read_command_name(""), "");
}

#[test]
fn commands_are_told_apart() {
    assert_eq!(command("/start"), (Command::Start, "start".to_string(), None));
    assert_eq!(command("/start 12345"), (Command::Start, "start".to_string(), Some("12345".to_string())));
    assert_eq!(command("/help@Bot"), (Command::Help, "help".to_string(), None));
    assert_eq!(
        command("/music   夜曲\t周杰伦 "),
        (Command::Music, "music".to_string(), Some("夜曲 周杰伦".to_string()))
    );
    assert_eq!(command("/netease 1").0, Command::Music);
    assert_eq!(command("/search x").0, Command::Search);
    assert_eq!(command("/about").0, Command::About);
    assert_eq!(command("/lyric 5").0, Command::Lyric);
    assert_eq!(command("/status").0, Command::Status);
    assert_eq!(command("/rmcache 5").0, Command::RmCache);
    assert_eq!(command("/clearallcache").0, Command::ClearAllCache);
    assert_eq!(command("/clearallcache confirm").0, Command::ClearAllCacheConfirm);
    assert_eq!(command("/clearallcache  confirm ").0, Command::ClearAllCacheConfirm);
    assert_eq!(command("/clearallcache confirm now").0, Command::ClearAllCache);
    assert_eq!(command("/clearallcache Confirm").0, Command::ClearAllCache);
    assert_eq!(command("/Start").0, Command::Unknown);
    assert_eq!(command("/unknown").0, Command::Unknown);
    assert_eq!(command("/").0, Command::Unknown);
    assert!(parse_command("").is_none());
    assert!(parse_command("  \n").is_none());
}

#[test]
fn catalog_links_are_recognised() {
    assert!(is_music_link("https://music.163.com/song?id=1"));
    assert!(is_music_link("see http://163cn.tv/abc"));
    assert!(is_music_link("163cn.link/x"));
    assert!(!is_music_link("https://example.com/"));
    assert!(!is_music_link(""));
}

#[test]
fn buttons_name_their_track() {
    assert_eq!(parse_callback("music 12345"), Some(12345));
    assert_eq!(parse_callback("  music   7  extra"), Some(7));
    assert_eq!(parse_callback("music"), None);
    assert_eq!(parse_callback("music x"), None);
    assert_eq!(parse_callback("Music 5"), None);
    assert_eq!(parse_callback("lyric 5"), None);
    assert_eq!(parse_callback(""), None);
}

#[test]
fn inline_queries_are_taken_apart() {
    let cases: [(&str, &str, bool); 11] = [
        ("", "", false),
        ("   ", "", false),
        ("周杰伦", "周杰伦", false),
        ("  two words ", "two words", false),
        ("search 周杰伦", "周杰伦", true),
        ("SEARCH   晴天  ", "晴天", true),
        ("Search", "", true),
        ("search ", "", true),
        ("searching", "", true),
        ("search\tx", "", true),
        ("searc h", "searc h", false),
    ];
    for (query, keyword, is_search) in cases {
        let request = parse_inline_query(query);
        assert_eq!(request.keyword, keyword);
        assert_eq!(request.is_search, is_search);
    }
}
