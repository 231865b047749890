//! Helpers around a transfer: file names, durations, and the track number
//! that a message names.

use vstd::prelude::*;
use vstd::string::StringExecFns;
use crate::text::{
    contains_text, parse_u64, parsed_u64, push_char, push_decimal, str_contains, trim, trimmed,
    two_digits,
};

verus! {

/// The pattern of a link to a track of the catalog, with the track number as
/// its first group.
pub open spec fn song_pattern() -> Seq<char> {
    "music\\.163\\.com/.*?song.*?[?&]id=(\\d+)"@
}

/// The pattern of a web address.
pub open spec fn link_pattern() -> Seq<char> {
    "(http|https)://[\\w\\-_]+(\\.[\\w\\-_]+)+([\\w\\-.,@?^=%&:/~+#]*[\\w\\-@?^=%&/~+#])?"@
}

/// The pattern of a run of digits.
pub open spec fn number_pattern() -> Seq<char> {
    "\\d+"@
}

/// The leftmost match of a regular expression in a text, as the `regex`
/// crate finds it; `None` where nothing matches or the pattern is no
/// regular expression.
pub uninterp spec fn regex_first_match(pattern: Seq<char>, text: Seq<char>) -> Option<Seq<char>>;

/// What a group of a regular expression holds in the leftmost match in a
/// text, as the `regex` crate finds it; `None` where nothing matches, the
/// group took no part in the match, or the pattern is no regular expression.
pub uninterp spec fn regex_first_capture(pattern: Seq<char>, text: Seq<char>, group: usize) -> Option<
    Seq<char>,
>;

/// `regex::Regex::new` and `Regex::find`: the text of the leftmost match.
#[verifier::external_body]
pub(crate) fn regex_find(pattern: &str, text: &str) -> (found: Option<String>)
    ensures
        found is Some == regex_first_match(pattern@, text@) is Some,
        found matches Some(part) ==> Some(part@) == regex_first_match(pattern@, text@),
{
    let regex = regex::Regex::new(pattern).ok()?;
    regex.find(text).map(|found| found.as_str().to_owned())
}

/// `regex::Regex::new`, `Regex::captures` and `Captures::get`: the text of
/// one group of the leftmost match.
#[verifier::external_body]
pub(crate) fn regex_capture(pattern: &str, text: &str, group: usize) -> (found: Option<String>)
    ensures
        found is Some == regex_first_capture(pattern@, text@, group) is Some,
        found matches Some(part) ==> Some(part@) == regex_first_capture(pattern@, text@, group),
{
    let regex = regex::Regex::new(pattern).ok()?;
    regex.captures(text)?.get(group).map(|found| found.as_str().to_owned())
}

/// The track number that stands in the first web address of `text`, where
/// that address names a song: its first run of digits.
pub open spec fn link_number(text: Seq<char>) -> Option<Seq<char>> {
    match regex_first_match(link_pattern(), text) {
        Some(link) => if contains_text(link, "song"@) {
            regex_first_match(number_pattern(), link)
        } else {
            None
        },
        None => None,
    }
}

/// The track number that a message names, given what the patterns found in
/// it: the number of a catalog link first, then the digits of a song
/// address, and last the message itself where it is nothing but a number.
/// Digits that are found decide, also where they are no number that fits.
pub open spec fn music_id_from(
    song_number: Option<Seq<char>>,
    link_digits: Option<Seq<char>>,
    text: Seq<char>,
) -> Option<u64> {
    match song_number {
        Some(digits) => parsed_u64(digits),
        None => match link_digits {
            Some(digits) => parsed_u64(digits),
            None => parsed_u64(trimmed(text)),
        },
    }
}

/// Picks the track number of a message from what the patterns found in it.
pub fn pick_music_id(song_number: Option<&str>, link_digits: Option<&str>, text: &str) -> (id:
    Option<u64>)
    ensures
        id == music_id_from(
            match song_number {
                Some(digits) => Some(digits@),
                None => None,
            },
            match link_digits {
                Some(digits) => Some(digits@),
                None => None,
            },
            text@,
        ),
{
    match song_number {
        Some(digits) => parse_u64(digits),
        None => match link_digits {
            Some(digits) => parse_u64(digits),
            None => parse_u64(trim(text)),
        },
    }
}

/// Finds the track number that a message names.
pub fn parse_music_id(text: &str) -> (id: Option<u64>)
    ensures
        id == music_id_from(
            regex_first_capture(song_pattern(), text@, 1),
            link_number(text@),
            text@,
        ),
{
    let song_number = regex_capture("music\\.163\\.com/.*?song.*?[?&]id=(\\d+)", text, 1);
    if song_number.is_some() {
        return pick_music_id(option_str(&song_number), None, text);
    }
    let link = regex_find(
        "(http|https)://[\\w\\-_]+(\\.[\\w\\-_]+)+([\\w\\-.,@?^=%&:/~+#]*[\\w\\-@?^=%&/~+#])?",
        text,
    );
    let link_digits = match &link {
        Some(address) => if str_contains(address.as_str(), "song") {
            regex_find("\\d+", address.as_str())
        } else {
            None
        },
        None => None,
    };
    pick_music_id(None, option_str(&link_digits), text)
}

fn option_str(text: &Option<String>) -> (slice: Option<&str>)
    ensures
        text is Some == slice is Some,
        text matches Some(owned) ==> slice matches Some(borrowed) && borrowed@ == owned@,
{
    match text {
        Some(owned) => Some(owned.as_str()),
        None => None,
    }
}

/// Finds the first web address in a text.
pub fn extract_first_url(text: &str) -> (url: Option<String>)
    ensures
        url is Some == regex_first_match(link_pattern(), text@) is Some,
        url matches Some(address) ==> Some(address@) == regex_first_match(link_pattern(), text@),
{
    regex_find(
        "(http|https)://[\\w\\-_]+(\\.[\\w\\-_]+)+([\\w\\-.,@?^=%&:/~+#]*[\\w\\-@?^=%&/~+#])?",
        text,
    )
}

/// Whether a character cannot stand in a file name.
pub open spec fn is_unsafe_in_file_name(c: char) -> bool {
    c == '/' || c == '\\' || c == '?' || c == '*' || c == ':' || c == '|' || c == '<' || c == '>'
        || c == '"'
}

/// A character as it stands in a file name: a space in place of one that
/// cannot stand there.
pub open spec fn safe_char(c: char) -> char {
    if is_unsafe_in_file_name(c) {
        ' '
    } else {
        c
    }
}

/// A name as a file name: every character that cannot stand in one is a
/// space, and the white space at both ends is cut off.
pub open spec fn cleaned(name: Seq<char>) -> Seq<char> {
    trimmed(name.map_values(|c: char| safe_char(c)))
}

/// Makes a name fit for a file.
pub fn clean_filename(name: &str) -> (clean: String)
    ensures
        clean@ == cleaned(name@),
{
    let mut replaced = String::new();
    for c in it: name.chars()
        invariant
            it.seq() == name@,
            replaced@ == name@.subrange(0, it.index() as int).map_values(|c: char| safe_char(c)),
    {
        let safe = match c {
            '/' | '\\' | '?' | '*' | ':' | '|' | '<' | '>' | '"' => ' ',
            _ => c,
        };
        push_char(&mut replaced, safe);
        assert(replaced@ =~= name@.subrange(0, it.index() + 1).map_values(
            |c: char| safe_char(c),
        ));
    }
    assert(name@.subrange(0, name@.len() as int) =~= name@);
    trim(replaced.as_str()).to_owned()
}

/// A duration as minutes and seconds, each in at least two digits.
pub open spec fn duration_text(seconds: u64) -> Seq<char> {
    two_digits(seconds as nat / 60) + seq![':'] + two_digits(seconds as nat % 60)
}

/// Writes a duration as minutes and seconds.
pub fn format_duration(seconds: u64) -> (text: String)
    ensures
        text@ == duration_text(seconds),
{
    let minutes = seconds / 60;
    let rest = seconds % 60;
    let mut text = String::new();
    if minutes < 10 {
        push_char(&mut text, '0');
    }
    push_decimal(&mut text, minutes);
    push_char(&mut text, ':');
    if rest < 10 {
        push_char(&mut text, '0');
    }
    push_decimal(&mut text, rest);
    assert(text@ =~= duration_text(seconds));
    text
}

/// Whether the message of an error speaks of a timeout.
pub fn is_timeout_error(message: &str) -> (timeout: bool)
    ensures
        timeout == (contains_text(message@, "timeout"@) || contains_text(message@, "deadline"@)),
{
    str_contains(message, "timeout") || str_contains(message, "deadline")
}

/// Whether the message of a failed send says that the cached file reference
/// is no longer valid.
pub fn is_stale_reference(message: &str) -> (stale: bool)
    ensures
        stale == contains_text(message@, "invalid remote file identifier"@),
{
    str_contains(message, "invalid remote file identifier")
}

/// The extension of the file behind a download address: `flac` where the
/// address names one, `mp3` otherwise.
pub fn file_extension(url: &str) -> (extension: &'static str)
    ensures
        extension@ == (if contains_text(url@, ".flac"@) {
            "flac"@
        } else {
            "mp3"@
        }),
{
    if str_contains(url, ".flac") {
        "flac"
    } else {
        "mp3"
    }
}

/// The artists of a track as they stand in its file name: with a comma in
/// place of every slash.
pub open spec fn artists_in_file_name(artists: Seq<char>) -> Seq<char> {
    artists.map_values(
        |c: char|
            if c == '/' {
                ','
            } else {
                c
            },
    )
}

/// The name of the file of a track: artists, title and extension, made fit
/// for a file.
pub open spec fn track_file_name(artists: Seq<char>, title: Seq<char>, extension: Seq<char>) -> Seq<
    char,
> {
    cleaned(artists_in_file_name(artists) + " - "@ + title + "."@ + extension)
}

/// Builds the name of the file of a track.
pub fn transfer_file_name(artists: &str, title: &str, extension: &str) -> (name: String)
    ensures
        name@ == track_file_name(artists@, title@, extension@),
{
    let mut raw = String::new();
    for c in it: artists.chars()
        invariant
            it.seq() == artists@,
            raw@ == artists_in_file_name(artists@.subrange(0, it.index() as int)),
    {
        let kept = if c == '/' {
            ','
        } else {
            c
        };
        push_char(&mut raw, kept);
        assert(raw@ =~= artists_in_file_name(artists@.subrange(0, it.index() + 1)));
    }
    assert(artists@.subrange(0, artists@.len() as int) =~= artists@);
    raw.append(" - ");
    raw.append(title);
    raw.append(".");
    raw.append(extension);
    clean_filename(raw.as_str())
}

/// The address of the platform's own API.
pub open spec fn official_api() -> Seq<char> {
    "https://api.telegram.org"@
}

/// Whether requests go to an API server of the operator's own: where one is
/// configured that is not the platform's.
pub fn uses_custom_api(bot_api: &str) -> (custom: bool)
    ensures
        custom == (bot_api@.len() > 0 && bot_api@ != official_api()),
{
    if bot_api.is_empty() {
        return false;
    }
    let configured = bot_api.to_owned();
    let official = "https://api.telegram.org".to_owned();
    !(configured == official)
}

/// The four characters `/bot`.
pub open spec fn bot_suffix() -> Seq<char> {
    seq!['/', 'b', 'o', 't']
}

/// `text` without the `/bot` that it ends with, however often it ends with it.
pub open spec fn without_bot_suffix(text: Seq<char>) -> Seq<char>
    decreases text.len(),
{
    if text.len() >= 4 && text.subrange(text.len() - 4, text.len() as int) == bot_suffix() {
        without_bot_suffix(text.subrange(0, text.len() - 4))
    } else {
        text
    }
}

/// The base address of the API: that of a custom server without the `/bot`
/// at its end and with a slash behind it, and else the platform's own.
pub open spec fn api_base(bot_api: Seq<char>) -> Seq<char> {
    if bot_api.len() > 0 && bot_api != official_api() {
        without_bot_suffix(bot_api).push('/')
    } else {
        official_api().push('/')
    }
}

/// Builds the base address under which the API is called.
pub fn api_base_url(bot_api: &str) -> (base: String)
    ensures
        base@ == api_base(bot_api@),
{
    if !uses_custom_api(bot_api) {
        let mut base = "https://api.telegram.org".to_owned();
        push_char(&mut base, '/');
        return base;
    }
    let mut chars: Vec<char> = Vec::new();
    for c in it: bot_api.chars()
        invariant
            it.seq() == bot_api@,
            chars@ == bot_api@.subrange(0, it.index() as int),
    {
        chars.push(c);
        assert(chars@ =~= bot_api@.subrange(0, it.index() + 1));
    }
    assert(bot_api@.subrange(0, bot_api@.len() as int) =~= bot_api@);
    let mut end: usize = chars.len();
    while end >= 4 && chars[end - 4] == '/' && chars[end - 3] == 'b' && chars[end - 2] == 'o'
        && chars[end - 1] == 't'
        invariant
            end <= chars@.len(),
            without_bot_suffix(chars@) == without_bot_suffix(chars@.subrange(0, end as int)),
        decreases end,
    {
        proof {
            let head = chars@.subrange(0, end as int);
            assert(head.subrange(head.len() - 4, head.len() as int) =~= bot_suffix());
            assert(head.subrange(0, head.len() - 4) =~= chars@.subrange(0, end - 4));
        }
        end = end - 4;
    }
    proof {
        let head = chars@.subrange(0, end as int);
        if head.len() >= 4 {
            let tail = head.subrange(head.len() - 4, head.len() as int);
            assert(tail[0] == chars@[end - 4] && tail[1] == chars@[end - 3] && tail[2]
                == chars@[end - 2] && tail[3] == chars@[end - 1]);
            assert(tail != bot_suffix());
        }
        assert(without_bot_suffix(head) == head);
    }
    let mut base = String::new();
    let mut at: usize = 0;
    while at < end
        invariant
            at <= end <= chars@.len(),
            base@ == chars@.subrange(0, at as int),
        decreases end - at,
    {
        push_char(&mut base, chars[at]);
        assert(base@ =~= chars@.subrange(0, at + 1));
        at = at + 1;
    }
    push_char(&mut base, '/');
    base
}

/// Whether the message of a failed request shows that a protective proxy
/// stood in the way.
pub fn is_blocked_by_proxy(message: &str) -> (blocked: bool)
    ensures
        blocked == (contains_text(message@, "Just a moment"@) || contains_text(
            message@,
            "cloudflare"@,
        ) || contains_text(message@, "challenge"@)),
{
    str_contains(message, "Just a moment") || str_contains(message, "cloudflare") || str_contains(
        message,
        "challenge",
    )
}

} // verus!
