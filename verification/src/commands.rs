//! What a chat message asks for: the command and its arguments, the track of
//! a button, the keyword of an inline query.

use vstd::prelude::*;
use vstd::string::StrSliceExecFns;
use crate::text::{
    ascii_lower, contains_text, find_char, is_white_space, parse_u64, parsed_u64, position_of,
    push_char, same_text, small_letter, str_contains, trim, trimmed,
};

verus! {

/// The words of `rest`, with `current` before them as the beginning of the
/// first word: the runs of characters between white space.
pub open spec fn words_after(current: Seq<char>, rest: Seq<char>) -> Seq<Seq<char>>
    decreases rest.len(),
{
    if rest.len() == 0 {
        if current.len() == 0 {
            Seq::empty()
        } else {
            seq![current]
        }
    } else if is_white_space(rest[0]) {
        if current.len() == 0 {
            words_after(Seq::empty(), rest.drop_first())
        } else {
            seq![current] + words_after(Seq::empty(), rest.drop_first())
        }
    } else {
        words_after(current.push(rest[0]), rest.drop_first())
    }
}

/// The words of a text.
pub open spec fn words(text: Seq<char>) -> Seq<Seq<char>> {
    words_after(Seq::empty(), text)
}

/// The words from `from` on, with one space between them.
pub open spec fn joined_words(words: Seq<Seq<char>>, from: int) -> Seq<char>
    decreases words.len() - from,
{
    if from < 0 || from >= words.len() {
        Seq::empty()
    } else if from == words.len() - 1 {
        words[from]
    } else {
        words[from] + seq![' '] + joined_words(words, from + 1)
    }
}

/// The number of slashes that `text` begins with.
pub open spec fn leading_slashes(text: Seq<char>) -> nat
    decreases text.len(),
{
    if text.len() > 0 && text[0] == '/' {
        1 + leading_slashes(text.drop_first())
    } else {
        0
    }
}

/// The name of the command in its first word: the word without the slashes
/// before it and without the `@` and what follows it.
pub open spec fn command_name(word: Seq<char>) -> Seq<char> {
    let bare = word.subrange(leading_slashes(word) as int, word.len() as int);
    match position_of(bare, '@') {
        Some(at) => bare.subrange(0, at),
        None => bare,
    }
}

/// The views of a list of strings.
pub open spec fn text_views(texts: Seq<String>) -> Seq<Seq<char>> {
    texts.map_values(|text: String| text@)
}

/// Splits a text into its words.
pub fn split_words(text: &str) -> (found: Vec<String>)
    ensures
        text_views(found@) == words(text@),
{
    let mut found: Vec<String> = Vec::new();
    let mut current = String::new();
    assert(text@.subrange(0, text@.len() as int) =~= text@);
    assert(text_views(found@) + words(text@) =~= words(text@));
    for c in it: text.chars()
        invariant
            it.seq() == text@,
            words(text@) == text_views(found@) + words_after(
                current@,
                text@.subrange(it.index() as int, text@.len() as int),
            ),
    {
        let ghost rest = text@.subrange(it.index() as int, text@.len() as int);
        let ghost after = text@.subrange(it.index() + 1, text@.len() as int);
        let ghost before = text_views(found@);
        let ghost word = current@;
        assert(rest.len() > 0 && rest[0] == c);
        assert(rest.drop_first() =~= after);
        if crate::text::white_space(c) {
            if current.as_str().unicode_len() > 0 {
                let mut done = String::new();
                std::mem::swap(&mut done, &mut current);
                found.push(done);
                assert(current@ =~= Seq::<char>::empty());
                assert(text_views(found@) =~= before.push(word));
                assert(words_after(word, rest) == seq![word] + words_after(Seq::empty(), after));
                assert(before + (seq![word] + words_after(Seq::empty(), after)) =~= text_views(
                    found@,
                ) + words_after(current@, after));
            } else {
                assert(current@ =~= Seq::<char>::empty());
                assert(words_after(word, rest) == words_after(Seq::empty(), after));
            }
        } else {
            push_char(&mut current, c);
            assert(words_after(word, rest) == words_after(word.push(c), after));
        }
        assert(words(text@) == text_views(found@) + words_after(current@, after));
    }
    let ghost before = text_views(found@);
    assert(text@.subrange(text@.len() as int, text@.len() as int) =~= Seq::<char>::empty());
    if current.as_str().unicode_len() > 0 {
        found.push(current);
        assert(text_views(found@) =~= before.push(current@));
    }
    assert(text_views(found@) =~= words(text@));
    found
}

/// Joins the words from `from` on with one space between them.
pub fn join_words(words: &Vec<String>, from: usize) -> (text: String)
    ensures
        text@ == joined_words(text_views(words@), from as int),
{
    let mut text = String::new();
    if from >= words.len() {
        return text;
    }
    let mut at: usize = words.len() - 1;
    vstd::string::StringExecFns::append(&mut text, words[at].as_str());
    assert(text@ =~= joined_words(text_views(words@), at as int));
    while at > from
        invariant
            from <= at < words@.len(),
            text@ == joined_words(text_views(words@), at as int),
        decreases at,
    {
        at = at - 1;
        let mut longer = String::new();
        vstd::string::StringExecFns::append(&mut longer, words[at].as_str());
        push_char(&mut longer, ' ');
        vstd::string::StringExecFns::append(&mut longer, text.as_str());
        assert(longer@ =~= joined_words(text_views(words@), at as int));
        text = longer;
    }
    text
}

/// Slashes up to `count`, and none at `count`, are the slashes that `text`
/// begins with.
pub proof fn lemma_leading_slashes(text: Seq<char>, count: int)
    requires
        0 <= count <= text.len(),
        forall|i: int| 0 <= i < count ==> #[trigger] text[i] == '/',
        count == text.len() || text[count] != '/',
    ensures
        leading_slashes(text) == count,
    decreases count,
{
    if count > 0 {
        let rest = text.drop_first();
        assert(forall|i: int| 0 <= i < count - 1 ==> #[trigger] rest[i] == text[i + 1]);
        lemma_leading_slashes(rest, count - 1);
    }
}

/// Reads the name of the command from the first word of a message.
pub fn read_command_name(word: &str) -> (name: String)
    ensures
        name@ == command_name(word@),
{
    let total = word.unicode_len();
    let mut slashes: usize = 0;
    let mut seen: usize = 0;
    let mut counting = true;
    for c in it: word.chars()
        invariant
            it.seq() == word@,
            seen == it.index(),
            total == word@.len(),
            slashes <= seen,
            forall|i: int| 0 <= i < slashes ==> #[trigger] word@[i] == '/',
            counting ==> slashes == seen,
            !counting ==> word@[slashes as int] != '/',
    {
        if counting {
            if c == '/' {
                slashes = slashes + 1;
            } else {
                counting = false;
            }
        }
        seen = seen + 1;
    }
    proof {
        lemma_leading_slashes(word@, slashes as int);
    }
    let bare = word.substring_char(slashes, total);
    match find_char(bare, '@') {
        Some(at) => bare.substring_char(0, at).to_owned(),
        None => bare.to_owned(),
    }
}

/// A command of the bot.
#[derive(Debug, Clone, Copy, PartialEq, Eq, Structural)]
pub enum Command {
    Start,
    Help,
    Music,
    Search,
    About,
    Lyric,
    Status,
    RmCache,
    /// Asks for the confirmation of clearing the cache.
    ClearAllCache,
    /// Clears the cache.
    ClearAllCacheConfirm,
    /// A command that the bot does not answer.
    Unknown,
}

/// The command that a name and its arguments stand for. `music` and
/// `netease` are one command; clearing the cache is confirmed by the single
/// argument `confirm`.
pub open spec fn command_named(name: Seq<char>, args: Option<Seq<char>>) -> Command {
    if name == "start"@ {
        Command::Start
    } else if name == "help"@ {
        Command::Help
    } else if name == "music"@ || name == "netease"@ {
        Command::Music
    } else if name == "search"@ {
        Command::Search
    } else if name == "about"@ {
        Command::About
    } else if name == "lyric"@ {
        Command::Lyric
    } else if name == "status"@ {
        Command::Status
    } else if name == "rmcache"@ {
        Command::RmCache
    } else if name == "clearallcache"@ {
        match args {
            Some(given) => if trimmed(given) == "confirm"@ {
                Command::ClearAllCacheConfirm
            } else {
                Command::ClearAllCache
            },
            None => Command::ClearAllCache,
        }
    } else {
        Command::Unknown
    }
}

/// A message that begins a command, taken apart.
#[derive(Debug)]
pub struct CommandLine {
    /// The command.
    pub command: Command,
    /// Its name as written.
    pub name: String,
    /// What follows the first word, with single spaces between the words.
    pub args: Option<String>,
}

/// The arguments of a message: its words but the first, where it has more than one.
pub open spec fn command_args(text: Seq<char>) -> Option<Seq<char>> {
    if words(text).len() > 1 {
        Some(joined_words(words(text), 1))
    } else {
        None
    }
}

/// Takes a command message apart. A message without a word holds no command.
pub fn parse_command(text: &str) -> (line: Option<CommandLine>)
    ensures
        words(text@).len() == 0 <==> line is None,
        line matches Some(found) ==> {
            &&& found.name@ == command_name(words(text@)[0])
            &&& (match found.args {
                Some(args) => command_args(text@) == Some(args@),
                None => command_args(text@) is None,
            })
            &&& found.command == command_named(found.name@, command_args(text@))
        },
{
    let parts = split_words(text);
    if parts.len() == 0 {
        return None;
    }
    let name = read_command_name(parts[0].as_str());
    let args = if parts.len() > 1 {
        Some(join_words(&parts, 1))
    } else {
        None
    };
    let command = classify_command(name.as_str(), &args);
    Some(CommandLine { command, name, args })
}

fn classify_command(name: &str, args: &Option<String>) -> (command: Command)
    ensures
        command == command_named(
            name@,
            match *args {
                Some(given) => Some(given@),
                None => None,
            },
        ),
{
    if same_text(name, "start") {
        Command::Start
    } else if same_text(name, "help") {
        Command::Help
    } else if same_text(name, "music") || same_text(name, "netease") {
        Command::Music
    } else if same_text(name, "search") {
        Command::Search
    } else if same_text(name, "about") {
        Command::About
    } else if same_text(name, "lyric") {
        Command::Lyric
    } else if same_text(name, "status") {
        Command::Status
    } else if same_text(name, "rmcache") {
        Command::RmCache
    } else if same_text(name, "clearallcache") {
        match args {
            Some(given) => if same_text(trim(given.as_str()), "confirm") {
                Command::ClearAllCacheConfirm
            } else {
                Command::ClearAllCache
            },
            None => Command::ClearAllCache,
        }
    } else {
        Command::Unknown
    }
}

/// Whether a message that is no command holds a link to the catalog.
pub fn is_music_link(text: &str) -> (link: bool)
    ensures
        link == (contains_text(text@, "music.163.com"@) || contains_text(text@, "163cn.tv"@)
            || contains_text(text@, "163cn.link"@)),
{
    str_contains(text, "music.163.com") || str_contains(text, "163cn.tv") || str_contains(
        text,
        "163cn.link",
    )
}

/// The track that the button of a search result asks for: the number behind
/// the word `music`.
pub open spec fn callback_track(data: Seq<char>) -> Option<u64> {
    if words(data).len() >= 2 && words(data)[0] == "music"@ {
        parsed_u64(words(data)[1])
    } else {
        None
    }
}

/// Reads the track that the button of a search result asks for.
pub fn parse_callback(data: &str) -> (track: Option<u64>)
    ensures
        track == callback_track(data@),
{
    let parts = split_words(data);
    if parts.len() >= 2 && same_text(parts[0].as_str(), "music") {
        parse_u64(parts[1].as_str())
    } else {
        None
    }
}

/// An inline query, taken apart.
#[derive(Debug)]
pub struct InlineRequest {
    /// What to search for; empty where the query names nothing.
    pub keyword: String,
    /// The query began with the word `search`.
    pub is_search: bool,
}

/// The word `search` in small letters.
pub open spec fn search_word() -> Seq<char> {
    seq!['s', 'e', 'a', 'r', 'c', 'h']
}

/// Whether `text` begins with the word `search`, in either case of its letters.
pub open spec fn begins_with_search(text: Seq<char>) -> bool {
    text.len() >= 6 && text.subrange(0, 6).map_values(|c: char| ascii_lower(c)) == search_word()
}

/// The keyword of an inline query. White space around the query does not
/// count. A query that begins with `search` and a space searches for what
/// follows; one that begins with `search` alone names nothing; any other
/// query is itself the keyword.
pub open spec fn inline_keyword(query: Seq<char>) -> Seq<char> {
    let text = trimmed(query);
    if begins_with_search(text) {
        if text.len() >= 7 && text[6] == ' ' {
            trimmed(text.subrange(7, text.len() as int))
        } else {
            Seq::empty()
        }
    } else {
        text
    }
}

/// Takes an inline query apart.
pub fn parse_inline_query(query: &str) -> (request: InlineRequest)
    ensures
        request.keyword@ == inline_keyword(query@),
        request.is_search == begins_with_search(trimmed(query@)),
{
    let text = trim(query);
    let len = text.unicode_len();
    let is_search = len >= 6 && small_letter(text.get_char(0)) == 's' && small_letter(
        text.get_char(1),
    ) == 'e' && small_letter(text.get_char(2)) == 'a' && small_letter(text.get_char(3)) == 'r'
        && small_letter(text.get_char(4)) == 'c' && small_letter(text.get_char(5)) == 'h';
    proof {
        if len >= 6 {
            let head = text@.subrange(0, 6).map_values(|c: char| ascii_lower(c));
            assert(head.len() == 6);
            assert(head[0] == ascii_lower(text@[0]) && head[1] == ascii_lower(text@[1]) && head[2]
                == ascii_lower(text@[2]) && head[3] == ascii_lower(text@[3]) && head[4]
                == ascii_lower(text@[4]) && head[5] == ascii_lower(text@[5]));
            if is_search {
                assert(head =~= search_word());
            }
        }
    }
    let keyword = if is_search {
        if len >= 7 && text.get_char(6) == ' ' {
            trim(text.substring_char(7, len)).to_owned()
        } else {
            String::new()
        }
    } else {
        text.to_owned()
    };
    InlineRequest { keyword, is_search }
}

} // verus!
