//! Small text helpers.

use vstd::prelude::*;
use vstd::string::StrSliceExecFns;

verus! {

/// Whether a character is white space as Unicode defines it.
pub open spec fn is_white_space(c: char) -> bool {
    let code = c as u32;
    (0x09 <= code <= 0x0D) || code == 0x20 || code == 0x85 || code == 0xA0 || code == 0x1680 || (
    0x2000 <= code <= 0x200A) || code == 0x2028 || code == 0x2029 || code == 0x202F || code
        == 0x205F || code == 0x3000
}

/// The number of white-space characters that `text` begins with.
pub open spec fn leading_space(text: Seq<char>) -> nat
    decreases text.len(),
{
    if text.len() > 0 && is_white_space(text.first()) {
        1 + leading_space(text.drop_first())
    } else {
        0
    }
}

/// The number of white-space characters that `text` ends with.
pub open spec fn trailing_space(text: Seq<char>) -> nat
    decreases text.len(),
{
    if text.len() > 0 && is_white_space(text.last()) {
        1 + trailing_space(text.drop_last())
    } else {
        0
    }
}

/// `text` without the white space at its ends.
pub open spec fn trimmed(text: Seq<char>) -> Seq<char> {
    if leading_space(text) == text.len() {
        Seq::empty()
    } else {
        text.subrange(leading_space(text) as int, text.len() - trailing_space(text))
    }
}

pub fn white_space(c: char) -> (white: bool)
    ensures
        white == is_white_space(c),
{
    let code = c as u32;
    (0x09 <= code && code <= 0x0D) || code == 0x20 || code == 0x85 || code == 0xA0 || code
        == 0x1680 || (0x2000 <= code && code <= 0x200A) || code == 0x2028 || code == 0x2029
        || code == 0x202F || code == 0x205F || code == 0x3000
}

/// White space up to `count`, and none at `count`, is the white space that
/// `text` begins with.
pub proof fn lemma_leading_space(text: Seq<char>, count: int)
    requires
        0 <= count <= text.len(),
        forall|i: int| 0 <= i < count ==> is_white_space(#[trigger] text[i]),
        count == text.len() || !is_white_space(text[count]),
    ensures
        leading_space(text) == count,
    decreases count,
{
    if count > 0 {
        let rest = text.drop_first();
        assert(forall|i: int| 0 <= i < count - 1 ==> #[trigger] rest[i] == text[i + 1]);
        lemma_leading_space(rest, count - 1);
    }
}

/// White space from `from` on, and none before `from`, is the white space
/// that `text` ends with.
pub proof fn lemma_trailing_space(text: Seq<char>, from: int)
    requires
        0 <= from <= text.len(),
        forall|i: int| from <= i < text.len() ==> is_white_space(#[trigger] text[i]),
        from == 0 || !is_white_space(text[from - 1]),
    ensures
        trailing_space(text) == text.len() - from,
    decreases text.len() - from,
{
    if from < text.len() {
        let rest = text.drop_last();
        assert(forall|i: int| 0 <= i < rest.len() ==> #[trigger] rest[i] == text[i]);
        lemma_trailing_space(rest, from);
    }
}

/// Cuts the white space off both ends of `text`.
pub fn trim(text: &str) -> (cut: &str)
    ensures
        cut@ == trimmed(text@),
{
    let total = text.unicode_len();
    let mut first: usize = 0;
    let mut end: usize = 0;
    let mut seen: usize = 0;
    let mut found = false;
    for c in it: text.chars()
        invariant
            it.seq() == text@,
            seen == it.index(),
            total == text@.len(),
            !found ==> first == 0 && end == 0 && forall|i: int|
                0 <= i < seen ==> is_white_space(#[trigger] text@[i]),
            found ==> first < end <= seen && !is_white_space(text@[first as int])
                && !is_white_space(text@[end - 1]) && (forall|i: int|
                0 <= i < first ==> is_white_space(#[trigger] text@[i])) && (forall|i: int|
                end <= i < seen ==> is_white_space(#[trigger] text@[i])),
    {
        if !white_space(c) {
            if !found {
                first = seen;
                found = true;
            }
            end = seen + 1;
        }
        seen = seen + 1;
    }
    proof {
        if found {
            lemma_leading_space(text@, first as int);
            lemma_trailing_space(text@, end as int);
        } else {
            lemma_leading_space(text@, text@.len() as int);
            assert(text@.subrange(0, 0) =~= Seq::<char>::empty());
        }
    }
    text.substring_char(first, end)
}

/// Whether `needle` stands somewhere in `haystack`.
pub open spec fn contains_text(haystack: Seq<char>, needle: Seq<char>) -> bool {
    exists|at: int|
        0 <= at && at + needle.len() <= haystack.len() && #[trigger] haystack.subrange(
            at,
            at + needle.len(),
        ) == needle
}

/// The characters of a text.
pub fn chars_of(text: &str) -> (chars: Vec<char>)
    ensures
        chars@ == text@,
{
    let mut chars: Vec<char> = Vec::new();
    for c in it: text.chars()
        invariant
            it.seq() == text@,
            chars@ == text@.subrange(0, it.index() as int),
    {
        chars.push(c);
        assert(chars@ =~= text@.subrange(0, it.index() + 1));
    }
    assert(text@.subrange(0, text@.len() as int) =~= text@);
    chars
}

fn matches_at(haystack: &Vec<char>, needle: &Vec<char>, at: usize) -> (same: bool)
    requires
        at + needle@.len() <= haystack@.len(),
    ensures
        same == (haystack@.subrange(at as int, at + needle@.len()) == needle@),
{
    let total = haystack.len();
    let mut i: usize = 0;
    while i < needle.len()
        invariant
            i <= needle@.len(),
            at + needle@.len() <= haystack@.len() == total,
            forall|k: int| 0 <= k < i ==> haystack@[at + k] == needle@[k],
        decreases needle@.len() - i,
    {
        if haystack[at + i] != needle[i] {
            assert(haystack@.subrange(at as int, at + needle@.len())[i as int] != needle@[i as int]);
            return false;
        }
        i = i + 1;
    }
    assert(haystack@.subrange(at as int, at + needle@.len()) =~= needle@);
    true
}

/// Says whether `needle` stands somewhere in `haystack`.
pub fn str_contains(haystack: &str, needle: &str) -> (found: bool)
    ensures
        found == contains_text(haystack@, needle@),
{
    let hay = chars_of(haystack);
    let pin = chars_of(needle);
    if pin.len() > hay.len() {
        return false;
    }
    let last = hay.len() - pin.len();
    let mut at: usize = 0;
    loop
        invariant
            hay@ == haystack@,
            pin@ == needle@,
            last == hay@.len() - pin@.len(),
            at <= last,
            forall|k: int| 0 <= k < at ==> #[trigger] hay@.subrange(k, k + pin@.len()) != pin@,
        decreases last - at,
    {
        if matches_at(&hay, &pin, at) {
            return true;
        }
        if at == last {
            return false;
        }
        at = at + 1;
    }
}

/// `String::push`: the character is appended.
#[verifier::external_body]
pub(crate) fn push_char(text: &mut String, c: char)
    ensures
        final(text)@ == old(text)@.push(c),
{
    text.push(c);
}

/// The decimal digit of a number below ten.
pub open spec fn digit_char(digit: nat) -> char {
    if digit == 0 {
        '0'
    } else if digit == 1 {
        '1'
    } else if digit == 2 {
        '2'
    } else if digit == 3 {
        '3'
    } else if digit == 4 {
        '4'
    } else if digit == 5 {
        '5'
    } else if digit == 6 {
        '6'
    } else if digit == 7 {
        '7'
    } else if digit == 8 {
        '8'
    } else {
        '9'
    }
}

/// A number in decimal digits, without leading zeros.
pub open spec fn decimal(number: nat) -> Seq<char>
    decreases number,
{
    if number < 10 {
        seq![digit_char(number)]
    } else {
        decimal(number / 10).push(digit_char(number % 10))
    }
}

/// A number in at least two decimal digits.
pub open spec fn two_digits(number: nat) -> Seq<char> {
    if number < 10 {
        seq!['0'] + decimal(number)
    } else {
        decimal(number)
    }
}

fn digit(value: u64) -> (c: char)
    requires
        value < 10,
    ensures
        c == digit_char(value as nat),
{
    if value == 0 {
        '0'
    } else if value == 1 {
        '1'
    } else if value == 2 {
        '2'
    } else if value == 3 {
        '3'
    } else if value == 4 {
        '4'
    } else if value == 5 {
        '5'
    } else if value == 6 {
        '6'
    } else if value == 7 {
        '7'
    } else if value == 8 {
        '8'
    } else {
        '9'
    }
}

/// Appends `number` in decimal digits to `text`.
pub fn push_decimal(text: &mut String, number: u64)
    ensures
        final(text)@ == old(text)@ + decimal(number as nat),
    decreases number,
{
    if number >= 10 {
        push_decimal(text, number / 10);
    }
    push_char(text, digit(number % 10));
    assert(text@ =~= old(text)@ + decimal(number as nat));
}

/// Whether a character is one of the ASCII digits.
pub open spec fn is_digit(c: char) -> bool {
    0x30 <= c as u32 <= 0x39
}

/// The value of a string of ASCII digits.
pub open spec fn digits_value(digits: Seq<char>) -> nat
    decreases digits.len(),
{
    if digits.len() == 0 {
        0
    } else {
        digits_value(digits.drop_last()) * 10 + (digits.last() as u32 - 0x30) as nat
    }
}

/// The digits of `text`: all of it, but for one leading `+`.
pub open spec fn unsigned_digits(text: Seq<char>) -> Seq<char> {
    if text.len() > 0 && text[0] == '+' {
        text.drop_first()
    } else {
        text
    }
}

/// The number that `text` is read as: an optional `+` and then one or more
/// ASCII digits whose value fits in 64 bits; `None` for any other text.
pub open spec fn parsed_u64(text: Seq<char>) -> Option<u64> {
    let digits = unsigned_digits(text);
    if digits.len() > 0 && (forall|i: int| 0 <= i < digits.len() ==> is_digit(#[trigger] digits[i]))
        && digits_value(digits) <= u64::MAX {
        Some(digits_value(digits) as u64)
    } else {
        None
    }
}

/// The value of a string of digits is no smaller than that of any of its
/// beginnings.
pub proof fn lemma_digits_value_grows(digits: Seq<char>, upto: int)
    requires
        0 <= upto <= digits.len(),
        forall|i: int| 0 <= i < digits.len() ==> is_digit(#[trigger] digits[i]),
    ensures
        digits_value(digits.subrange(0, upto)) <= digits_value(digits),
    decreases digits.len() - upto,
{
    if upto == digits.len() {
        assert(digits.subrange(0, upto) =~= digits);
    } else {
        let longer = digits.subrange(0, upto + 1);
        assert(longer.drop_last() =~= digits.subrange(0, upto));
        assert(is_digit(digits[upto]));
        lemma_digits_value_grows(digits, upto + 1);
    }
}

/// Reads an unsigned decimal number.
pub fn parse_u64(text: &str) -> (number: Option<u64>)
    ensures
        number == parsed_u64(text@),
{
    let total = text.unicode_len();
    let mut value: u64 = 0;
    let mut seen: usize = 0;
    let mut count: usize = 0;
    let ghost digits = unsigned_digits(text@);
    for c in it: text.chars()
        invariant
            it.seq() == text@,
            seen == it.index(),
            total == text@.len(),
            digits == unsigned_digits(text@),
            count <= seen,
            seen - count <= 1,
            seen - count == (if seen > 0 && text@[0] == '+' {
                1int
            } else {
                0int
            }),
            forall|i: int| 0 <= i < count ==> is_digit(#[trigger] digits[i]),
            value as nat == digits_value(digits.subrange(0, count as int)),
    {
        if seen == 0 && c == '+' {
            seen = seen + 1;
        } else {
            let code = c as u32;
            if code < 0x30 || code > 0x39 {
                assert(!is_digit(digits[count as int]));
                return None;
            }
            let step: u64 = (code - 0x30) as u64;
            proof {
                let longer = digits.subrange(0, count + 1);
                assert(longer.drop_last() =~= digits.subrange(0, count as int));
                assert(longer.last() == c);
                assert(digits_value(longer) == value * 10 + step);
                assert(forall|i: int| 0 <= i < count + 1 ==> is_digit(#[trigger] digits[i]));
            }
            if value > (u64::MAX - step) / 10 {
                proof {
                    if forall|i: int| 0 <= i < digits.len() ==> is_digit(#[trigger] digits[i]) {
                        lemma_digits_value_grows(digits, count + 1);
                    }
                }
                return None;
            }
            value = value * 10 + step;
            count = count + 1;
            seen = seen + 1;
        }
    }
    assert(digits.subrange(0, count as int) =~= digits);
    if count == 0 {
        None
    } else {
        Some(value)
    }
}

/// The number that `text` is read as where it fits in 32 bits.
pub open spec fn parsed_u32(text: Seq<char>) -> Option<u32> {
    match parsed_u64(text) {
        Some(number) => if number <= u32::MAX {
            Some(number as u32)
        } else {
            None
        },
        None => None,
    }
}

/// Reads an unsigned decimal number of 32 bits.
pub fn parse_u32(text: &str) -> (number: Option<u32>)
    ensures
        number == parsed_u32(text@),
{
    match parse_u64(text) {
        Some(number) => if number <= u32::MAX as u64 {
            Some(number as u32)
        } else {
            None
        },
        None => None,
    }
}

/// The number that `text` is read as where it fits in a `usize`.
pub open spec fn parsed_usize(text: Seq<char>) -> Option<usize> {
    match parsed_u64(text) {
        Some(number) => if number <= usize::MAX {
            Some(number as usize)
        } else {
            None
        },
        None => None,
    }
}

/// Reads an unsigned decimal number of the machine's word size.
pub fn parse_usize(text: &str) -> (number: Option<usize>)
    ensures
        number == parsed_usize(text@),
{
    match parse_u64(text) {
        Some(number) => if number <= usize::MAX as u64 {
            Some(number as usize)
        } else {
            None
        },
        None => None,
    }
}

/// The number that `text` is read as: an optional sign and then one or more
/// ASCII digits whose signed value fits in 64 bits; `None` for any other text.
pub open spec fn parsed_i64(text: Seq<char>) -> Option<i64> {
    if text.len() > 0 && text[0] == '-' {
        let digits = text.drop_first();
        if digits.len() > 0 && digits[0] != '+' {
            match parsed_u64(digits) {
                Some(size) => if size <= 0x8000_0000_0000_0000 {
                    Some((-(size as int)) as i64)
                } else {
                    None
                },
                None => None,
            }
        } else {
            None
        }
    } else {
        match parsed_u64(text) {
            Some(number) => if number <= i64::MAX {
                Some(number as i64)
            } else {
                None
            },
            None => None,
        }
    }
}

/// Reads a signed decimal number.
pub fn parse_i64(text: &str) -> (number: Option<i64>)
    ensures
        number == parsed_i64(text@),
{
    let total = text.unicode_len();
    if total > 0 && text.get_char(0) == '-' {
        let digits = text.substring_char(1, total);
        assert(digits@ =~= text@.drop_first());
        if total == 1 || digits.get_char(0) == '+' {
            return None;
        }
        match parse_u64(digits) {
            Some(size) => if size < 0x8000_0000_0000_0000 {
                Some(-(size as i64))
            } else if size == 0x8000_0000_0000_0000 {
                Some(i64::MIN)
            } else {
                None
            },
            None => None,
        }
    } else {
        match parse_u64(text) {
            Some(number) => if number <= i64::MAX as u64 {
                Some(number as i64)
            } else {
                None
            },
            None => None,
        }
    }
}

/// A text in lower case, as `str::to_lowercase` gives it.
pub uninterp spec fn lowercase(text: Seq<char>) -> Seq<char>;

/// `str::to_lowercase`: the text in lower case, by the rules of Unicode.
#[verifier::external_body]
pub(crate) fn to_lowercase(text: &str) -> (lower: String)
    ensures
        lower@ == lowercase(text@),
{
    text.to_lowercase()
}

/// Whether two texts hold the same characters.
pub fn same_text(left: &str, right: &str) -> (same: bool)
    ensures
        same == (left@ == right@),
{
    let left_owned = left.to_owned();
    let right_owned = right.to_owned();
    left_owned == right_owned
}

/// The position of the first `wanted` in `text`, if there is one.
pub open spec fn position_of(text: Seq<char>, wanted: char) -> Option<int>
    decreases text.len(),
{
    if text.len() == 0 {
        None
    } else if text[0] == wanted {
        Some(0)
    } else {
        match position_of(text.drop_first(), wanted) {
            Some(at) => Some(at + 1),
            None => None,
        }
    }
}

/// A character that stands at `at` and nowhere before it is found at `at`.
pub proof fn lemma_position_of(text: Seq<char>, wanted: char, at: int)
    requires
        0 <= at <= text.len(),
        forall|i: int| 0 <= i < at ==> #[trigger] text[i] != wanted,
        at == text.len() || text[at] == wanted,
    ensures
        position_of(text, wanted) == (if at == text.len() {
            None
        } else {
            Some(at)
        }),
    decreases at,
{
    if at > 0 {
        let rest = text.drop_first();
        assert(forall|i: int| 0 <= i < at - 1 ==> #[trigger] rest[i] == text[i + 1]);
        lemma_position_of(rest, wanted, at - 1);
    }
}

/// Finds the first `wanted` in `text`.
pub fn find_char(text: &str, wanted: char) -> (position: Option<usize>)
    ensures
        match position_of(text@, wanted) {
            Some(at) => position == Some(at as usize) && 0 <= at < text@.len(),
            None => position is None,
        },
{
    let total = text.unicode_len();
    let mut seen: usize = 0;
    for c in it: text.chars()
        invariant
            it.seq() == text@,
            seen == it.index(),
            total == text@.len(),
            forall|i: int| 0 <= i < seen ==> #[trigger] text@[i] != wanted,
    {
        if c == wanted {
            proof {
                lemma_position_of(text@, wanted, seen as int);
            }
            return Some(seen);
        }
        seen = seen + 1;
    }
    proof {
        lemma_position_of(text@, wanted, text@.len() as int);
    }
    None
}

/// A character with the ASCII capitals mapped to their small letters.
pub open spec fn ascii_lower(c: char) -> char {
    if 0x41 <= c as u32 <= 0x5A {
        ((c as u32 + 32) as u8) as char
    } else {
        c
    }
}

/// Whether two texts are the same but for the case of their ASCII letters.
pub open spec fn same_ignoring_ascii_case(left: Seq<char>, right: Seq<char>) -> bool {
    left.map_values(|c: char| ascii_lower(c)) == right.map_values(|c: char| ascii_lower(c))
}

/// Maps an ASCII capital to its small letter.
pub fn small_letter(c: char) -> (lower: char)
    ensures
        lower == ascii_lower(c),
{
    let code = c as u32;
    if 0x41 <= code && code <= 0x5A {
        ((code + 32) as u8) as char
    } else {
        c
    }
}

/// Says whether two texts are the same but for the case of their ASCII letters.
pub fn eq_ignore_ascii_case(left: &str, right: &str) -> (same: bool)
    ensures
        same == same_ignoring_ascii_case(left@, right@),
{
    let a = chars_of(left);
    let b = chars_of(right);
    let ghost lower_a = left@.map_values(|c: char| ascii_lower(c));
    let ghost lower_b = right@.map_values(|c: char| ascii_lower(c));
    if a.len() != b.len() {
        assert(lower_a.len() != lower_b.len());
        return false;
    }
    let mut at: usize = 0;
    while at < a.len()
        invariant
            a@ == left@,
            b@ == right@,
            a@.len() == b@.len(),
            at <= a@.len(),
            lower_a == left@.map_values(|c: char| ascii_lower(c)),
            lower_b == right@.map_values(|c: char| ascii_lower(c)),
            forall|k: int| 0 <= k < at ==> lower_a[k] == lower_b[k],
        decreases a@.len() - at,
    {
        if small_letter(a[at]) != small_letter(b[at]) {
            assert(lower_a[at as int] != lower_b[at as int]);
            return false;
        }
        at = at + 1;
    }
    assert(lower_a =~= lower_b);
    true
}

} // verus!
