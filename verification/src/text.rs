//! Text that error messages and labels are made of and searched for.

use vstd::prelude::*;
use vstd::string::*;

verus! {

/// Whether `needle` stands in `text` at `at`.
pub open spec fn occurs_at(text: Seq<char>, needle: Seq<char>, at: int) -> bool {
    &&& 0 <= at <= text.len() - needle.len()
    &&& text.subrange(at, at + needle.len()) == needle
}

/// Whether `needle` stands somewhere in `text`.
pub open spec fn contains_text(text: Seq<char>, needle: Seq<char>) -> bool {
    exists|at: int| occurs_at(text, needle, at)
}

/// Whether one of `needles` stands somewhere in `text`.
pub open spec fn contains_any_text(text: Seq<char>, needles: Seq<Seq<char>>) -> bool {
    exists|i: int| 0 <= i < needles.len() && contains_text(text, #[trigger] needles[i])
}

/// The characters of each string.
pub open spec fn texts(strings: Seq<&str>) -> Seq<Seq<char>> {
    Seq::new(strings.len(), |i: int| strings[i]@)
}

/// Calls `str::contains` with a string as the pattern: true if and only if the pattern is a
/// sub-slice of the text.
#[verifier::external_body]
pub(crate) fn str_contains(text: &str, needle: &str) -> (found: bool)
    ensures
        found == contains_text(text@, needle@),
{
    text.contains(needle)
}

/// Whether `text` contains one of `needles`.
pub fn contains_any(text: &str, needles: &[&str]) -> (found: bool)
    ensures
        found == contains_any_text(text@, texts(needles@)),
{
    let mut i: usize = 0;
    while i < needles.len()
        invariant
            i <= needles.len(),
            forall|j: int| 0 <= j < i ==> !contains_text(text@, #[trigger] needles@[j]@),
        decreases needles.len() - i,
    {
        if str_contains(text, needles[i]) {
            assert(texts(needles@)[i as int] == needles@[i as int]@);
            return true;
        }
        i = i + 1;
    }
    assert forall|j: int| 0 <= j < texts(needles@).len() implies !contains_text(
        text@,
        #[trigger] texts(needles@)[j],
    ) by {
        assert(texts(needles@)[j] == needles@[j]@);
    }
    false
}

/// Whether a character is a decimal digit.
pub open spec fn is_digit_char(c: char) -> bool {
    '0' <= c <= '9'
}

/// Whether a character is a hexadecimal digit in lower case.
pub open spec fn is_hex_char(c: char) -> bool {
    '0' <= c <= '9' || 'a' <= c <= 'f'
}

/// Whether `text` holds "0x" at `start` and nothing but hexadecimal digits from there to `at`.
pub open spec fn hex_reaches(text: Seq<char>, start: int, at: int) -> bool {
    &&& 0 <= start
    &&& start + 2 <= at <= text.len()
    &&& text[start] == '0'
    &&& text[start + 1] == 'x'
    &&& forall|k: int| start + 2 <= k < at ==> is_hex_char(#[trigger] text[k])
}

/// Whether `at` stands right after a hexadecimal number, or within it, in `text`.
pub open spec fn follows_hex(text: Seq<char>, at: int) -> bool {
    exists|start: int| hex_reaches(text, start, at)
}

/// Whether a character is an ASCII letter or digit.
pub open spec fn is_word_char(c: char) -> bool {
    '0' <= c <= '9' || 'a' <= c <= 'z' || 'A' <= c <= 'Z'
}

/// Whether `number` stands in `text` at `at` and begins there: no digit and no hexadecimal number
/// comes right before it.
pub open spec fn begins_at(text: Seq<char>, number: Seq<char>, at: int) -> bool {
    &&& occurs_at(text, number, at)
    &&& at == 0 || !is_digit_char(text[at - 1])
    &&& !follows_hex(text, at)
}

/// Whether a number that begins with `number` stands somewhere in `text`.
pub open spec fn begins_number(text: Seq<char>, number: Seq<char>) -> bool {
    exists|at: int| begins_at(text, number, at)
}

/// Whether `number` stands in `text` at `at` and is no part of a longer number: it begins there,
/// and no digit comes right after it.
pub open spec fn alone_at(text: Seq<char>, number: Seq<char>, at: int) -> bool {
    &&& begins_at(text, number, at)
    &&& at + number.len() == text.len() || !is_digit_char(text[at + number.len()])
}

/// Whether `number` stands somewhere in `text` as a number of its own.
pub open spec fn stands_alone(text: Seq<char>, number: Seq<char>) -> bool {
    exists|at: int| alone_at(text, number, at)
}

/// Whether a minus sign comes right before `at` in `text`, and no hyphen between words or numbers.
pub open spec fn is_signed(text: Seq<char>, at: int) -> bool {
    &&& 0 < at <= text.len()
    &&& text[at - 1] == '-'
    &&& at == 1 || !is_word_char(text[at - 2])
}

/// Whether "code" stands in `text` at `word` with no letter and no digit between it and `at`.
pub open spec fn code_reaches(text: Seq<char>, word: int, at: int) -> bool {
    &&& occurs_at(text, "code"@, word)
    &&& word + 4 <= at <= text.len()
    &&& forall|k: int| word + 4 <= k < at ==> !is_word_char(#[trigger] text[k])
}

/// Whether a number at `at` in `text` is presented as a code: it is negative or follows the word
/// "code".
pub open spec fn presents_code(text: Seq<char>, at: int) -> bool {
    is_signed(text, at) || exists|word: int| code_reaches(text, word, at)
}

/// Whether the digits of `text` from `start` to `at` begin a number that is presented as a code.
pub open spec fn code_digits(text: Seq<char>, start: int, at: int) -> bool {
    &&& 0 <= start <= at <= text.len()
    &&& forall|k: int| start <= k < at ==> is_digit_char(#[trigger] text[k])
    &&& presents_code(text, start)
}

/// Whether `digits` stands in `text` at `at`, within a number that is presented as a code.
pub open spec fn in_code_at(text: Seq<char>, digits: Seq<char>, at: int) -> bool {
    &&& occurs_at(text, digits, at)
    &&& exists|start: int| code_digits(text, start, at)
}

/// Whether `digits` stands somewhere in `text` within a number that is presented as a code.
pub open spec fn stands_in_code(text: Seq<char>, digits: Seq<char>) -> bool {
    exists|at: int| in_code_at(text, digits, at)
}

/// The characters of a text.
fn chars_of(text: &str) -> (chars: Vec<char>)
    ensures
        chars@ == text@,
{
    let mut chars: Vec<char> = Vec::new();
    for c in it: text.chars()
        invariant
            it.seq() == text@,
            chars@ == it.seq().take(it.index() as int),
    {
        chars.push(c);
    }
    assert(text@.take(text@.len() as int) =~= text@);
    chars
}

/// Whether `needle` stands in `text` at `at`.
fn occurs_in_chars(text: &Vec<char>, needle: &Vec<char>, at: usize) -> (found: bool)
    requires
        at <= text@.len(),
    ensures
        found == occurs_at(text@, needle@, at as int),
{
    if needle.len() > text.len() - at {
        return false;
    }
    let mut i: usize = 0;
    while i < needle.len()
        invariant
            i <= needle@.len(),
            at + needle.len() <= text.len(),
            forall|k: int| 0 <= k < i ==> text@[at + k] == needle@[k],
        decreases needle@.len() - i,
    {
        if text[at + i] != needle[i] {
            assert(text@.subrange(at as int, at + needle@.len())[i as int] != needle@[i as int]);
            return false;
        }
        i = i + 1;
    }
    assert(text@.subrange(at as int, at + needle@.len()) =~= needle@);
    true
}

/// Whether `at` stands right after a hexadecimal number, or within it, in `text`.
fn follows_hex_in_chars(text: &Vec<char>, at: usize) -> (found: bool)
    requires
        at <= text@.len(),
    ensures
        found == follows_hex(text@, at as int),
{
    let mut first: usize = at;
    while first > 0 && (('0' <= text[first - 1] && text[first - 1] <= '9') || ('a' <= text[first
        - 1] && text[first - 1] <= 'f'))
        invariant
            first <= at <= text@.len(),
            forall|k: int| first <= k < at ==> is_hex_char(#[trigger] text@[k]),
        decreases first,
    {
        first = first - 1;
    }
    let found: bool = first >= 2 && text[first - 1] == 'x' && text[first - 2] == '0';
    proof {
        if found {
            assert(hex_reaches(text@, first - 2, at as int));
        }
        if follows_hex(text@, at as int) {
            let start = choose|start: int| hex_reaches(text@, start, at as int);
            // The "x" is no hexadecimal digit, so the digits before `at` begin right after it.
            assert(start + 2 <= first) by {
                if first < start + 2 {
                    assert(is_hex_char(text@[start + 1]));
                }
            }
            assert(first <= start + 2) by {
                if first > start + 2 {
                    assert(is_hex_char(text@[first - 1]));
                }
            }
        }
    }
    found
}

/// Whether `number` stands in `text` at `at` and begins there.
fn begins_in_chars(text: &Vec<char>, number: &Vec<char>, at: usize) -> (found: bool)
    requires
        at <= text@.len(),
    ensures
        found == begins_at(text@, number@, at as int),
{
    occurs_in_chars(text, number, at) && (at == 0 || !('0' <= text[at - 1] && text[at - 1] <= '9'))
        && !follows_hex_in_chars(text, at)
}

/// Whether a number that begins with `number` stands somewhere in `text`.
pub fn contains_beginning(text: &str, number: &str) -> (found: bool)
    ensures
        found == begins_number(text@, number@),
{
    let chars: Vec<char> = chars_of(text);
    let digits: Vec<char> = chars_of(number);
    if digits.len() > chars.len() {
        return false;
    }
    let last: usize = chars.len() - digits.len();
    let mut at: usize = 0;
    loop
        invariant
            chars@ == text@,
            digits@ == number@,
            at <= last,
            last + digits.len() == chars.len(),
            forall|k: int| 0 <= k < at ==> !begins_at(text@, number@, k),
        decreases last - at,
    {
        if begins_in_chars(&chars, &digits, at) {
            return true;
        }
        if at == last {
            return false;
        }
        at = at + 1;
    }
}

/// Whether `number` stands somewhere in `text` as a number of its own, neither part of a longer
/// one nor of a hexadecimal one.
pub fn contains_alone(text: &str, number: &str) -> (found: bool)
    ensures
        found == stands_alone(text@, number@),
{
    let chars: Vec<char> = chars_of(text);
    let digits: Vec<char> = chars_of(number);
    if digits.len() > chars.len() {
        return false;
    }
    let last: usize = chars.len() - digits.len();
    let mut at: usize = 0;
    loop
        invariant
            chars@ == text@,
            digits@ == number@,
            at <= last,
            last + digits.len() == chars.len(),
            forall|k: int| 0 <= k < at ==> !alone_at(text@, number@, k),
        decreases last - at,
    {
        if begins_in_chars(&chars, &digits, at) {
            let end: usize = at + digits.len();
            if end == chars.len() || !('0' <= chars[end] && chars[end] <= '9') {
                assert(alone_at(text@, number@, at as int));
                return true;
            }
        }
        if at == last {
            return false;
        }
        at = at + 1;
    }
}

/// Whether a character is an ASCII letter or digit.
fn is_word(c: char) -> (found: bool)
    ensures
        found == is_word_char(c),
{
    ('0' <= c && c <= '9') || ('a' <= c && c <= 'z') || ('A' <= c && c <= 'Z')
}

/// Whether a number at `at` in `text` is presented as a code.
fn presents_code_in_chars(text: &Vec<char>, at: usize) -> (found: bool)
    requires
        at <= text@.len(),
    ensures
        found == presents_code(text@, at as int),
{
    if at > 0 && text[at - 1] == '-' && (at == 1 || !is_word(text[at - 2])) {
        return true;
    }
    let mut end: usize = at;
    while end > 0 && !is_word(text[end - 1])
        invariant
            end <= at <= text@.len(),
            forall|k: int| end <= k < at ==> !is_word_char(#[trigger] text@[k]),
        decreases end,
    {
        end = end - 1;
    }
    let code: Vec<char> = chars_of("code");
    proof {
        reveal_strlit("code");
    }
    let found: bool = end >= 4 && occurs_in_chars(text, &code, end - 4);
    proof {
        if found {
            assert(code_reaches(text@, end - 4, at as int));
        }
        if exists|word: int| code_reaches(text@, word, at as int) {
            let word = choose|word: int| code_reaches(text@, word, at as int);
            // The word ends in a letter, so what is between it and `at` begins right after it.
            assert(text@.subrange(word, word + 4)[3] == text@[word + 3]);
            assert(is_word_char(text@[word + 3]));
            assert(word + 4 <= end) by {
                if end < word + 4 {
                    assert(!is_word_char(text@[word + 3]));
                }
            }
            assert(end <= word + 4) by {
                if end > word + 4 {
                    assert(!is_word_char(text@[end - 1]));
                }
            }
        }
    }
    found
}

/// A number that is presented as a code does not begin in the middle of its digits.
pub proof fn lemma_code_begins_before_its_digits(text: Seq<char>, at: int)
    requires
        0 < at <= text.len(),
        is_digit_char(text[at - 1]),
    ensures
        !presents_code(text, at),
{
    reveal_strlit("code");
    if exists|word: int| code_reaches(text, word, at) {
        let word = choose|word: int| code_reaches(text, word, at);
        assert(text.subrange(word, word + 4)[3] == text[word + 3]);
    }
}

/// Whether `number` stands somewhere in `text` within a number that is presented as a code.
pub fn contains_in_code(text: &str, number: &str) -> (found: bool)
    ensures
        found == stands_in_code(text@, number@),
{
    let chars: Vec<char> = chars_of(text);
    let digits: Vec<char> = chars_of(number);
    if digits.len() > chars.len() {
        return false;
    }
    let last: usize = chars.len() - digits.len();
    let mut at: usize = 0;
    loop
        invariant
            chars@ == text@,
            digits@ == number@,
            at <= last,
            last + digits.len() == chars.len(),
            forall|k: int| 0 <= k < at ==> !in_code_at(text@, number@, k),
        decreases last - at,
    {
        if occurs_in_chars(&chars, &digits, at) {
            let mut start: usize = at;
            while start > 0 && '0' <= chars[start - 1] && chars[start - 1] <= '9'
                invariant
                    chars@ == text@,
                    start <= at <= text@.len(),
                    forall|k: int| start <= k < at ==> is_digit_char(#[trigger] text@[k]),
                decreases start,
            {
                start = start - 1;
            }
            if presents_code_in_chars(&chars, start) {
                assert(code_digits(text@, start as int, at as int));
                assert(in_code_at(text@, number@, at as int));
                return true;
            }
            assert forall|other: int| !code_digits(text@, other, at as int) by {
                if code_digits(text@, other, at as int) {
                    if other < start {
                        assert(is_digit_char(text@[start - 1]));
                    } else if other > start {
                        lemma_code_begins_before_its_digits(text@, other);
                    }
                }
            }
        }
        if at == last {
            return false;
        }
        at = at + 1;
    }
}

/// The lower-case form that `str::to_lowercase` gives a text.
pub uninterp spec fn lowercase(text: Seq<char>) -> Seq<char>;

/// An ASCII letter in lower case; any other character as it is.
pub open spec fn ascii_lowercase_char(c: char) -> char {
    if 'A' <= c <= 'Z' {
        (c as u8 + 32) as char
    } else {
        c
    }
}

/// A text with its ASCII letters in lower case.
pub open spec fn ascii_lowercase(text: Seq<char>) -> Seq<char> {
    Seq::new(text.len(), |i: int| ascii_lowercase_char(text[i]))
}

/// `str::to_lowercase`. The result is a function of the text. ASCII characters that begin a text
/// become, one for one, their ASCII lower-case forms at the beginning of the result, and a text
/// of nothing but ASCII characters becomes nothing but those. What becomes of other characters is
/// left unsaid.
pub assume_specification[ str::to_lowercase ](text: &str) -> (lowered: String)
    ensures
        lowered@ == lowercase(text@),
        vstd::utf8::is_ascii_chars(text@) ==> lowered@ == ascii_lowercase(text@),
        forall|n: int|
            0 <= n <= text@.len() && vstd::utf8::is_ascii_chars(#[trigger] text@.take(n))
                ==> ascii_lowercase(text@.take(n)).is_prefix_of(lowered@),
;

/// The digit `d` as a character.
pub open spec fn digit(d: nat) -> char {
    (0x30 + d) as char
}

/// `n` in decimal notation, without leading zeros.
pub open spec fn decimal(n: nat) -> Seq<char>
    decreases n,
{
    if n < 10 {
        seq![digit(n)]
    } else {
        decimal(n / 10).push(digit(n % 10))
    }
}

/// `n` in decimal notation, with a sign if it is negative.
pub open spec fn signed_decimal(n: int) -> Seq<char> {
    if n < 0 {
        seq!['-'] + decimal((-n) as nat)
    } else {
        decimal(n as nat)
    }
}

/// Numbers are written in digits and a sign, all of them ASCII, and lower-casing leaves them as
/// they are.
pub proof fn lemma_signed_decimal_is_plain(n: int)
    ensures
        forall|i: int|
            0 <= i < signed_decimal(n).len() ==> is_digit_char(#[trigger] signed_decimal(n)[i])
                || i == 0 && n < 0 && signed_decimal(n)[i] == '-',
        vstd::utf8::is_ascii_chars(signed_decimal(n)),
        ascii_lowercase(signed_decimal(n)) == signed_decimal(n),
{
    lemma_decimal_is_digits((if n < 0 {
        -n
    } else {
        n
    }) as nat);
    assert(ascii_lowercase(signed_decimal(n)) =~= signed_decimal(n));
}

proof fn lemma_decimal_is_digits(n: nat)
    ensures
        forall|i: int| 0 <= i < decimal(n).len() ==> '0' <= #[trigger] decimal(n)[i] <= '9',
    decreases n,
{
    if n >= 10 {
        lemma_decimal_is_digits(n / 10);
        assert forall|i: int| 0 <= i < decimal(n).len() implies '0' <= #[trigger] decimal(n)[i]
            <= '9' by {
            if i < decimal(n / 10).len() {
                assert(decimal(n)[i] == decimal(n / 10)[i]);
            }
        }
    }
}

/// Appends the digit `d`.
fn push_digit(text: &mut String, d: u64)
    requires
        d < 10,
    ensures
        final(text)@ == old(text)@.push(digit(d as nat)),
{
    let name: &str = match d {
        0 => "0",
        1 => "1",
        2 => "2",
        3 => "3",
        4 => "4",
        5 => "5",
        6 => "6",
        7 => "7",
        8 => "8",
        _ => "9",
    };
    proof {
        reveal_strlit("0");
        reveal_strlit("1");
        reveal_strlit("2");
        reveal_strlit("3");
        reveal_strlit("4");
        reveal_strlit("5");
        reveal_strlit("6");
        reveal_strlit("7");
        reveal_strlit("8");
        reveal_strlit("9");
        assert(name@ == seq![digit(d as nat)]);
    }
    text.append(name);
    assert(text@ == old(text)@.push(digit(d as nat)));
}

/// Appends `n` in decimal notation.
pub fn push_decimal(text: &mut String, n: u64)
    ensures
        final(text)@ == old(text)@ + decimal(n as nat),
    decreases n,
{
    if n >= 10 {
        push_decimal(text, n / 10);
    }
    push_digit(text, n % 10);
    assert(text@ == old(text)@ + decimal(n as nat));
}

/// Appends `n` in decimal notation, with a sign if it is negative.
pub fn push_signed_decimal(text: &mut String, n: i64)
    ensures
        final(text)@ == old(text)@ + signed_decimal(n as int),
{
    if n < 0 {
        proof {
            reveal_strlit("-");
        }
        text.append("-");
        assert(text@ == old(text)@ + seq!['-']);
        push_decimal(text, (-(n as i128)) as u64);
    } else {
        push_decimal(text, n as u64);
    }
    assert(text@ == old(text)@ + signed_decimal(n as int));
}

} // verus!
