//! What the searches find and what the writers write.

use vstd::prelude::*;

verus! {

/// A text contains what stands between two parts of it, and what it contains stands between two
/// parts of it.
pub proof fn law_contained_text_stands_between(
    before: Seq<char>,
    needle: Seq<char>,
    after: Seq<char>,
    text: Seq<char>,
)
    ensures
        crate::text::contains_text(before + needle + after, needle),
        crate::text::contains_text(text, needle) ==> exists|left: Seq<char>, right: Seq<char>|
            text == #[trigger] (left + needle + right),
{
    let whole = before + needle + after;
    let place = before.len() as int;
    assert(whole.subrange(place, place + needle.len()) =~= needle);
    assert(crate::text::occurs_at(whole, needle, place));
    if crate::text::contains_text(text, needle) {
        let at = choose|at: int| crate::text::occurs_at(text, needle, at);
        let left = text.subrange(0, at);
        let right = text.subrange(at + needle.len(), text.len() as int);
        assert(text =~= left + needle + right);
    }
}

/// Nothing contains one of no needles; one more needle adds the texts that contain it, and no
/// others.
pub proof fn law_each_needle_counts(text: Seq<char>, needles: Seq<Seq<char>>, needle: Seq<char>)
    ensures
        !crate::text::contains_any_text(text, Seq::empty()),
        crate::text::contains_any_text(text, needles.push(needle))
            <==> crate::text::contains_any_text(text, needles) || crate::text::contains_text(
            text,
            needle,
        ),
{
    let more = needles.push(needle);
    if crate::text::contains_any_text(text, needles) {
        let i = choose|i: int|
            0 <= i < needles.len() && crate::text::contains_text(text, #[trigger] needles[i]);
        assert(more[i] == needles[i]);
    }
    if crate::text::contains_text(text, needle) {
        assert(more[needles.len() as int] == needle);
    }
    if crate::text::contains_any_text(text, more) {
        let i = choose|i: int|
            0 <= i < more.len() && crate::text::contains_text(text, #[trigger] more[i]);
        if i < needles.len() {
            assert(more[i] == needles[i]);
        }
    }
}

/// The texts of strings are their characters, one for one.
pub proof fn law_texts(strings: Seq<&str>)
    ensures
        crate::text::texts(strings).len() == strings.len(),
        forall|i: int|
            0 <= i < strings.len() ==> #[trigger] crate::text::texts(strings)[i] == strings[i]@,
{
}

/// A number that no digit surrounds and that is no part of a hexadecimal number stands alone,
/// whatever else comes before and after it.
pub proof fn law_a_number_of_its_own_stands_alone(
    before: Seq<char>,
    number: Seq<char>,
    after: Seq<char>,
)
    requires
        before.len() == 0 || !('0' <= before.last() <= '9'),
        after.len() == 0 || !('0' <= after.first() <= '9'),
        forall|s: int|
            0 <= s && s + 2 <= before.len() && #[trigger] before[s] == '0' && before[s + 1] == 'x'
                ==> exists|k: int|
                s + 2 <= k < before.len() && !('0' <= #[trigger] before[k] <= '9') && !('a'
                    <= before[k] <= 'f'),
    ensures
        crate::text::stands_alone(before + number + after, number),
        crate::text::begins_number(before + number + after, number),
{
    let text = before + number + after;
    let at = before.len() as int;
    assert(text.subrange(at, at + number.len()) =~= number);
    assert(at == 0 || text[at - 1] == before.last());
    assert(at + number.len() == text.len() || text[at + number.len()] == after.first());
    if crate::text::follows_hex(text, at) {
        let s = choose|s: int| crate::text::hex_reaches(text, s, at);
        assert(before[s] == text[s] && before[s + 1] == text[s + 1]);
        let k = choose|k: int|
            s + 2 <= k < before.len() && !('0' <= #[trigger] before[k] <= '9') && !('a'
                <= before[k] <= 'f');
        assert(crate::text::is_hex_char(text[k]));
        assert(text[k] == before[k]);
    }
    assert(crate::text::begins_at(text, number, at));
    assert(crate::text::alone_at(text, number, at));
}

/// Whatever begins a number in a text follows neither a digit nor a hexadecimal number, and what
/// stands alone precedes no digit either.
pub proof fn law_what_stands_alone_is_a_number_of_its_own(
    before: Seq<char>,
    number: Seq<char>,
    after: Seq<char>,
)
    ensures
        crate::text::begins_at(before + number + after, number, before.len() as int) ==> {
            &&& before.len() == 0 || !('0' <= before.last() <= '9')
            &&& !exists|s: int|
                0 <= s && s + 2 <= before.len() && #[trigger] before[s] == '0' && before[s + 1]
                    == 'x' && forall|k: int|
                    s + 2 <= k < before.len() ==> '0' <= #[trigger] before[k] <= '9' || 'a'
                        <= before[k] <= 'f'
        },
        crate::text::alone_at(before + number + after, number, before.len() as int) ==> {
            &&& crate::text::begins_at(before + number + after, number, before.len() as int)
            &&& after.len() == 0 || !('0' <= after.first() <= '9')
        },
{
    let text = before + number + after;
    let at = before.len() as int;
    assert(before.len() == 0 || text[at - 1] == before.last());
    assert(after.len() == 0 || text[at + number.len()] == after.first());
    assert(forall|k: int| 0 <= k < at ==> #[trigger] text[k] == before[k]);
    if crate::text::begins_at(text, number, at) {
        assert forall|s: int|
            0 <= s && s + 2 <= before.len() && #[trigger] before[s] == '0' && before[s + 1]
                == 'x' && (forall|k: int|
                s + 2 <= k < before.len() ==> '0' <= #[trigger] before[k] <= '9' || 'a'
                    <= before[k] <= 'f') implies false by {
            assert forall|k: int| s + 2 <= k < at implies crate::text::is_hex_char(
                #[trigger] text[k],
            ) by {
                assert(text[k] == before[k]);
            }
            assert(crate::text::hex_reaches(text, s, at));
        }
    }
}

/// Digits within a number that the word "code" introduces stand in a code, whatever comes between
/// them but letters and digits, and whatever digits surround them.
pub proof fn law_a_named_code_is_found(
    before: Seq<char>,
    gap: Seq<char>,
    leading: Seq<char>,
    digits: Seq<char>,
    after: Seq<char>,
)
    requires
        forall|i: int|
            0 <= i < gap.len() ==> !('0' <= #[trigger] gap[i] <= '9') && !('a' <= gap[i] <= 'z')
                && !('A' <= gap[i] <= 'Z'),
        forall|i: int| 0 <= i < leading.len() ==> '0' <= #[trigger] leading[i] <= '9',
    ensures
        crate::text::stands_in_code(before + "code"@ + gap + leading + digits + after, digits),
{
    reveal_strlit("code");
    let text = before + "code"@ + gap + leading + digits + after;
    let word = before.len() as int;
    let start = word + 4 + gap.len();
    let at = start + leading.len();
    assert(text.subrange(word, word + 4) =~= "code"@);
    assert(text.subrange(at, at + digits.len()) =~= digits);
    assert forall|k: int| word + 4 <= k < start implies !crate::text::is_word_char(
        #[trigger] text[k],
    ) by {
        assert(text[k] == gap[k - word - 4]);
    }
    assert forall|k: int| start <= k < at implies crate::text::is_digit_char(
        #[trigger] text[k],
    ) by {
        assert(text[k] == leading[k - start]);
    }
    assert(crate::text::code_reaches(text, word, start));
    assert(crate::text::code_digits(text, start, at));
    assert(crate::text::in_code_at(text, digits, at));
}

/// Digits within a negative number stand in a code, where the sign is no hyphen between words or
/// numbers.
pub proof fn law_a_negative_code_is_found(
    before: Seq<char>,
    leading: Seq<char>,
    digits: Seq<char>,
    after: Seq<char>,
)
    requires
        before.len() == 0 || !('0' <= before.last() <= '9') && !('a' <= before.last() <= 'z')
            && !('A' <= before.last() <= 'Z'),
        forall|i: int| 0 <= i < leading.len() ==> '0' <= #[trigger] leading[i] <= '9',
    ensures
        crate::text::stands_in_code(before + seq!['-'] + leading + digits + after, digits),
{
    let text = before + seq!['-'] + leading + digits + after;
    let start = before.len() + 1;
    let at = start + leading.len();
    assert(text.subrange(at as int, (at + digits.len()) as int) =~= digits);
    assert(text[start - 1] == '-');
    assert(start == 1 || text[start - 2] == before.last());
    assert forall|k: int| start <= k < at implies crate::text::is_digit_char(
        #[trigger] text[k],
    ) by {
        assert(text[k] == leading[k - start]);
    }
    assert(crate::text::is_signed(text, start as int));
    assert(crate::text::code_digits(text, start as int, at as int));
    assert(crate::text::in_code_at(text, digits, at as int));
}

/// The number that digits spell.
pub open spec fn spelled(digits: Seq<char>) -> int
    decreases digits.len(),
{
    if digits.len() == 0 {
        0
    } else {
        10 * spelled(digits.drop_last()) + (digits.last() as int - 48)
    }
}

/// A number in decimal notation is digits that spell it, without leading zeros.
pub proof fn law_decimals_spell_their_numbers(n: nat)
    ensures
        spelled(crate::text::decimal(n)) == n,
        crate::text::decimal(n).len() > 0,
        forall|i: int|
            0 <= i < crate::text::decimal(n).len() ==> '0' <= #[trigger] crate::text::decimal(n)[i]
                <= '9',
        n > 0 ==> crate::text::decimal(n)[0] != '0',
        n == 0 ==> crate::text::decimal(n).len() == 1,
    decreases n,
{
    let written = crate::text::decimal(n);
    if n >= 10 {
        law_decimals_spell_their_numbers(n / 10);
        assert(written.drop_last() =~= crate::text::decimal(n / 10));
        assert forall|i: int| 0 <= i < written.len() implies '0' <= #[trigger] written[i]
            <= '9' by {
            if i < written.len() - 1 {
                assert(written[i] == crate::text::decimal(n / 10)[i]);
            }
        }
    } else {
        assert(written.drop_last() =~= Seq::empty());
        assert(spelled(written.drop_last()) == 0);
    }
}

/// A negative number is written as a minus sign and the number without it.
pub proof fn law_signed_decimals(n: int)
    ensures
        n >= 0 ==> crate::text::signed_decimal(n) == crate::text::decimal(n as nat),
        n < 0 ==> {
            &&& crate::text::signed_decimal(n).len() > 1
            &&& crate::text::signed_decimal(n)[0] == '-'
            &&& spelled(crate::text::signed_decimal(n).skip(1)) == -n
        },
{
    if n < 0 {
        law_decimals_spell_their_numbers((-n) as nat);
        assert(crate::text::signed_decimal(n).skip(1) =~= crate::text::decimal((-n) as nat));
    }
}

/// Lower-casing ASCII turns the capital letters into small ones and keeps everything else.
pub proof fn law_ascii_lower_case(text: Seq<char>)
    ensures
        crate::text::ascii_lowercase(text).len() == text.len(),
        forall|i: int|
            0 <= i < text.len() ==> (#[trigger] crate::text::ascii_lowercase(text)[i]) as int == if
            'A' <= text[i] <= 'Z' {
                text[i] as int + 32
            } else {
                text[i] as int
            },
{
}

} // verus!
