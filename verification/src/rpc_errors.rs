//! What the errors of RPC calls mean: throttling, known retryable conditions, and the rest.

use crate::text::{
    contains_alone, contains_any, contains_beginning, contains_in_code, push_signed_decimal,
    str_contains,
};
use alloy::rpc::json_rpc::ResponsePacket;
use vstd::prelude::*;
use vstd::string::*;

verus! {

/// Phrases that mark a lower-case message as a rate limit or a temporary unavailability. They are
/// specific ("http error 503", not a bare "503") so that block numbers are not taken for them.
pub open spec fn throttle_phrases() -> Seq<Seq<char>> {
    seq![
        "rate limit"@,
        "rate-limit"@,
        "rate exceeded"@,
        "too many requests"@,
        "quota"@,
        "throttle"@,
        "http error 503"@,
        "status: 503"@,
        "service unavailable"@,
        "temporarily unavailable"@,
        "unable to complete request"@,
    ]
}

/// Phrases that mark a message as one that block-range retries handle.
pub open spec fn known_retryable_phrases() -> Seq<Seq<char>> {
    seq![
        "this block range should work"@,
        "try with this block range"@,
        "block range is too wide"@,
        "limited to a"@,
        "block range too large"@,
        "response is too big"@,
        "error decoding response body"@,
    ]
}

/// Whether a message in lower case carries a throttle token, a number or a phrase. A 429 that is
/// part of a longer number counts only where that number is presented as a code: elsewhere it
/// may be a block number. A -32001 counts unless its sign is the hyphen of a range of blocks.
pub open spec fn has_token(lowered: Seq<char>) -> bool {
    ||| crate::text::stands_alone(lowered, "429"@)
    ||| crate::text::stands_in_code(lowered, "429"@)
    ||| crate::text::begins_number(lowered, "-32001"@)
    ||| crate::text::contains_any_text(lowered, throttle_phrases())
}

/// Whether a message, whatever its case, carries a throttle token.
pub open spec fn is_throttle_message(message: Seq<char>) -> bool {
    has_token(crate::text::lowercase(message))
}

/// Whether `message` carries a throttle token in its first `n` characters, all of them ASCII and
/// not cut off within a number.
pub open spec fn ascii_head_has_token(message: Seq<char>, n: int) -> bool {
    &&& 0 < n <= message.len()
    &&& n == message.len() || !crate::text::is_digit_char(message[n - 1])
    &&& vstd::utf8::is_ascii_chars(message.take(n))
    &&& has_token(crate::text::ascii_lowercase(message.take(n)))
}

/// Whether a lower-case message carries a throttle token.
pub fn has_throttle_token(lowered: &str) -> (found: bool)
    ensures
        found == has_token(lowered@),
{
    let phrases: [&str; 11] = [
        // Classic rate-limit / throttle signals.
        "rate limit",
        "rate-limit",
        "rate exceeded",
        "too many requests",
        "quota",
        "throttle",
        // Temporary unavailability / overload: back off the same way.
        "http error 503",
        "status: 503",
        "service unavailable",
        "temporarily unavailable",
        "unable to complete request",
    ];
    assert(crate::text::texts(phrases@) =~= throttle_phrases());
    contains_alone(lowered, "429") || contains_in_code(lowered, "429") || contains_beginning(
        lowered,
        "-32001",
    ) || contains_any(lowered, phrases.as_slice())
}

/// True if the error means the provider is rate-limiting us *or* is temporarily unavailable (HTTP
/// 429/503, Alchemy `-32001`, etc.). Both warrant backing off rather than hammering the node. Matches
/// specific tokens, so that block numbers are not taken for them.
pub fn is_rate_limited_or_unavailable(error_message: &str) -> (found: bool)
    ensures
        found == is_throttle_message(error_message@),
        vstd::utf8::is_ascii_chars(error_message@) ==> found == has_token(
            crate::text::ascii_lowercase(error_message@),
        ),
        forall|n: int| #[trigger] ascii_head_has_token(error_message@, n) ==> found,
{
    let lowered: String = error_message.to_lowercase();
    proof {
        assert forall|n: int| #[trigger] ascii_head_has_token(error_message@, n) implies has_token(
            lowered@,
        ) by {
            let head = crate::text::ascii_lowercase(error_message@.take(n));
            if n == error_message@.len() {
                assert(error_message@.take(n) =~= error_message@);
            } else {
                lemma_prefix_keeps_tokens(head, lowered@);
            }
        }
    }
    has_throttle_token(lowered.as_str())
}

/// A number that begins in a head begins at the same place in any text that begins with the head.
proof fn lemma_prefix_keeps_beginning(
    head: Seq<char>,
    text: Seq<char>,
    number: Seq<char>,
    at: int,
)
    requires
        head.is_prefix_of(text),
        crate::text::begins_at(head, number, at),
    ensures
        crate::text::begins_at(text, number, at),
{
    let end = at + number.len();
    assert(text.subrange(at, end) =~= head.subrange(at, end));
    if crate::text::follows_hex(text, at) {
        let start = choose|start: int| crate::text::hex_reaches(text, start, at);
        assert forall|k: int| start + 2 <= k < at implies crate::text::is_hex_char(
            #[trigger] head[k],
        ) by {
            assert(head[k] == text[k]);
        }
        assert(crate::text::hex_reaches(head, start, at));
    }
}

/// Digits that stand in a code within a head stand in it in any text that begins with the head.
proof fn lemma_prefix_keeps_code(head: Seq<char>, text: Seq<char>, digits: Seq<char>)
    requires
        head.is_prefix_of(text),
        crate::text::stands_in_code(head, digits),
    ensures
        crate::text::stands_in_code(text, digits),
{
    reveal_strlit("code");
    let at = choose|at: int| crate::text::in_code_at(head, digits, at);
    let start = choose|start: int| crate::text::code_digits(head, start, at);
    assert(text.subrange(at, at + digits.len()) =~= head.subrange(at, at + digits.len()));
    assert forall|k: int| start <= k < at implies crate::text::is_digit_char(
        #[trigger] text[k],
    ) by {
        assert(text[k] == head[k]);
    }
    if !crate::text::is_signed(head, start) {
        let word = choose|word: int| crate::text::code_reaches(head, word, start);
        assert(text.subrange(word, word + 4) =~= head.subrange(word, word + 4));
        assert forall|k: int| word + 4 <= k < start implies !crate::text::is_word_char(
            #[trigger] text[k],
        ) by {
            assert(text[k] == head[k]);
        }
        assert(crate::text::code_reaches(text, word, start));
    }
    assert(crate::text::code_digits(text, start, at));
    assert(crate::text::in_code_at(text, digits, at));
}

/// A throttle token in a head that does not end in a digit is one in any text that begins with
/// the head.
proof fn lemma_prefix_keeps_tokens(head: Seq<char>, text: Seq<char>)
    requires
        head.is_prefix_of(text),
        head.len() > 0,
        !crate::text::is_digit_char(head.last()),
        has_token(head),
    ensures
        has_token(text),
{
    if crate::text::stands_alone(head, "429"@) {
        reveal_strlit("429");
        let at = choose|at: int| crate::text::alone_at(head, "429"@, at);
        assert(head.subrange(at, at + 3).last() == head[at + 2]);
        lemma_prefix_keeps_beginning(head, text, "429"@, at);
        assert(crate::text::alone_at(text, "429"@, at));
    } else if crate::text::stands_in_code(head, "429"@) {
        lemma_prefix_keeps_code(head, text, "429"@);
    } else if crate::text::begins_number(head, "-32001"@) {
        let at = choose|at: int| crate::text::begins_at(head, "-32001"@, at);
        lemma_prefix_keeps_beginning(head, text, "-32001"@, at);
    } else {
        let i = choose|i: int|
            0 <= i < throttle_phrases().len() && crate::text::contains_text(
                head,
                #[trigger] throttle_phrases()[i],
            );
        let phrase = throttle_phrases()[i];
        let at = choose|at: int| crate::text::occurs_at(head, phrase, at);
        assert(text.subrange(at, at + phrase.len()) =~= head.subrange(at, at + phrase.len()));
        assert(crate::text::occurs_at(text, phrase, at));
    }
}

/// True if the message is one that block-range retries handle.
pub fn is_known_retryable_error(error_message: &str) -> (found: bool)
    ensures
        found == crate::text::contains_any_text(error_message@, known_retryable_phrases()),
{
    let phrases: [&str; 7] = [
        "this block range should work",
        "try with this block range",
        "block range is too wide",
        "limited to a",
        "block range too large",
        "response is too big",
        "error decoding response body",
    ];
    assert(crate::text::texts(phrases@) =~= known_retryable_phrases());
    contains_any(error_message, phrases.as_slice())
}

/// How an error that is not handled elsewhere is counted.
#[derive(Debug, Clone, Copy, PartialEq, Eq, Structural)]
pub enum RpcErrorKind {
    Timeout,
    RateLimited,
    Connection,
    Other,
}

/// The kind of an error, given whether it means throttling; none for a known retryable one.
pub open spec fn error_kind(message: Seq<char>, throttled: bool) -> Option<RpcErrorKind> {
    if crate::text::contains_any_text(message, known_retryable_phrases()) {
        None
    } else if crate::text::contains_text(message, "timeout"@) || crate::text::contains_text(
        message,
        "timed out"@,
    ) {
        Some(RpcErrorKind::Timeout)
    } else if throttled {
        Some(RpcErrorKind::RateLimited)
    } else if crate::text::contains_text(message, "connection"@) || crate::text::contains_text(
        message,
        "network"@,
    ) || crate::text::contains_text(message, "sending request"@) {
        Some(RpcErrorKind::Connection)
    } else {
        Some(RpcErrorKind::Other)
    }
}

/// The kind of an error, given whether it means throttling; none for a known retryable one.
pub fn classify_given(error_message: &str, throttled: bool) -> (kind: Option<RpcErrorKind>)
    ensures
        kind == error_kind(error_message@, throttled),
{
    if is_known_retryable_error(error_message) {
        None
    } else if str_contains(error_message, "timeout") || str_contains(error_message, "timed out") {
        Some(RpcErrorKind::Timeout)
    } else if throttled {
        Some(RpcErrorKind::RateLimited)
    } else if str_contains(error_message, "connection") || str_contains(error_message, "network")
        || str_contains(error_message, "sending request") {
        Some(RpcErrorKind::Connection)
    } else {
        Some(RpcErrorKind::Other)
    }
}

/// The kind of an error; none for a known retryable one.
pub fn classify_error(error_message: &str) -> (kind: Option<RpcErrorKind>)
    ensures
        kind == error_kind(error_message@, is_throttle_message(error_message@)),
        vstd::utf8::is_ascii_chars(error_message@) ==> kind == error_kind(
            error_message@,
            has_token(crate::text::ascii_lowercase(error_message@)),
        ),
        forall|n: int| #[trigger]
            ascii_head_has_token(error_message@, n) ==> kind == error_kind(error_message@, true),
{
    let throttled: bool = is_rate_limited_or_unavailable(error_message);
    classify_given(error_message, throttled)
}

/// A JSON-RPC error of a response, as far as it says whether the provider is throttling: its code
/// and its message. Its data can carry arbitrary hex and block numbers that mean nothing of the
/// kind, and is left out.
#[derive(Debug)]
pub struct ErrorPayload {
    pub code: i64,
    pub message: String,
}

impl View for ErrorPayload {
    type V = (i64, Seq<char>);

    open spec fn view(&self) -> (i64, Seq<char>) {
        (self.code, self.message@)
    }
}

/// The codes and messages of error payloads.
pub open spec fn payloads(errors: Seq<ErrorPayload>) -> Seq<(i64, Seq<char>)> {
    Seq::new(errors.len(), |i: int| errors[i]@)
}

/// The text of an error payload.
pub open spec fn payload_text(payload: (i64, Seq<char>)) -> Seq<char> {
    "error code "@ + crate::text::signed_decimal(payload.0 as int) + ": "@ + payload.1
}

/// Whether an error payload means throttling.
pub open spec fn is_throttle_payload(payload: (i64, Seq<char>)) -> bool {
    is_throttle_message(payload_text(payload))
}

/// Whether one of the payloads means throttling.
pub open spec fn has_throttle_payload(errors: Seq<(i64, Seq<char>)>) -> bool {
    exists|i: int| 0 <= i < errors.len() && is_throttle_payload(#[trigger] errors[i])
}

/// Whether the code of an error payload, by itself, means throttling: it contains 429 or -32001,
/// with or without further digits.
pub open spec fn is_throttle_code(code: i64) -> bool {
    ||| crate::text::contains_text(crate::text::signed_decimal(code as int), "429"@)
    ||| crate::text::contains_text(crate::text::signed_decimal(code as int), "-32001"@)
}

/// Whether the code of one of the payloads, by itself, means throttling.
pub open spec fn has_throttle_code(errors: Seq<(i64, Seq<char>)>) -> bool {
    exists|i: int| 0 <= i < errors.len() && is_throttle_code((#[trigger] errors[i]).0)
}

/// Whether one of the payloads has the code under which a provider says that it cannot complete
/// requests for the time being, or the code of too many requests.
pub open spec fn has_unavailable_code(errors: Seq<(i64, Seq<char>)>) -> bool {
    exists|i: int|
        0 <= i < errors.len() && ((#[trigger] errors[i]).0 == -32001 || errors[i].0 == 429)
}

/// Whether all messages are ASCII.
pub open spec fn all_ascii(errors: Seq<(i64, Seq<char>)>) -> bool {
    forall|i: int| 0 <= i < errors.len() ==> vstd::utf8::is_ascii_chars((#[trigger] errors[i]).1)
}

/// Whether an error payload with an ASCII message means throttling.
pub open spec fn is_ascii_throttle_payload(payload: (i64, Seq<char>)) -> bool {
    has_token(crate::text::ascii_lowercase(payload_text(payload)))
}

/// Whether one of the payloads, all with ASCII messages, means throttling.
pub open spec fn has_ascii_throttle_payload(errors: Seq<(i64, Seq<char>)>) -> bool {
    exists|i: int| 0 <= i < errors.len() && is_ascii_throttle_payload(#[trigger] errors[i])
}

/// Whether an error payload means throttling.
pub fn is_throttle_error(error: &ErrorPayload) -> (found: bool)
    ensures
        found == is_throttle_payload(error@),
        vstd::utf8::is_ascii_chars(error.message@) ==> found == is_ascii_throttle_payload(error@),
        is_throttle_code(error.code) ==> found,
{
    let mut text: String = String::new();
    text.append("error code ");
    push_signed_decimal(&mut text, error.code);
    text.append(": ");
    text.append(error.message.as_str());
    assert(text@ =~= payload_text(error@));
    proof {
        lemma_payload_head(error@);
    }
    is_rate_limited_or_unavailable(text.as_str())
}

/// The text of a payload up to where its message begins.
spec fn payload_head(code: i64) -> Seq<char> {
    "error code "@ + crate::text::signed_decimal(code as int) + ": "@
}

proof fn lemma_payload_head(payload: (i64, Seq<char>))
    ensures
        vstd::utf8::is_ascii_chars(payload.1) ==> vstd::utf8::is_ascii_chars(payload_text(payload)),
        is_throttle_code(payload.0) ==> ascii_head_has_token(
            payload_text(payload),
            payload_head(payload.0).len() as int,
        ),
{
    reveal_strlit("error code ");
    reveal_strlit(": ");
    let code = crate::text::signed_decimal(payload.0 as int);
    let head = payload_head(payload.0);
    crate::text::lemma_signed_decimal_is_plain(payload.0 as int);
    assert(payload_text(payload).take(head.len() as int) =~= head);
    assert(crate::text::ascii_lowercase(head) =~= head);
    if crate::text::contains_text(code, "429"@) {
        lemma_code_is_presented(payload.0);
    } else if is_throttle_code(payload.0) {
        lemma_code_begins(payload.0);
    }
}

/// A code that contains 429 is presented as a code by the text of its payload.
proof fn lemma_code_is_presented(code: i64)
    requires
        crate::text::contains_text(crate::text::signed_decimal(code as int), "429"@),
    ensures
        crate::text::stands_in_code(payload_head(code), "429"@),
{
    reveal_strlit("error code ");
    reveal_strlit(": ");
    reveal_strlit("code");
    reveal_strlit("429");
    let written = crate::text::signed_decimal(code as int);
    let head = payload_head(code);
    crate::text::lemma_signed_decimal_is_plain(code as int);
    let at = choose|at: int| crate::text::occurs_at(written, "429"@, at);
    let place = 11 + at;
    assert(head.subrange(place, place + 3) =~= written.subrange(at, at + 3));
    assert(head.subrange(6, 10) =~= "code"@);
    let start: int = if code < 0 {
        12
    } else {
        11
    };
    assert(start <= place) by {
        assert(written.subrange(at, at + 3)[0] == written[at]);
    }
    assert forall|k: int| start <= k < place implies crate::text::is_digit_char(
        #[trigger] head[k],
    ) by {
        assert(head[k] == written[k - 11]);
    }
    assert(crate::text::code_reaches(head, 6, start));
    assert(crate::text::code_digits(head, start, place));
    assert(crate::text::in_code_at(head, "429"@, place));
}

/// A code that contains -32001 begins with it, and so it does in the text of its payload.
proof fn lemma_code_begins(code: i64)
    requires
        crate::text::contains_text(crate::text::signed_decimal(code as int), "-32001"@),
    ensures
        crate::text::begins_number(payload_head(code), "-32001"@),
{
    reveal_strlit("error code ");
    reveal_strlit(": ");
    reveal_strlit("-32001");
    let written = crate::text::signed_decimal(code as int);
    let head = payload_head(code);
    crate::text::lemma_signed_decimal_is_plain(code as int);
    let at = choose|at: int| crate::text::occurs_at(written, "-32001"@, at);
    assert(written.subrange(at, at + 6)[0] == written[at]);
    assert(at == 0);
    assert(head.subrange(11, 17) =~= written.subrange(0, 6));
    if crate::text::follows_hex(head, 11) {
        let start = choose|start: int| crate::text::hex_reaches(head, start, 11);
        assert(head[start + 1] == 'x');
    }
    assert(crate::text::begins_at(head, "-32001"@, 11));
}

/// The codes -32001 and 429 mean throttling by themselves.
proof fn lemma_throttle_codes()
    ensures
        is_throttle_code((-32001) as i64),
        is_throttle_code(429),
{
    reveal_strlit("-32001");
    reveal_strlit("429");
    reveal_with_fuel(crate::text::decimal, 5);
    let unavailable = crate::text::signed_decimal(-32001);
    let limited = crate::text::signed_decimal(429);
    assert(unavailable =~= "-32001"@);
    assert(limited =~= "429"@);
    assert(unavailable.subrange(0, 6) =~= "-32001"@);
    assert(crate::text::occurs_at(unavailable, "-32001"@, 0));
    assert(limited.subrange(0, 3) =~= "429"@);
    assert(crate::text::occurs_at(limited, "429"@, 0));
}

/// None of the phrases begins with a digit, with a hexadecimal one or with an "x".
proof fn lemma_phrases_begin_with_letters()
    ensures
        forall|i: int|
            0 <= i < throttle_phrases().len() ==> (#[trigger] throttle_phrases()[i]).len() > 0
                && !crate::text::is_hex_char(throttle_phrases()[i][0]) && throttle_phrases()[i][0]
                != 'x',
{
    reveal_strlit("rate limit");
    reveal_strlit("rate-limit");
    reveal_strlit("rate exceeded");
    reveal_strlit("too many requests");
    reveal_strlit("quota");
    reveal_strlit("throttle");
    reveal_strlit("http error 503");
    reveal_strlit("status: 503");
    reveal_strlit("service unavailable");
    reveal_strlit("temporarily unavailable");
    reveal_strlit("unable to complete request");
}

proof fn lemma_first_char_occurs(text: Seq<char>, needle: Seq<char>, at: int)
    requires
        crate::text::occurs_at(text, needle, at),
        needle.len() > 0,
    ensures
        text[at] == needle[0],
{
    assert(text.subrange(at, at + needle.len())[0] == text[at]);
}

/// In a text of hexadecimal digits and "x" nothing but a 429 of its own can be a throttle token.
proof fn lemma_hex_text_has_no_other_token(text: Seq<char>)
    requires
        forall|i: int|
            0 <= i < text.len() ==> crate::text::is_hex_char(#[trigger] text[i]) || text[i] == 'x',
    ensures
        vstd::utf8::is_ascii_chars(text),
        crate::text::ascii_lowercase(text) == text,
        has_token(text) <==> crate::text::stands_alone(text, "429"@),
{
    reveal_strlit("code");
    reveal_strlit("-32001");
    lemma_phrases_begin_with_letters();
    assert(crate::text::ascii_lowercase(text) =~= text);
    if crate::text::stands_in_code(text, "429"@) {
        let at = choose|at: int| crate::text::in_code_at(text, "429"@, at);
        let start = choose|start: int| crate::text::code_digits(text, start, at);
        if !crate::text::is_signed(text, start) {
            let word = choose|word: int| crate::text::code_reaches(text, word, start);
            assert(text.subrange(word, word + 4)[1] == text[word + 1]);
        }
    }
    if crate::text::begins_number(text, "-32001"@) {
        let at = choose|at: int| crate::text::begins_at(text, "-32001"@, at);
        lemma_first_char_occurs(text, "-32001"@, at);
    }
    if crate::text::contains_any_text(text, throttle_phrases()) {
        let i = choose|i: int|
            0 <= i < throttle_phrases().len() && crate::text::contains_text(
                text,
                #[trigger] throttle_phrases()[i],
            );
        let at = choose|at: int| crate::text::occurs_at(text, throttle_phrases()[i], at);
        lemma_first_char_occurs(text, throttle_phrases()[i], at);
    }
}

/// A text made of nothing but digits, such as a block number, is no throttle message unless it is
/// 429 itself.
pub proof fn law_numbers_are_no_throttle_messages(number: Seq<char>)
    requires
        forall|i: int|
            0 <= i < number.len() ==> crate::text::is_digit_char(#[trigger] number[i]),
    ensures
        vstd::utf8::is_ascii_chars(number),
        has_token(crate::text::ascii_lowercase(number)) <==> number == "429"@,
{
    reveal_strlit("429");
    lemma_hex_text_has_no_other_token(number);
    if number == "429"@ {
        assert(number.subrange(0, 3) =~= number);
        assert(crate::text::alone_at(number, "429"@, 0));
    }
    if crate::text::stands_alone(number, "429"@) {
        let at = choose|at: int| crate::text::alone_at(number, "429"@, at);
        assert(number.subrange(0, 3) =~= number);
    }
}

/// A hexadecimal number, such as a block number or a hash, is no throttle message.
pub proof fn law_hex_numbers_are_no_throttle_messages(number: Seq<char>)
    requires
        number.len() >= 2,
        number[0] == '0',
        number[1] == 'x',
        forall|i: int|
            2 <= i < number.len() ==> crate::text::is_hex_char(#[trigger] number[i]),
    ensures
        vstd::utf8::is_ascii_chars(number),
        !has_token(crate::text::ascii_lowercase(number)),
{
    reveal_strlit("429");
    lemma_hex_text_has_no_other_token(number);
    if crate::text::stands_alone(number, "429"@) {
        let at = choose|at: int| crate::text::alone_at(number, "429"@, at);
        lemma_first_char_occurs(number, "429"@, at);
        assert(crate::text::hex_reaches(number, 0, at));
    }
}

/// A number in the middle of a message that is not presented as a code is not taken for 429 unless
/// it is 429: wherever a 429 counts, it stands before the number or after it.
pub proof fn law_embedded_numbers_are_not_taken_for_429(
    before: Seq<char>,
    number: Seq<char>,
    after: Seq<char>,
    at: int,
)
    requires
        number.len() > 0,
        forall|i: int|
            0 <= i < number.len() ==> crate::text::is_digit_char(#[trigger] number[i]),
        before.len() == 0 || !crate::text::is_digit_char(before.last()),
        after.len() == 0 || !crate::text::is_digit_char(after.first()),
        number != "429"@,
        !crate::text::presents_code(before + number + after, before.len() as int),
        crate::text::alone_at(before + number + after, "429"@, at) || crate::text::in_code_at(
            before + number + after,
            "429"@,
            at,
        ),
    ensures
        at + 3 <= before.len() || at >= before.len() + number.len(),
{
    reveal_strlit("429");
    let text = before + number + after;
    let found = text.subrange(at, at + 3);
    assert(found =~= "429"@);
    assert(found[0] == text[at] && found[1] == text[at + 1] && found[2] == text[at + 2]);
    let from = before.len() as int;
    let to = from + number.len();
    assert(forall|k: int| from <= k < to ==> #[trigger] text[k] == number[k - from]);
    if from < at + 3 && at < to {
        if at < from {
            assert(text[from - 1] == before.last());
        }
        if to < at + 3 {
            assert(text[to] == after.first());
        }
        if crate::text::in_code_at(text, "429"@, at) {
            let start = choose|start: int| crate::text::code_digits(text, start, at);
            if start < from {
                assert(text[from - 1] == before.last());
            } else if start > from {
                assert(text[start - 1] == number[start - 1 - from]);
                crate::text::lemma_code_begins_before_its_digits(text, start);
            }
        }
        assert(at == from) by {
            if at > from {
                assert(text[at - 1] == number[at - 1 - from]);
            }
        }
        assert(at + 3 == to) by {
            if at + 3 < to {
                assert(text[at + 3] == number[3]);
            }
        }
        assert(number =~= found);
    }
}

/// A message in lower case is a throttle message exactly when it carries 429 or -32001 as its
/// place allows, or one of the phrases.
pub proof fn law_what_throttle_messages_carry(lowered: Seq<char>)
    ensures
        has_token(lowered) <==> {
            ||| crate::text::stands_alone(lowered, "429"@)
            ||| crate::text::stands_in_code(lowered, "429"@)
            ||| crate::text::begins_number(lowered, "-32001"@)
            ||| crate::text::contains_text(lowered, "rate limit"@)
            ||| crate::text::contains_text(lowered, "rate-limit"@)
            ||| crate::text::contains_text(lowered, "rate exceeded"@)
            ||| crate::text::contains_text(lowered, "too many requests"@)
            ||| crate::text::contains_text(lowered, "quota"@)
            ||| crate::text::contains_text(lowered, "throttle"@)
            ||| crate::text::contains_text(lowered, "http error 503"@)
            ||| crate::text::contains_text(lowered, "status: 503"@)
            ||| crate::text::contains_text(lowered, "service unavailable"@)
            ||| crate::text::contains_text(lowered, "temporarily unavailable"@)
            ||| crate::text::contains_text(lowered, "unable to complete request"@)
        },
{
    assert(throttle_phrases().len() == 11);
    assert(throttle_phrases()[0] == "rate limit"@);
    assert(throttle_phrases()[1] == "rate-limit"@);
    assert(throttle_phrases()[2] == "rate exceeded"@);
    assert(throttle_phrases()[3] == "too many requests"@);
    assert(throttle_phrases()[4] == "quota"@);
    assert(throttle_phrases()[5] == "throttle"@);
    assert(throttle_phrases()[6] == "http error 503"@);
    assert(throttle_phrases()[7] == "status: 503"@);
    assert(throttle_phrases()[8] == "service unavailable"@);
    assert(throttle_phrases()[9] == "temporarily unavailable"@);
    assert(throttle_phrases()[10] == "unable to complete request"@);
    if crate::text::contains_any_text(lowered, throttle_phrases()) {
        let i = choose|i: int|
            0 <= i < throttle_phrases().len() && crate::text::contains_text(
                lowered,
                #[trigger] throttle_phrases()[i],
            );
    }
}

/// A message is a throttle message, whatever its case, exactly when its lower-case form is one.
pub proof fn law_throttle_messages_of_any_case(message: Seq<char>)
    ensures
        is_throttle_message(message) <==> has_token(crate::text::lowercase(message)),
{
}

/// Block-range retries handle exactly the messages that contain one of their phrases as written.
pub proof fn law_what_block_range_retries_handle(message: Seq<char>)
    ensures
        crate::text::contains_any_text(message, known_retryable_phrases()) <==> {
            ||| crate::text::contains_text(message, "this block range should work"@)
            ||| crate::text::contains_text(message, "try with this block range"@)
            ||| crate::text::contains_text(message, "block range is too wide"@)
            ||| crate::text::contains_text(message, "limited to a"@)
            ||| crate::text::contains_text(message, "block range too large"@)
            ||| crate::text::contains_text(message, "response is too big"@)
            ||| crate::text::contains_text(message, "error decoding response body"@)
        },
{
    assert(known_retryable_phrases().len() == 7);
    assert(known_retryable_phrases()[0] == "this block range should work"@);
    assert(known_retryable_phrases()[1] == "try with this block range"@);
    assert(known_retryable_phrases()[2] == "block range is too wide"@);
    assert(known_retryable_phrases()[3] == "limited to a"@);
    assert(known_retryable_phrases()[4] == "block range too large"@);
    assert(known_retryable_phrases()[5] == "response is too big"@);
    assert(known_retryable_phrases()[6] == "error decoding response body"@);
    if crate::text::contains_any_text(message, known_retryable_phrases()) {
        let i = choose|i: int|
            0 <= i < known_retryable_phrases().len() && crate::text::contains_text(
                message,
                #[trigger] known_retryable_phrases()[i],
            );
    }
}

/// An error that block-range retries handle has no kind. Any other that speaks of a timeout is
/// one; any other that means throttling is a rate limit; any other that speaks of a connection, a
/// network or sending a request is a connection error; and what is left is none of these.
pub proof fn law_kinds_of_errors(message: Seq<char>, throttled: bool)
    ensures
        ({
            let kind = error_kind(message, throttled);
            let handled = crate::text::contains_any_text(message, known_retryable_phrases());
            let late = crate::text::contains_text(message, "timeout"@)
                || crate::text::contains_text(message, "timed out"@);
            let cut = crate::text::contains_text(message, "connection"@)
                || crate::text::contains_text(message, "network"@) || crate::text::contains_text(
                message,
                "sending request"@,
            );
            &&& kind is None <==> handled
            &&& kind == Some(RpcErrorKind::Timeout) <==> !handled && late
            &&& kind == Some(RpcErrorKind::RateLimited) <==> !handled && !late && throttled
            &&& kind == Some(RpcErrorKind::Connection) <==> !handled && !late && !throttled && cut
            &&& kind == Some(RpcErrorKind::Other) <==> !handled && !late && !throttled && !cut
        }),
{
}

/// An error payload means throttling exactly when "error code", its code, a colon and its message
/// do.
pub proof fn law_throttle_payloads(code: i64, message: Seq<char>)
    ensures
        is_throttle_payload((code, message)) <==> is_throttle_message(
            "error code "@ + crate::text::signed_decimal(code as int) + ": "@ + message,
        ),
{
}

/// No errors mean no throttling; one more error adds what it means itself, and nothing else.
pub proof fn law_each_payload_counts(
    errors: Seq<(i64, Seq<char>)>,
    error: (i64, Seq<char>),
)
    ensures
        !has_throttle_payload(Seq::empty()),
        has_throttle_payload(errors.push(error)) <==> has_throttle_payload(errors)
            || is_throttle_payload(error),
{
    let more = errors.push(error);
    if has_throttle_payload(errors) {
        let i = choose|i: int| 0 <= i < errors.len() && is_throttle_payload(#[trigger] errors[i]);
        assert(more[i] == errors[i]);
    }
    if is_throttle_payload(error) {
        assert(more[errors.len() as int] == error);
    }
    if has_throttle_payload(more) {
        let i = choose|i: int| 0 <= i < more.len() && is_throttle_payload(#[trigger] more[i]);
        if i < errors.len() {
            assert(more[i] == errors[i]);
        }
    }
}

/// The codes and messages of payloads are those of the errors, one for one.
pub proof fn law_payloads_are_codes_and_messages(errors: Seq<ErrorPayload>)
    ensures
        payloads(errors).len() == errors.len(),
        forall|i: int|
            0 <= i < errors.len() ==> (#[trigger] payloads(errors)[i]).0 == errors[i].code
                && payloads(errors)[i].1 == errors[i].message@,
{
}

/// A number in the middle of a message is not taken for 429 unless it is 429, where it follows
/// neither a minus sign of its own nor the word "code".
pub proof fn law_block_numbers_are_not_taken_for_429(
    before: Seq<char>,
    number: Seq<char>,
    after: Seq<char>,
    at: int,
)
    requires
        number.len() > 0,
        forall|i: int| 0 <= i < number.len() ==> '0' <= #[trigger] number[i] <= '9',
        before.len() == 0 || !('0' <= before.last() <= '9'),
        after.len() == 0 || !('0' <= after.first() <= '9'),
        number != "429"@,
        before.len() > 0 && before.last() == '-' ==> before.len() > 1 && ('0'
            <= before[before.len() - 2] <= '9' || 'a' <= before[before.len() - 2] <= 'z' || 'A'
            <= before[before.len() - 2] <= 'Z'),
        forall|w: int|
            0 <= w && w + 4 <= before.len() && #[trigger] before.subrange(w, w + 4) == "code"@
                ==> exists|k: int|
                w + 4 <= k < before.len() && ('0' <= #[trigger] before[k] <= '9' || 'a'
                    <= before[k] <= 'z' || 'A' <= before[k] <= 'Z'),
        crate::text::alone_at(before + number + after, "429"@, at) || crate::text::in_code_at(
            before + number + after,
            "429"@,
            at,
        ),
    ensures
        at + 3 <= before.len() || at >= before.len() + number.len(),
{
    reveal_strlit("code");
    let text = before + number + after;
    let from = before.len() as int;
    assert(forall|k: int| 0 <= k < from ==> #[trigger] text[k] == before[k]);
    if crate::text::presents_code(text, from) {
        if !crate::text::is_signed(text, from) {
            let word = choose|word: int| crate::text::code_reaches(text, word, from);
            assert(before.subrange(word, word + 4) =~= text.subrange(word, word + 4));
            let k = choose|k: int|
                word + 4 <= k < before.len() && ('0' <= #[trigger] before[k] <= '9' || 'a'
                    <= before[k] <= 'z' || 'A' <= before[k] <= 'Z');
            assert(!crate::text::is_word_char(text[k]));
        }
    }
    law_embedded_numbers_are_not_taken_for_429(before, number, after, at);
}

/// A 429 within a hexadecimal number in the middle of a message does not count.
pub proof fn law_hex_numbers_are_not_taken_for_429(
    before: Seq<char>,
    digits: Seq<char>,
    after: Seq<char>,
    at: int,
)
    requires
        forall|i: int|
            0 <= i < digits.len() ==> '0' <= #[trigger] digits[i] <= '9' || 'a' <= digits[i]
                <= 'f',
        before.len() + 2 <= at < before.len() + 2 + digits.len(),
    ensures
        !crate::text::alone_at(before + seq!['0', 'x'] + digits + after, "429"@, at),
        !crate::text::in_code_at(before + seq!['0', 'x'] + digits + after, "429"@, at),
{
    reveal_strlit("code");
    let text = before + seq!['0', 'x'] + digits + after;
    let from = before.len() as int;
    assert(text[from] == '0' && text[from + 1] == 'x');
    assert forall|k: int| from + 2 <= k < at implies crate::text::is_hex_char(
        #[trigger] text[k],
    ) by {
        assert(text[k] == digits[k - from - 2]);
    }
    assert(crate::text::hex_reaches(text, from, at));
    if crate::text::in_code_at(text, "429"@, at) {
        let start = choose|start: int| crate::text::code_digits(text, start, at);
        assert(start >= from + 2) by {
            if start < from + 2 {
                assert(crate::text::is_digit_char(text[from + 1]));
            }
        }
        assert(crate::text::is_hex_char(text[start - 1]) || text[start - 1] == 'x');
        if !crate::text::is_signed(text, start) {
            let word = choose|word: int| crate::text::code_reaches(text, word, start);
            let found = text.subrange(word, word + 4);
            assert(found[1] == text[word + 1] && found[3] == text[word + 3]);
            assert(word + 4 == start) by {
                if word + 4 < start {
                    assert(!crate::text::is_word_char(text[start - 1]));
                }
            }
        }
    }
}

/// Whether one of the errors means throttling.
pub fn has_throttle_error(errors: &Vec<ErrorPayload>) -> (found: bool)
    ensures
        found == has_throttle_payload(payloads(errors@)),
        all_ascii(payloads(errors@)) ==> found == has_ascii_throttle_payload(payloads(errors@)),
        has_throttle_code(payloads(errors@)) ==> found,
        has_unavailable_code(payloads(errors@)) ==> found,
{
    proof {
        lemma_throttle_codes();
    }
    let ghost all = payloads(errors@);
    let mut i: usize = 0;
    while i < errors.len()
        invariant
            i <= errors.len(),
            all == payloads(errors@),
            is_throttle_code((-32001) as i64),
            is_throttle_code(429),
            forall|j: int|
                0 <= j < i ==> {
                    &&& !is_throttle_payload(#[trigger] all[j])
                    &&& !is_throttle_code(all[j].0)
                    &&& vstd::utf8::is_ascii_chars(all[j].1) ==> !is_ascii_throttle_payload(all[j])
                },
        decreases errors.len() - i,
    {
        assert(all[i as int] == errors@[i as int]@);
        if is_throttle_error(&errors[i]) {
            return true;
        }
        i = i + 1;
    }
    false
}

/// `serde_json`'s raw JSON value, which results and error data in a response packet are. Nothing
/// is claimed of what it holds.
#[verifier::external_type_specification]
#[verifier::external_body]
pub struct ExRawValue(serde_json::value::RawValue);

/// `alloy`'s response packet, a collection of responses: a single one or a batch.
#[verifier::external_type_specification]
#[verifier::external_body]
#[verifier::reject_recursive_types(Payload)]
#[verifier::reject_recursive_types(ErrData)]
pub struct ExResponsePacket<Payload, ErrData>(
    alloy::rpc::json_rpc::ResponsePacket<Payload, ErrData>,
);

/// The codes and messages of the errors among the responses of a packet, in their order.
pub uninterp spec fn packet_errors(packet: ResponsePacket) -> Seq<(i64, Seq<char>)>;

/// Calls `ResponsePacket::iter_errors`, which walks the error payloads of the packet in order, and
/// copies the code and the message of each.
#[verifier::external_body]
fn collect_errors(packet: &ResponsePacket) -> (errors: Vec<ErrorPayload>)
    ensures
        payloads(errors@) == packet_errors(*packet),
{
    packet
        .iter_errors()
        .map(|e| ErrorPayload { code: e.code, message: e.message.to_string() })
        .collect()
}

/// True when the response packet carries a JSON-RPC error payload signalling throttling or
/// temporary unavailability (e.g. Alchemy `-32001` delivered over HTTP 200). Such a
/// transport-level "success" is really the outage signal and must not decay the adaptive backoff.
///
/// Matches on code and message only.
pub fn has_throttle_error_payload(response: &ResponsePacket) -> (found: bool)
    ensures
        found == has_throttle_payload(packet_errors(*response)),
        all_ascii(packet_errors(*response)) ==> found == has_ascii_throttle_payload(
            packet_errors(*response),
        ),
        has_throttle_code(packet_errors(*response)) ==> found,
        has_unavailable_code(packet_errors(*response)) ==> found,
{
    let errors: Vec<ErrorPayload> = collect_errors(response);
    has_throttle_error(&errors)
}

} // verus!
