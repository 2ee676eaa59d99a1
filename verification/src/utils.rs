//! Small tools of the broker: the clock, the texts of addresses and
//! cookies, the outgoing errors, and the test of a session's health.

use crate::error::{ClassifiedFailure, HTTPError};
use crate::html::{select_texts, selected_texts};
use crate::http::{APIPaths, HTTPErrorReturn, HeaderSetting};
use crate::text::{before_first, chars_of, find_from, lemma_first_occurrence, string_of};
use crate::types::{ErrorResponse, ErrorReturn, ResponseErrorAt};
use vstd::prelude::*;
use vstd::string::StrSliceExecFns;

verus! {

pub const HELLO_MESSAGE: &'static str = "Hello from HLHSInfo Server!";

#[verifier::external_type_specification]
#[verifier::external_body]
pub struct ExSystemTime(std::time::SystemTime);

/// `std::time::SystemTime::now`: what the clock of the system shows. Nothing
/// is said of it: it is the time.
#[verifier::external_body]
fn clock() -> (now: std::time::SystemTime) {
    std::time::SystemTime::now()
}

/// `std::time::SystemTime::duration_since`: the time that has passed since
/// the start of 1970, and nothing on a clock that is set before it.
#[verifier::external_body]
fn since_epoch(now: &std::time::SystemTime) -> (since: Option<std::time::Duration>) {
    now.duration_since(std::time::UNIX_EPOCH).ok()
}

/// `std::time::Duration::as_secs`: the whole seconds of a span of time.
#[verifier::external_body]
fn whole_seconds(span: &std::time::Duration) -> (seconds: u64) {
    span.as_secs()
}

/// `std::time::Duration::as_millis`: the whole milliseconds of a span of
/// time.
#[verifier::external_body]
fn whole_milliseconds(span: &std::time::Duration) -> (milliseconds: u128) {
    span.as_millis()
}

/// The seconds since the start of 1970, and 0 on a clock that is set before
/// it.
pub fn get_timestamp() -> (seconds: u64) {
    match since_epoch(&clock()) {
        Some(since) => whole_seconds(&since),
        None => 0,
    }
}

/// The milliseconds since the start of 1970, and 0 on a clock that is set
/// before it.
pub fn get_timestamp_millisec() -> (milliseconds: u128) {
    match since_epoch(&clock()) {
        Some(since) => whole_milliseconds(&since),
        None => 0,
    }
}

/// The time `minute` minutes after `now`, in seconds, held at `u64::MAX`
/// where it would pass it.
pub open spec fn time_after(now: u64, minute: u64) -> u64 {
    if now + 60 * minute <= u64::MAX {
        (now + 60 * minute) as u64
    } else {
        u64::MAX
    }
}

/// The time `minute` minutes after `now`, in milliseconds, held at
/// `u128::MAX` where it would pass it.
pub open spec fn time_after_millisec(now: u128, minute: u128) -> u128 {
    if now + 60000 * minute <= u128::MAX {
        (now + 60000 * minute) as u128
    } else {
        u128::MAX
    }
}

/// The time `minute` minutes after `now`, in seconds.
pub fn time_after_from(now: u64, minute: u64) -> (later: u64)
    ensures
        later == time_after(now, minute),
{
    match minute.checked_mul(60) {
        Some(seconds) => match now.checked_add(seconds) {
            Some(later) => later,
            None => u64::MAX,
        },
        None => u64::MAX,
    }
}

/// The time `minute` minutes after `now`, in milliseconds.
pub fn time_after_millisec_from(now: u128, minute: u128) -> (later: u128)
    ensures
        later == time_after_millisec(now, minute),
{
    match minute.checked_mul(60000) {
        Some(span) => match now.checked_add(span) {
            Some(later) => later,
            None => u128::MAX,
        },
        None => u128::MAX,
    }
}

/// The time `minute` minutes from now, in seconds: never earlier than
/// `minute` minutes after the start of 1970.
pub fn get_time_after(minute: u64) -> (later: u64)
    ensures
        later >= time_after(0, minute),
{
    time_after_from(get_timestamp(), minute)
}

/// The time `minute` minutes from now, in milliseconds: never earlier than
/// `minute` minutes after the start of 1970.
pub fn get_time_after_millisec(minute: u128) -> (later: u128)
    ensures
        later >= time_after_millisec(0, minute),
{
    time_after_millisec_from(get_timestamp_millisec(), minute)
}

/// What `u8::to_ascii_lowercase` makes of a byte: a capital letter of ASCII
/// becomes the small one, any other byte stays.
pub open spec fn lowered(byte: u8) -> u8 {
    if 0x41 <= byte <= 0x5a {
        (byte + 0x20) as u8
    } else {
        byte
    }
}

/// The digit of a number below 16 in base 16, with small letters.
pub open spec fn hex_digit(n: u8) -> char
    recommends
        n < 16,
{
    if n < 10 {
        (0x30 + n) as char
    } else {
        (0x57 + n) as char
    }
}

/// Two digits in base 16 for each byte, after the byte was lowered as a
/// letter of ASCII.
pub open spec fn hex_text(bytes: Seq<u8>) -> Seq<char>
    decreases bytes.len(),
{
    if bytes.len() == 0 {
        Seq::empty()
    } else {
        hex_text(bytes.drop_last()).push(hex_digit(lowered(bytes.last()) / 16)).push(
            hex_digit(lowered(bytes.last()) % 16),
        )
    }
}

fn hex_char(n: u8) -> (digit: char)
    requires
        n < 16,
    ensures
        digit == hex_digit(n),
{
    if n < 10 {
        (0x30 + n) as char
    } else {
        (0x57 + n) as char
    }
}

pub fn vecu8_to_hex_string(buffer: &[u8]) -> (text: String)
    ensures
        text@ == hex_text(buffer@),
{
    let mut text = String::new();
    let mut i: usize = 0;
    assert(buffer@.take(0) == Seq::<u8>::empty());
    while i < buffer.len()
        invariant
            i <= buffer.len(),
            text@ == hex_text(buffer@.take(i as int)),
        decreases buffer.len() - i,
    {
        let byte: u8 = buffer[i];
        let low: u8 = if 0x41 <= byte && byte <= 0x5a {
            byte + 0x20
        } else {
            byte
        };
        assert(buffer@.take(i + 1).drop_last() == buffer@.take(i as int));
        assert(buffer@.take(i + 1).last() == byte);
        text.push(hex_char(low / 16));
        text.push(hex_char(low % 16));
        i += 1;
    }
    assert(buffer@.take(buffer@.len() as int) == buffer@);
    text
}

/// The cookie itself in a `Set-Cookie` header: what stands before the first
/// `"; "`, and the whole header where there is none.
pub fn get_asp_cookie(string: &str) -> (cookie: &str)
    ensures
        cookie@ == before_first(string@, "; "@),
{
    let chars = chars_of(string);
    let mark = chars_of("; ");
    proof {
        lemma_first_occurrence(chars@, mark@, 0);
    }
    match find_from(&chars, &mark, 0) {
        Some(i) => {
            assert(crate::text::occurs_at(chars@, mark@, i as int));
            string.substring_char(0, i)
        },
        None => string,
    }
}

/// Where an error arose, as the caller of `error_message` names it.
pub open spec fn place_view(at: Option<&str>) -> Option<Seq<char>> {
    match at {
        Some(place) => Some(place@),
        None => None,
    }
}

/// An outgoing error with this status and message. With a place, the error
/// names the API and the place and no trace; without one it names nothing.
pub open spec fn error_shown(
    shown: ErrorReturn,
    path: Seq<char>,
    code: u16,
    message: Seq<char>,
    at: Option<Seq<char>>,
) -> bool {
    &&& shown.code == code
    &&& shown.body.message@ == message
    &&& match at {
        Some(place) => {
            &&& shown.body.wrong matches Some(wrong)
            &&& wrong.api matches Some(api)
            &&& api@ == path
            &&& wrong.trace is None
            &&& wrong.at matches Some(named)
            &&& named@ == place
        },
        None => shown.body.wrong is None,
    }
}

/// The outgoing error of the API at `path`, stamped with `timestamp`.
pub fn error_message_at(path: &str, code: u16, message: &str, at: Option<&str>, timestamp: u128) -> (shown:
    ErrorReturn)
    ensures
        error_shown(shown, path@, code, message@, place_view(at)),
        shown.body.timestamp == timestamp,
{
    let wrong = match at {
        Some(place) => Some(
            ResponseErrorAt { api: Some(path.to_owned()), trace: None, at: Some(place.to_owned()) },
        ),
        None => None,
    };
    ErrorReturn { code, body: ErrorResponse { message: message.to_owned(), timestamp, wrong } }
}

/// The outgoing error of the API at `path`, stamped with the time.
pub fn error_message(path: &str, code: u16, message: &str, at: Option<&str>) -> (shown: ErrorReturn)
    ensures
        error_shown(shown, path@, code, message@, place_view(at)),
{
    error_message_at(path, code, message, at, get_timestamp_millisec())
}

pub fn combine_path(host: &str, path: &str) -> (whole: String)
    ensures
        whole@ == host@ + path@,
{
    let mut whole = host.to_owned();
    vstd::string::StringExecFns::append(&mut whole, path);
    whole
}

pub fn combine_page_path(host: &str, path: APIPaths) -> (whole: String)
    ensures
        whole@ == host@ + path.path_text(),
{
    combine_path(host, path.path())
}

/// The header that relays a session cookie to the portal, as it is.
pub fn create_auth_header(cookie: &str) -> (header: HeaderSetting)
    ensures
        header.header@ == "Cookie"@,
        header.value@ == cookie@,
{
    HeaderSetting { header: "Cookie".to_owned(), value: cookie.to_owned() }
}

/// The outgoing error for a reply that the portal did not give: 503 where
/// the request did not get through, 502 where the status was refused.
pub fn generate_http_error(path: &str, err: HTTPErrorReturn) -> (shown: ErrorReturn)
    ensures
        match err {
            HTTPErrorReturn::RequestError(_) => error_shown(
                shown,
                path@,
                503,
                HTTPError::RemoteServiceUnavailable.message_text(),
                Some("Remote server"@),
            ),
            HTTPErrorReturn::StatusCodeError(_) => error_shown(
                shown,
                path@,
                502,
                HTTPError::ServerError.message_text(),
                Some("Return status code"@),
            ),
        },
{
    match err {
        HTTPErrorReturn::RequestError(_) => error_message(
            path,
            503,
            HTTPError::RemoteServiceUnavailable.message(),
            Some("Remote server"),
        ),
        HTTPErrorReturn::StatusCodeError(_) => error_message(
            path,
            502,
            HTTPError::ServerError.message(),
            Some("Return status code"),
        ),
    }
}

/// The outgoing error for a session that the portal has dropped: 403.
pub fn generate_session_expire_error(path: &str) -> (shown: ErrorReturn)
    ensures
        error_shown(shown, path@, 403, HTTPError::SessionExpired.message_text(), None),
{
    error_message(path, 403, HTTPError::SessionExpired.message(), None)
}

/// The outgoing error of a failure: its status, its message and its place.
pub fn generate_failure_error(path: &str, failure: ClassifiedFailure) -> (shown: ErrorReturn)
    ensures
        error_shown(shown, path@, failure.status_of(), failure.message_of(), failure.place_of()),
{
    error_message(path, failure.status(), failure.message(), failure.place())
}

/// Whether a list of texts holds `wanted`.
pub fn holds_text(texts: &Vec<String>, wanted: &str) -> (held: bool)
    ensures
        held == crate::html::element_view(*texts).contains(wanted@),
{
    let ghost all = crate::html::element_view(*texts);
    let mut i: usize = 0;
    while i < texts.len()
        invariant
            i <= texts.len(),
            all == crate::html::element_view(*texts),
            forall|j: int| 0 <= j < i ==> all[j] != wanted@,
        decreases texts.len() - i,
    {
        let same = crate::text::same_chars(&chars_of(texts[i].as_str()), &chars_of(wanted));
        if same {
            assert(all[i as int] == wanted@);
            return true;
        }
        i += 1;
    }
    false
}

/// Whether the portal still takes the session, given the texts of the
/// elements that are `div` children of the document's `body`.
///
/// The portal marks a page that it shows to a client without a session: the
/// first such element then holds a text node that reads "未登入" and nothing
/// else. A page without such an element is taken for one with a session,
/// and so is one whose first such element holds the words only as a part of
/// a longer text.
pub open spec fn session_alive(found: Option<Seq<Seq<Seq<char>>>>) -> bool {
    match found {
        Some(elements) => elements.len() == 0 || !elements[0].contains("未登入"@),
        None => true,
    }
}

/// Tells whether the portal still takes the session, from what was
/// selected in the document.
pub fn is_alive(found: &Option<Vec<Vec<String>>>) -> (alive: bool)
    ensures
        alive == session_alive(crate::html::found_texts(*found)),
{
    match found {
        Some(elements) => {
            if elements.len() == 0 {
                true
            } else {
                !holds_text(&elements[0], "未登入")
            }
        },
        None => true,
    }
}

/// Tells from a document of the portal whether the portal still takes the
/// session under which it was asked for.
pub fn is_document_logined(document: &str) -> (alive: bool)
    ensures
        alive == session_alive(selected_texts(document@, "body > div"@)),
{
    let found = select_texts(document, "body > div");
    is_alive(&found)
}

/// The value of a decimal digit.
pub open spec fn digit_value(c: char) -> Option<int> {
    if 0x30 <= c as u32 <= 0x39 {
        Some(c as u32 - 0x30)
    } else {
        None
    }
}

/// The number that a run of decimal digits writes; nothing where a
/// character is no digit.
pub open spec fn decimal(digits: Seq<char>) -> Option<int>
    decreases digits.len(),
{
    if digits.len() == 0 {
        Some(0)
    } else {
        match (decimal(digits.drop_last()), digit_value(digits.last())) {
            (Some(high), Some(low)) => Some(10 * high + low),
            _ => None,
        }
    }
}

/// What `str::parse::<u32>` reads: decimal digits, at least one, with or
/// without a `+` before them, that write a number up to `u32::MAX`.
pub open spec fn parsed_u32(s: Seq<char>) -> Option<u32> {
    let digits = if s.len() > 0 && s[0] == '+' {
        s.skip(1)
    } else {
        s
    };
    if digits.len() == 0 {
        None
    } else {
        match decimal(digits) {
            Some(n) => if n <= u32::MAX {
                Some(n as u32)
            } else {
                None
            },
            None => None,
        }
    }
}

/// A run of digits writes a number that is not below the number that any
/// of its beginnings writes.
pub proof fn lemma_decimal_grows(digits: Seq<char>, i: int)
    requires
        0 <= i <= digits.len(),
        decimal(digits) is Some,
    ensures
        decimal(digits.take(i)) is Some,
        0 <= decimal(digits.take(i))->0 <= decimal(digits)->0,
    decreases digits.len(),
{
    if i == digits.len() {
        assert(digits.take(i) == digits);
        if digits.len() > 0 {
            lemma_decimal_grows(digits.drop_last(), i - 1);
        }
    } else {
        assert(digits.drop_last().take(i) == digits.take(i));
        lemma_decimal_grows(digits.drop_last(), i);
    }
}

/// Reads a number as `str::parse::<u32>` does.
pub fn parse_u32(string: &str) -> (read: Option<u32>)
    ensures
        read == parsed_u32(string@),
{
    let chars = chars_of(string);
    let start: usize = if chars.len() > 0 && chars[0] == '+' {
        1
    } else {
        0
    };
    if chars.len() == start {
        return None;
    }
    let ghost digits = chars@.skip(start as int);
    let mut value: u64 = 0;
    let mut i: usize = start;
    assert(digits.take(0) == Seq::<char>::empty());
    assert(chars@.skip(0) == chars@);
    while i < chars.len()
        invariant
            start <= i <= chars.len(),
            digits == chars@.skip(start as int),
            digits.len() > 0,
            parsed_u32(string@) == match decimal(digits) {
                Some(n) => if n <= u32::MAX {
                    Some(n as u32)
                } else {
                    None
                },
                None => None,
            },
            decimal(digits.take(i - start)) == Some(value as int),
            value <= u32::MAX,
        decreases chars.len() - i,
    {
        let c: u32 = chars[i] as u32;
        let ghost next = digits.take(i + 1 - start);
        assert(next.drop_last() == digits.take(i - start));
        assert(next.last() == chars@[i as int]);
        if c < 0x30 || c > 0x39 {
            assert(decimal(next) is None);
            proof {
                if decimal(digits) is Some {
                    lemma_decimal_grows(digits, i + 1 - start);
                }
            }
            return None;
        }
        let digit: u64 = (c - 0x30) as u64;
        value = value * 10 + digit;
        if value > 0xffff_ffff {
            proof {
                if decimal(digits) is Some {
                    lemma_decimal_grows(digits, i + 1 - start);
                }
            }
            return None;
        }
        i += 1;
    }
    assert(digits.take(digits.len() as int) == digits);
    Some(value as u32)
}

/// The number that a text writes, and 0 for a text that writes none.
pub fn convert_string_to_u32(string: &str) -> (number: u32)
    ensures
        number == match parsed_u32(string@) {
            Some(n) => n,
            None => 0,
        },
{
    match parse_u32(string) {
        Some(number) => number,
        None => 0,
    }
}

/// The text of an element: the texts of its text nodes, put together.
pub fn html_to_text(texts: &Vec<String>) -> (whole: String)
    ensures
        whole@ == crate::html::joined(crate::html::element_view(*texts)),
{
    string_of(&crate::html::join_texts(texts))
}

/// The names and values of a list of pairs.
pub open spec fn pairs_view(pairs: Vec<(String, String)>) -> Seq<(Seq<char>, Seq<char>)> {
    pairs@.map_values(|pair: (String, String)| (pair.0@, pair.1@))
}

/// The pairs that were read, where the address could be read.
pub open spec fn found_pairs(found: Option<Vec<(String, String)>>) -> Option<
    Seq<(Seq<char>, Seq<char>)>,
> {
    match found {
        Some(pairs) => Some(pairs_view(pairs)),
        None => None,
    }
}

/// The pairs of the query of an address as `url::Url::query_pairs` reads
/// them, in their order; nothing for a text that `url::Url::parse` takes
/// for no address.
pub uninterp spec fn parsed_query(address: Seq<char>) -> Option<Seq<(Seq<char>, Seq<char>)>>;

/// `url::Url::parse` and `url::Url::query_pairs`: the names and values in
/// the query of the address, decoded.
#[verifier::external_body]
pub(crate) fn query_pairs(address: &str) -> (pairs: Option<Vec<(String, String)>>)
    ensures
        found_pairs(pairs) == parsed_query(address@),
{
    let url = url::Url::parse(address).ok()?;
    Some(url.query_pairs().into_owned().collect())
}

/// The text that `openssl::base64::encode_block` writes bytes as.
pub uninterp spec fn base64_text(input: Seq<u8>) -> Seq<char>;

/// The longest input that `openssl::base64::encode_block` takes: one whose
/// encoded length still fits the 32 bits of a C integer.
pub const BASE64_INPUT_MAX: usize = 1_610_612_733;

/// `openssl::base64::encode_block`: the bytes in base 64.
#[verifier::external_body]
pub fn buffer_to_base64(input: &[u8]) -> (text: String)
    requires
        input@.len() <= BASE64_INPUT_MAX,
    ensures
        text@ == base64_text(input@),
{
    openssl::base64::encode_block(input)
}

/// The value of the first pair of that name.
pub open spec fn first_named(pairs: Seq<(Seq<char>, Seq<char>)>, name: Seq<char>) -> Option<Seq<char>>
    decreases pairs.len(),
{
    if pairs.len() == 0 {
        None
    } else if pairs[0].0 == name {
        Some(pairs[0].1)
    } else {
        first_named(pairs.drop_first(), name)
    }
}

/// Looks the first pair of a name up.
pub fn find_named(pairs: &Vec<(String, String)>, name: &str) -> (value: Option<String>)
    ensures
        match value {
            Some(text) => first_named(pairs_view(*pairs), name@) == Some(text@),
            None => first_named(pairs_view(*pairs), name@) is None,
        },
{
    let wanted = chars_of(name);
    let ghost all = pairs_view(*pairs);
    let mut i: usize = 0;
    assert(all.skip(0) == all);
    while i < pairs.len()
        invariant
            i <= pairs.len(),
            wanted@ == name@,
            all == pairs_view(*pairs),
            first_named(all, name@) == first_named(all.skip(i as int), name@),
        decreases pairs.len() - i,
    {
        assert(all.skip(i as int).drop_first() == all.skip(i + 1));
        assert(all.skip(i as int)[0] == (pairs@[i as int].0@, pairs@[i as int].1@));
        if crate::text::same_chars(&chars_of(pairs[i].0.as_str()), &wanted) {
            return Some(pairs[i].1.clone());
        }
        i += 1;
    }
    None
}

/// The value of the first pair that is called `param`, and the empty text
/// where no pair is.
pub open spec fn value_of(pairs: Seq<(Seq<char>, Seq<char>)>, param: Seq<char>) -> Seq<char> {
    match first_named(pairs, param) {
        Some(value) => value,
        None => Seq::empty(),
    }
}

/// Looks a parameter up among the pairs of a query.
pub fn find_string_in_url(pairs: &Vec<(String, String)>, param: &str) -> (value: String)
    ensures
        value@ == value_of(pairs_view(*pairs), param@),
{
    match find_named(pairs, param) {
        Some(value) => value,
        None => String::new(),
    }
}

} // verus!
