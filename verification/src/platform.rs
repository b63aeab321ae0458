//! What the library takes from its surroundings: the clock, fresh request
//! ids, and the rendering of bytes and timestamps as text.

use vstd::prelude::*;
use crate::text::digit_char;
use crate::text::hex_digit;
use crate::text::push_char;

verus! {

/// `SystemTime::now` of std, as whole seconds since the Unix epoch; zero
/// where the clock stands before the epoch. Nothing is promised of the value.
#[verifier::external_body]
pub(crate) fn unix_now() -> (secs: u64) {
    match std::time::SystemTime::now().duration_since(std::time::UNIX_EPOCH) {
        Ok(elapsed) => elapsed.as_secs(),
        Err(_) => 0,
    }
}

/// `rand::random` of the rand crate: a number to tag a request with. Nothing
/// is promised of the value; in particular it may collide with a pending id.
#[verifier::external_body]
pub(crate) fn fresh_request_id() -> (id: u32) {
    rand::random::<u32>()
}

/// `Uuid::new_v4` of the uuid crate, as text: an identifier for a test
/// run. Nothing is promised of the value.
#[verifier::external_body]
pub(crate) fn fresh_test_id() -> (id: String) {
    uuid::Uuid::new_v4().to_string()
}

/// The text that std reads from bytes meant as UTF-8, with each malformed
/// sequence replaced by U+FFFD.
pub uninterp spec fn lossy_text(bytes: Seq<u8>) -> Seq<char>;

/// `String::from_utf8_lossy` of std. Taken on trust: the text depends on
/// the bytes alone.
#[verifier::external_body]
pub(crate) fn text_from_bytes(bytes: &Vec<u8>) -> (r: String)
    ensures
        r@ == lossy_text(bytes@),
{
    String::from_utf8_lossy(bytes.as_slice()).into_owned()
}

/// Bytes in hexadecimal: two lowercase digits for each byte, the high half
/// first.
pub open spec fn hex_text(bytes: Seq<u8>) -> Seq<char> {
    Seq::new(
        2 * bytes.len(),
        |i: int|
            if i % 2 == 0 {
                hex_digit(bytes[i / 2] as int / 16)
            } else {
                hex_digit(bytes[i / 2] as int % 16)
            },
    )
}

/// Writes bytes in hexadecimal.
pub fn hex_encode(bytes: &Vec<u8>) -> (r: String)
    ensures
        r@ == hex_text(bytes@),
{
    let mut text = String::new();
    let mut i: usize = 0;
    assert(text@ =~= hex_text(bytes@.take(0)));
    while i < bytes.len()
        invariant
            i <= bytes.len(),
            text@ == hex_text(bytes@.take(i as int)),
        decreases bytes.len() - i,
    {
        let byte = bytes[i];
        let ghost before = text@;
        push_char(&mut text, digit_char((byte / 16) as u32));
        push_char(&mut text, digit_char((byte % 16) as u32));
        assert(text@ =~= hex_text(bytes@.take(i + 1))) by {
            let next = hex_text(bytes@.take(i + 1));
            assert(next.len() == before.len() + 2);
            assert forall|j: int| 0 <= j < next.len() implies text@[j] == next[j] by {
                if j < before.len() {
                    assert(bytes@.take(i + 1)[j / 2] == bytes@.take(i as int)[j / 2]);
                } else {
                    assert(j / 2 == i);
                }
            }
        }
        i = i + 1;
    }
    assert(bytes@.take(bytes.len() as int) =~= bytes@);
    text
}

/// The RFC 3339 text, in UTC, of the moment `secs` seconds after the Unix
/// epoch.
pub uninterp spec fn rfc3339_utc(secs: u32) -> Seq<char>;

/// `DateTime::from_timestamp` of the chrono crate, with the moment it gives
/// written out by `DateTime::to_rfc3339`: chrono's moment is no plain
/// value, so that its text is what leaves this function. Taken on trust:
/// every 32-bit second count is a moment that chrono can represent, so that
/// there is a text, and the text depends on the second count alone.
#[verifier::external_body]
pub(crate) fn timestamp_text(secs: u32) -> (r: Option<String>)
    ensures
        r is Some,
        r->0@ == rfc3339_utc(secs),
{
    chrono::DateTime::from_timestamp(i64::from(secs), 0).map(|moment| moment.to_rfc3339())
}

/// The text in upper case, as std makes it.
pub uninterp spec fn uppercased(text: Seq<char>) -> Seq<char>;

/// `str::to_uppercase` of std. Taken on trust: the text depends on the
/// given text alone.
#[verifier::external_body]
pub(crate) fn to_upper(text: &str) -> (r: String)
    ensures
        r@ == uppercased(text@),
{
    text.to_uppercase()
}

/// The text in lower case, as std makes it.
pub uninterp spec fn lowercased(text: Seq<char>) -> Seq<char>;

/// `str::to_lowercase` of std. Taken on trust: the text depends on the
/// given text alone.
#[verifier::external_body]
pub(crate) fn to_lower(text: &str) -> (r: String)
    ensures
        r@ == lowercased(text@),
{
    text.to_lowercase()
}

} // verus!
