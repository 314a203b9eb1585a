//! Wall-clock and random identifiers.

use vstd::prelude::*;

verus! {

/// Nanoseconds since the Unix epoch from `std::time::SystemTime::now`
/// (zero if the clock reads before the epoch). Nothing is claimed of the
/// value: it is the time.
#[verifier::external_body]
pub(crate) fn now_ns() -> u64 {
    match std::time::SystemTime::now().duration_since(std::time::UNIX_EPOCH) {
        Ok(d) => d.as_nanos() as u64,
        Err(_) => 0,
    }
}

/// A lower-case hexadecimal digit.
pub open spec fn lower_hex_digit(c: char) -> bool {
    ('0' <= c && c <= '9') || ('a' <= c && c <= 'f')
}

/// Text of a version-4 UUID in hyphenated lower-case form:
/// `xxxxxxxx-xxxx-4xxx-yxxx-xxxxxxxxxxxx`, with `y` one of `8 9 a b`.
pub open spec fn uuid_v4_text(s: Seq<char>) -> bool {
    &&& s.len() == 36
    &&& forall|i: int| 0 <= i < 36 ==> if i == 8 || i == 13 || i == 18 || i == 23 {
        s[i] == '-'
    } else {
        lower_hex_digit(#[trigger] s[i])
    }
    &&& s[14] == '4'
    &&& (s[19] == '8' || s[19] == '9' || s[19] == 'a' || s[19] == 'b')
}

/// A fresh random identifier: `uuid::Uuid::new_v4`, rendered as text.
/// Claimed: the text has the version-4 hyphenated form (`new_v4` sets the
/// version and variant bits; `Display` writes the lower-case hyphenated
/// form). Which identifier it is, is random.
#[verifier::external_body]
pub(crate) fn new_uuid() -> (res: String)
    ensures
        uuid_v4_text(res@),
{
    uuid::Uuid::new_v4().to_string()
}

} // verus!
