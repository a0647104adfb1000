//! What the library asks of the machine: fresh identifiers and the clock.

use vstd::prelude::*;

verus! {

/// A lower-case hexadecimal digit.
pub open spec fn lower_hex_digit(c: char) -> bool {
    ('0' <= c && c <= '9') || ('a' <= c && c <= 'f')
}

/// The text of a version-4 UUID: 36 characters, hyphens at 8, 13, 18 and
/// 23, lower-case hexadecimal digits elsewhere, version `4` at 14 and one
/// of `8`, `9`, `a`, `b` (the RFC variant) at 19.
pub open spec fn uuid_v4_text(s: Seq<char>) -> bool {
    &&& s.len() == 36
    &&& forall|i: int|
        0 <= i < 36 ==> if i == 8 || i == 13 || i == 18 || i == 23 {
            s[i] == '-'
        } else {
            lower_hex_digit(#[trigger] s[i])
        }
    &&& s[14] == '4'
    &&& (s[19] == '8' || s[19] == '9' || s[19] == 'a' || s[19] == 'b')
}

/// `uuid::Uuid::new_v4()` written with `to_string`: a random identifier in
/// the hyphenated lower-case form (`Display` writes lower-case hex with
/// hyphens; `new_v4` sets the version and variant bits). Which identifier
/// comes back is chance.
#[verifier::external_body]
pub(crate) fn new_uuid_v4() -> (r: String)
    ensures
        uuid_v4_text(r@),
{
    uuid::Uuid::new_v4().to_string()
}

/// `std::time::SystemTime::now()` as whole seconds since the Unix epoch,
/// zero for a clock set before it. Nothing is stated of the value.
#[verifier::external_body]
pub fn now() -> u64 {
    std::time::SystemTime::now().duration_since(std::time::UNIX_EPOCH).unwrap_or_default().as_secs()
}

} // verus!
