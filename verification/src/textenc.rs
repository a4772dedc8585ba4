use vstd::prelude::*;

verus! {

/// The lowercase hex digit for a nibble value.
pub open spec fn hex_digit(n: u8) -> char {
    if n < 10 {
        (n + 0x30) as char
    } else {
        (n + 0x57) as char
    }
}

/// Whether `h` is the lowercase hex rendering of `bytes`, two digits per
/// byte, high nibble first.
pub open spec fn is_hex_of(bytes: Seq<u8>, h: Seq<char>) -> bool {
    &&& h.len() == 2 * bytes.len()
    &&& forall|i: int|
        0 <= i < bytes.len() ==> h[2 * i] == hex_digit((#[trigger] bytes[i]) / 16) && h[2 * i + 1]
            == hex_digit(bytes[i] % 16)
}

/// Relies on hex::encode: it renders each byte as two lowercase hex digits,
/// high nibble first, in input order.
#[verifier::external_body]
pub fn hex_encode(b: &Vec<u8>) -> (r: String)
    ensures
        is_hex_of(b@, r@),
{
    hex::encode(b.as_slice())
}

/// The RFC 3339 rendering, in UTC, of a count of seconds since the epoch.
pub uninterp spec fn rfc3339_utc_of(secs: u32) -> Seq<char>;

/// Relies on chrono's DateTime::from_timestamp and DateTime::to_rfc3339:
/// the UTC rendering of an epoch second count is a function of the count
/// alone, and every unsigned 32-bit count is a representable timestamp.
#[verifier::external_body]
pub fn rfc3339_utc(secs: u32) -> (r: String)
    ensures
        r@ == rfc3339_utc_of(secs),
{
    match chrono::DateTime::from_timestamp(secs as i64, 0) {
        Some(dt) => dt.to_rfc3339(),
        None => String::new(),
    }
}

/// The text String::from_utf8_lossy reads out of a byte sequence.
pub uninterp spec fn lossy_utf8_of(b: Seq<u8>) -> Seq<char>;

/// Relies on String::from_utf8_lossy: the result depends on the bytes
/// alone, and bytes below 128 decode to the characters with those codes.
#[verifier::external_body]
pub fn bytes_to_string_lossy(b: &Vec<u8>) -> (r: String)
    ensures
        r@ == lossy_utf8_of(b@),
        (forall|i: int| 0 <= i < b@.len() ==> b@[i] < 128) ==> r@ == b@.map_values(
            |c: u8| c as char,
        ),
{
    String::from_utf8_lossy(b.as_slice()).to_string()
}

} // verus!
