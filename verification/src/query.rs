//! The address of the result page for a query.

use vstd::prelude::*;
use vstd::string::*;
use crate::outside::percent_encode;

verus! {

/// The address of the result page, up to the query.
pub const RESULTS_URL: &'static str = "https://www.youtube.com/results?search_query=";

/// The bytes that stand for themselves in a query: letters, digits and
/// `-`, `.`, `_`, `~`.
pub open spec fn is_unreserved(b: u8) -> bool {
    ||| 0x30 <= b <= 0x39
    ||| 0x41 <= b <= 0x5a
    ||| 0x61 <= b <= 0x7a
    ||| b == 0x2d
    ||| b == 0x2e
    ||| b == 0x5f
    ||| b == 0x7e
}

/// The upper-case hexadecimal digit for a value under sixteen.
pub open spec fn hex_digit(value: u8) -> char {
    if value < 10 {
        ((0x30 + value) as u8) as char
    } else {
        ((0x41 + value - 10) as u8) as char
    }
}

/// One byte, percent-encoded: itself if unreserved, else `%` and its two
/// hexadecimal digits.
pub open spec fn percent_encoded_byte(b: u8) -> Seq<char> {
    if is_unreserved(b) {
        seq![b as char]
    } else {
        seq!['%', hex_digit(b / 16), hex_digit(b % 16)]
    }
}

/// A byte string, percent-encoded byte by byte.
pub open spec fn percent_encoded(bytes: Seq<u8>) -> Seq<char>
    decreases bytes.len(),
{
    if bytes.len() == 0 {
        seq![]
    } else {
        percent_encoded(bytes.drop_last()) + percent_encoded_byte(bytes.last())
    }
}

/// The address of the result page for `query`: the query's UTF-8 bytes,
/// percent-encoded, behind the fixed part.
pub fn search_url(query: &str) -> (url: String)
    ensures
        url@ == RESULTS_URL@ + percent_encoded(query.spec_bytes()),
{
    let encoded = percent_encode(query);
    RESULTS_URL.to_owned().concat(encoded.as_str())
}

} // verus!
