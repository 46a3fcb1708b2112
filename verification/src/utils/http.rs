//! HTTP header values: the cache policy and the validity of a value.
use crate::text::{decimal, decimal_chars, extend_chars, chars_of, string_of};
use vstd::prelude::*;
use vstd::utf8::encode_utf8;

verus! {

/// The `Cache-Control` value for a lifetime of `age` seconds: `no-cache` for
/// zero, else `public, max-age=` and the decimal age.
pub open spec fn spec_cache_control(age: u32) -> Seq<char> {
    if age == 0 {
        "no-cache"@
    } else {
        "public, max-age="@ + decimal(age as nat)
    }
}

/// The `Cache-Control` value for a lifetime of `age` seconds.
pub fn cache_control_value(age: u32) -> (r: String)
    ensures
        r@ == spec_cache_control(age),
{
    if age == 0 {
        String::from_str("no-cache")
    } else {
        let mut out = chars_of("public, max-age=");
        let digits = decimal_chars(age);
        extend_chars(&mut out, &digits);
        string_of(&out)
    }
}

/// The parts of an error response: its status code and `Cache-Control`
/// value.
#[derive(Clone, Debug)]
pub struct ErrorResponse {
    pub status: u16,
    pub cache_control: String,
}

/// An error response carries its status and is never cached.
pub fn error_response(status: u16) -> (r: ErrorResponse)
    ensures
        r.status == status,
        r.cache_control@ == spec_cache_control(0),
{
    ErrorResponse { status, cache_control: cache_control_value(0) }
}

/// A byte that a header value may hold: visible ASCII, a space or a tab, or
/// any byte from 128 up.
pub open spec fn header_byte_ok(b: u8) -> bool {
    (b >= 32 && b != 127) || b == 9
}

/// `s` is a valid header value.
pub open spec fn header_value_ok(s: Seq<char>) -> bool {
    forall|i: int| 0 <= i < encode_utf8(s).len() ==> #[trigger] header_byte_ok(encode_utf8(s)[i])
}

/// Whether `s` makes a header value.
///
/// Trusted wrapper around `http::HeaderValue::from_str`, whose source accepts
/// the text exactly when each of its UTF-8 bytes is at least 32 and not 127,
/// or is a tab.
#[verifier::external_body]
pub(crate) fn is_header_value(s: &str) -> (r: bool)
    ensures
        r == header_value_ok(s@),
{
    http::HeaderValue::from_str(s).is_ok()
}

} // verus!
