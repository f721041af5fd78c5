//! The provider-id header that pins a request to one provider.

use vstd::prelude::*;
use vstd::utf8::{encode_utf8, is_ascii_chars, is_ascii_chars_encode_utf8};

use crate::decimal::{decimal, lemma_decimal_shape};

verus! {

/// A byte that an HTTP header value may hold: horizontal tab, or any byte
/// from 32 up except DEL (127).
pub open spec fn valid_header_byte(b: u8) -> bool {
    (b >= 32 && b != 127) || b == 9
}

/// Text whose UTF-8 encoding is made of valid header bytes only.
pub open spec fn valid_header_text(text: Seq<char>) -> bool {
    forall|i: int|
        0 <= i < encode_utf8(text).len() ==> valid_header_byte(#[trigger] encode_utf8(text)[i])
}

/// Whether `axum::http::HeaderValue::from_str` accepts `s`.
///
/// `HeaderValue::from_str` (crate `http`, re-exported by axum) scans the
/// UTF-8 bytes of its argument and fails exactly when one of them is below
/// 32 and not a tab, or is 127; this wrapper reports whether it succeeded.
#[verifier::external_body]
pub(crate) fn header_value_accepts(s: &str) -> (ok: bool)
    ensures
        ok == valid_header_text(s@),
{
    axum::http::HeaderValue::from_str(s).is_ok()
}

/// The name of the request header that carries the provider id.
pub fn provider_id_header_name() -> (r: &'static str)
    ensures
        r@ == seq!['x', '-', 'a', 'i', 'o', '-', 'p', 'r', 'o', 'v', 'i', 'd', 'e', 'r', '-', 'i', 'd'],
{
    proof {
        reveal_strlit("x-aio-provider-id");
    }
    "x-aio-provider-id"
}

/// The decimal text of every integer is a valid header value, so a provider
/// id can always be carried in a header.
pub proof fn law_decimal_is_valid_header_value(n: int)
    ensures
        valid_header_text(decimal(n)),
{
    let text = decimal(n);
    lemma_decimal_shape(n);
    assert(is_ascii_chars(text));
    is_ascii_chars_encode_utf8(text);
    assert forall|i: int| 0 <= i < encode_utf8(text).len() implies valid_header_byte(
        #[trigger] encode_utf8(text)[i],
    ) by {
        assert(text[i] as u8 == encode_utf8(text)[i]);
        assert(text[i] == '-' || ('0' <= text[i] <= '9'));
    }
}

} // verus!
