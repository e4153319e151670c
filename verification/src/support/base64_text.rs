use base64::engine::general_purpose::URL_SAFE_NO_PAD;
use base64::Engine;
use vstd::prelude::*;

verus! {

/// The text that `base64`'s `URL_SAFE_NO_PAD` engine encodes `bytes` to.
pub uninterp spec fn base64_url_no_pad(bytes: Seq<u8>) -> Seq<char>;

/// The length of an unpadded base64 encoding of `n` bytes.
pub open spec fn unpadded_base64_len(n: nat) -> nat {
    4 * (n / 3) + if n % 3 == 1 {
        2nat
    } else if n % 3 == 2 {
        3nat
    } else {
        0nat
    }
}

/// The characters of the URL-safe base64 alphabet.
pub open spec fn is_url_safe_base64_char(c: char) -> bool {
    ('A' <= c <= 'Z') || ('a' <= c <= 'z') || ('0' <= c <= '9') || c == '-' || c == '_'
}

/// Calls `URL_SAFE_NO_PAD.encode`. Claims the named result, its length (`encoded_len` without
/// padding) and that it uses only the URL-safe alphabet. `encode` panics when the length
/// computation overflows, which the bound on the input rules out.
#[verifier::external_body]
pub(crate) fn encode_url_safe_no_pad(bytes: &[u8]) -> (text: String)
    requires
        bytes@.len() <= usize::MAX / 2,
    ensures
        text@ == base64_url_no_pad(bytes@),
        text@.len() == unpadded_base64_len(bytes@.len()),
        forall|i: int| 0 <= i < text@.len() ==> is_url_safe_base64_char(#[trigger] text@[i]),
{
    URL_SAFE_NO_PAD.encode(bytes)
}

} // verus!
