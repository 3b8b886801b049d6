//! The two conversions that this crate takes from elsewhere: decoding the
//! bytes a client sent (std) and Base64-encoding image files (the `base64`
//! crate). Their contracts are trusted; everything built on them is proved.
use base64::Engine;
use vstd::prelude::*;
use vstd::utf8::*;

verus! {

/// The text that `String::from_utf8_lossy` makes of `bytes`: every invalid
/// UTF-8 sequence replaced by U+FFFD.
pub uninterp spec fn utf8_lossy(bytes: Seq<u8>) -> Seq<char>;

/// Calls std's `String::from_utf8_lossy`. Trusted: the result is
/// `utf8_lossy` of the bytes, and, as std documents, bytes that already are
/// valid UTF-8 decode to exactly the characters they encode. What the
/// replacement does on invalid input is left unsaid beyond the name.
#[verifier::external_body]
pub(crate) fn decode_lossy(bytes: &[u8]) -> (text: String)
    ensures
        text@ == utf8_lossy(bytes@),
        valid_utf8(bytes@) ==> text@ == decode_utf8(bytes@),
{
    String::from_utf8_lossy(bytes).into_owned()
}

/// The text that the `base64` crate's `STANDARD` engine (RFC 4648
/// alphabet, with `=` padding) encodes `bytes` to.
pub uninterp spec fn base64_standard(bytes: Seq<u8>) -> Seq<char>;

/// The encoded length that `base64::encoded_len` computes for `n` input
/// bytes with padding fits in a `usize`; otherwise `Engine::encode` panics.
pub open spec fn base64_fits(n: nat) -> bool {
    (n / 3) * 4 + (if n % 3 > 0 { 4int } else { 0int }) <= usize::MAX
}

/// Whether `n` bytes can be Base64-encoded without the encoded length
/// overflowing.
pub fn base64_len_fits(n: usize) -> (fits: bool)
    ensures
        fits == base64_fits(n as nat),
{
    let q = n / 3;
    if q > usize::MAX / 4 {
        assert(q * 4 > usize::MAX) by (nonlinear_arith)
            requires
                q > usize::MAX / 4,
        ;
        return false;
    }
    assert(q * 4 <= usize::MAX) by (nonlinear_arith)
        requires
            q <= usize::MAX / 4,
    ;
    let full = q * 4;
    if n % 3 > 0 {
        full <= usize::MAX - 4
    } else {
        true
    }
}

/// Calls `base64::engine::general_purpose::STANDARD.encode`. Trusted: the
/// result is `base64_standard` of the bytes; no more of the encoding is
/// stated. `requires` leaves out the lengths on which the crate panics.
#[verifier::external_body]
pub(crate) fn base64_encode(bytes: &[u8]) -> (encoded: String)
    requires
        base64_fits(bytes@.len()),
    ensures
        encoded@ == base64_standard(bytes@),
{
    base64::engine::general_purpose::STANDARD.encode(bytes)
}

} // verus!
