use vstd::prelude::*;
use base64::Engine;

verus! {

/// The text that base64's `STANDARD` engine (RFC 4648 alphabet, with `=` padding)
/// makes of `bytes`.
pub uninterp spec fn base64_standard(bytes: Seq<u8>) -> Seq<char>;

/// The length of the padded base64 text of `n` bytes: four characters for each
/// started group of three bytes.
pub open spec fn base64_padded_len(n: int) -> int {
    4 * ((n + 2) / 3)
}

/// Encodes `bytes` with `base64::engine::general_purpose::STANDARD.encode`.
///
/// The crate computes the output length with checked arithmetic and panics when
/// it overflows `usize`, so the call is made only when the padded length fits.
/// Its result is the engine's encoding of the bytes, named `base64_standard`, and
/// it has the padded length. What characters it holds is not stated here.
#[verifier::external_body]
pub(crate) fn base64_encode(bytes: &[u8]) -> (text: String)
    requires
        base64_padded_len(bytes@.len() as int) <= usize::MAX,
    ensures
        text@ == base64_standard(bytes@),
        text@.len() == base64_padded_len(bytes@.len() as int),
{
    base64::engine::general_purpose::STANDARD.encode(bytes)
}

} // verus!
