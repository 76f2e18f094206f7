//! Base64 (standard alphabet, padded) through the `base64` crate.
use vstd::prelude::*;

use base64::Engine;

verus! {

/// The standard, padded base64 text of `bytes`, as `base64`'s
/// `general_purpose::STANDARD.encode` produces it.
pub uninterp spec fn base64_encoding(bytes: Seq<u8>) -> Seq<char>;

/// What `base64`'s `general_purpose::STANDARD.decode` makes of `text`
/// (`None` where it reports an error).
pub uninterp spec fn base64_decoding(text: Seq<char>) -> Option<Seq<u8>>;

/// Whether the padded encoding of `len` bytes has a length that fits in a
/// `usize` (the `base64` crate panics otherwise).
pub open spec fn base64_encodable_len(len: int) -> bool {
    (len / 3) * 4 + (if len % 3 > 0 { 4int } else { 0int }) <= usize::MAX
}

/// Any byte string a `Vec` can hold has an encoding whose length fits.
pub proof fn lemma_base64_encodable(len: int)
    requires
        0 <= len <= isize::MAX,
    ensures
        base64_encodable_len(len),
{
    assert((len / 3) * 4 + 4 <= usize::MAX) by (nonlinear_arith)
        requires
            0 <= len <= isize::MAX,
            isize::MAX == usize::MAX / 2,
    ;
}

/// `general_purpose::STANDARD.encode`: the result is the named encoding of
/// the bytes. It panics when the encoded length overflows `usize`, which
/// `requires` leaves out.
#[verifier::external_body]
pub(crate) fn base64_encode(bytes: &[u8]) -> (r: String)
    requires
        base64_encodable_len(bytes@.len() as int),
    ensures
        r@ == base64_encoding(bytes@),
{
    base64::engine::general_purpose::STANDARD.encode(bytes)
}

/// `general_purpose::STANDARD.decode` of the text's bytes: the result is the
/// named decoding, and (as the crate documents for its standard engine)
/// decoding the encoding of some bytes gives those bytes back.
#[verifier::external_body]
pub(crate) fn base64_decode(text: &str) -> (r: Option<Vec<u8>>)
    ensures
        r is Some <==> base64_decoding(text@) is Some,
        r matches Some(v) ==> base64_decoding(text@) == Some(v@),
        r is None ==> forall|bytes: Seq<u8>| text@ != #[trigger] base64_encoding(bytes),
        r matches Some(v) ==> forall|bytes: Seq<u8>| text@ == #[trigger] base64_encoding(bytes) ==> v@ == bytes,
{
    base64::engine::general_purpose::STANDARD.decode(text).ok()
}

} // verus!
