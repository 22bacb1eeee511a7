use vstd::prelude::*;

verus! {

/// The base58 text that encodes the byte string `b`.
pub uninterp spec fn base58_of(b: Seq<u8>) -> Seq<char>;

/// What base58 decoding yields for the text `s`: the decoded bytes, or
/// `None` when `s` is not well-formed base58 text.
pub uninterp spec fn base58_decode_of(s: Seq<char>) -> Option<Seq<u8>>;

/// Relies on bs58::encode: encoding is a function of the input bytes
/// alone, and bs58::decode inverts it.
#[verifier::external_body]
pub(crate) fn b58_encode(b: &Vec<u8>) -> (r: String)
    ensures
        r@ == base58_of(b@),
        base58_decode_of(r@) == Some(b@),
{
    bs58::encode(b).into_string()
}

/// Relies on bs58::decode: it returns the decoded bytes exactly when the
/// text is well-formed base58, and an error otherwise.
#[verifier::external_body]
pub(crate) fn b58_decode(s: &str) -> (r: Option<Vec<u8>>)
    ensures
        (r is Some) == (base58_decode_of(s@) is Some),
        r matches Some(v) ==> base58_decode_of(s@) == Some(v@),
{
    bs58::decode(s).into_vec().ok()
}

} // verus!
