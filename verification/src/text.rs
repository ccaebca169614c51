use vstd::prelude::*;

verus! {

/// The text without its leading and trailing whitespace; named here, computed
/// by the standard library.
pub uninterp spec fn trim_of(s: Seq<char>) -> Seq<char>;

/// Relies on str::trim: removes leading and trailing whitespace; the result
/// depends on the characters alone.
#[verifier::external_body]
pub(crate) fn trim_str(s: &str) -> (r: String)
    ensures
        r@ == trim_of(s@),
{
    s.trim().to_owned()
}

/// The standard base64 encoding of the text's bytes; named here, computed
/// only by the base64 crate.
pub uninterp spec fn base64_of(s: Seq<char>) -> Seq<char>;

/// Relies on base64::encode: the standard-alphabet, padded encoding of the
/// text's bytes, a function of the characters alone.
#[verifier::external_body]
pub(crate) fn base64_str(s: &str) -> (r: String)
    ensures
        r@ == base64_of(s@),
{
    base64::encode(s.as_bytes())
}

} // verus!
