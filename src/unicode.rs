use vstd::prelude::*;
use unicode_normalization::UnicodeNormalization;

verus! {

/// The canonical composition (NFC) of a text.
pub uninterp spec fn nfc_form(s: Seq<char>) -> Seq<char>;

/// The canonical decomposition (NFD) of a text.
pub uninterp spec fn nfd_form(s: Seq<char>) -> Seq<char>;

/// Normalize text to NFC form.
///
/// Relies on unicode_normalization's `nfc`: the result depends on the text
/// alone, and the empty text stays empty.
#[verifier::external_body]
pub fn normalize_nfc(text: &str) -> (r: String)
    ensures
        r@ == nfc_form(text@),
        text@.len() == 0 ==> r@.len() == 0,
{
    text.nfc().collect()
}

/// Normalize text to NFD form.
///
/// Relies on unicode_normalization's `nfd`: the result depends on the text
/// alone, and the empty text stays empty.
#[verifier::external_body]
pub fn normalize_nfd(text: &str) -> (r: String)
    ensures
        r@ == nfd_form(text@),
        text@.len() == 0 ==> r@.len() == 0,
{
    text.nfd().collect()
}

} // verus!
