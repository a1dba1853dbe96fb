//! Text building blocks shared by the request builders.

use vstd::prelude::*;

verus! {

/// `String::push_str` of std: the text afterwards is the text before followed
/// by `piece`.
pub assume_specification[ String::push_str ](target: &mut String, piece: &str)
    ensures
        final(target)@ == old(target)@ + piece@,
;

/// The Base64 text (standard alphabet, `=` padding) of the UTF-8 bytes of a
/// text.
pub uninterp spec fn base64_text(plain: Seq<char>) -> Seq<char>;

/// `base64_light::base64_encode`: returns the Base64 encoding of the bytes of
/// `plain`. The encoding depends on `plain` alone and the call never fails.
#[verifier::external_body]
pub(crate) fn base64_of(plain: &str) -> (encoded: String)
    ensures
        encoded@ == base64_text(plain@),
{
    base64_light::base64_encode(plain)
}

/// `first` followed by `second`.
pub fn joined(first: &str, second: &str) -> (whole: String)
    ensures
        whole@ == first@ + second@,
{
    let mut whole = first.to_owned();
    whole.push_str(second);
    whole
}

} // verus!
