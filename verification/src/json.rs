//! JSON text, as `serde_json` writes it.

use vstd::prelude::*;

verus! {

/// The compact JSON text that `serde_json` writes for a list of strings.
///
/// Nothing is stated about the text itself: it is whatever
/// `serde_json::to_string` returns for the list, and the same list always
/// has the same text.
pub uninterp spec fn json_array_text(items: Seq<Seq<char>>) -> Seq<char>;

#[verifier::external_type_specification]
#[verifier::external_body]
pub struct ExJsonError(serde_json::Error);

/// Calls `serde_json::to_string` on a list of strings.
///
/// Trusted, not proved: the call succeeds, and its result is the text named
/// by [`json_array_text`]. `serde_json` documents two ways for a
/// serialization to fail, a `Serialize` impl that reports an error and a map
/// whose keys are not strings; a `Vec<String>` has neither, and the text goes
/// to a byte vector in memory, whose writes do not fail.
#[verifier::external_body]
pub(crate) fn to_json_array(items: &Vec<String>) -> (text: Result<String, serde_json::Error>)
    ensures
        text is Ok,
        text matches Ok(t) ==> t@ == json_array_text(items.deep_view()),
{
    serde_json::to_string(items)
}

} // verus!
