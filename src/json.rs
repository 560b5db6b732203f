//! JSON text for the persisted identity record: an array of strings.
use vstd::prelude::*;

verus! {

#[verifier::external_type_specification]
#[verifier::external_body]
pub struct ExJsonError(serde_json::Error);

/// The JSON text that `serde_json` writes for an array of strings.
pub uninterp spec fn json_array_text(items: Seq<Seq<char>>) -> Seq<char>;

/// The strings of a JSON array of strings, as `serde_json` reads them from a
/// text; `None` where the text is not such an array.
pub uninterp spec fn json_array_items(text: Seq<char>) -> Option<Seq<Seq<char>>>;

/// Relies on `serde_json::to_string`: on a `Vec<String>` it never fails (it
/// fails only for a failing `Serialize` impl or a map with non-string keys, and
/// it writes into a `Vec<u8>`); its text depends on the strings alone, and
/// `serde_json::from_str::<Vec<String>>` reads the same strings back from it,
/// since strings are escaped and unescaped losslessly.
#[verifier::external_body]
pub(crate) fn strings_to_json(items: &Vec<String>) -> (r: Result<String, serde_json::Error>)
    ensures
        r is Ok,
        r->Ok_0@ == json_array_text(items.deep_view()),
        json_array_items(r->Ok_0@) == Some(items.deep_view()),
{
    serde_json::to_string(items)
}

/// Relies on `serde_json::from_str::<Vec<String>>`: it succeeds exactly when the
/// text is a JSON array of strings, and then returns those strings.
#[verifier::external_body]
pub(crate) fn strings_from_json(text: &str) -> (r: Result<Vec<String>, serde_json::Error>)
    ensures
        r is Ok <==> json_array_items(text@) is Some,
        r is Ok ==> r->Ok_0.deep_view() == json_array_items(text@)->Some_0,
{
    serde_json::from_str::<Vec<String>>(text)
}

} // verus!
