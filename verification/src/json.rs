//! Lists of names stored as JSON text, read with `serde_json`.

use vstd::prelude::*;

verus! {

/// The list of strings that `serde_json::from_str::<Vec<String>>` reads from
/// `text`, or `None` when the text is no JSON array of strings. JSON's
/// grammar and escapes are not restated.
pub uninterp spec fn json_string_list(text: Seq<char>) -> Option<Seq<Seq<char>>>;

/// Reads a JSON array of strings with `serde_json::from_str::<Vec<String>>`.
/// The result, and whether there is one, is named `json_string_list`.
#[verifier::external_body]
pub(crate) fn parse_string_list(text: &str) -> (res: Option<Vec<String>>)
    ensures
        res.deep_view() == json_string_list(text@),
{
    match serde_json::from_str::<Vec<String>>(text) {
        Ok(list) => Some(list),
        Err(_) => None,
    }
}

/// The strings of a JSON array, or none where the text is no such array.
pub open spec fn string_list_or_empty(text: Seq<char>) -> Seq<Seq<char>> {
    match json_string_list(text) {
        Some(list) => list,
        None => Seq::empty(),
    }
}

/// A read list, or the empty list where nothing could be read.
pub fn list_or_empty(read: Option<Vec<String>>) -> (res: Vec<String>)
    ensures
        res.deep_view() == match read.deep_view() {
            Some(list) => list,
            None => Seq::<Seq<char>>::empty(),
        },
{
    match read {
        Some(list) => list,
        None => {
            let empty: Vec<String> = Vec::new();
            assert(empty.deep_view() =~= Seq::<Seq<char>>::empty());
            empty
        },
    }
}

/// Reads a JSON array of strings; text that is no such array reads as the
/// empty list.
pub fn string_list_from_json(text: &str) -> (res: Vec<String>)
    ensures
        res.deep_view() == string_list_or_empty(text@),
{
    list_or_empty(parse_string_list(text))
}

} // verus!
