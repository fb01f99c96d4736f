//! The JSON document behind the store: a single object whose keys and values
//! are strings. Reading and rendering are left to `serde_json`.

use std::collections::HashMap;
use vstd::prelude::*;

verus! {

/// `serde_json::Error`: why a text was not read. It is carried, never looked
/// into.
#[verifier::external_type_specification]
#[verifier::external_body]
pub struct ExJsonError(serde_json::Error);

/// The object of strings that a JSON text denotes, or `None` where the text
/// is not such an object.
pub uninterp spec fn json_object(text: Seq<char>) -> Option<Map<Seq<char>, Seq<char>>>;

/// No two entries share a key.
pub open spec fn distinct_keys(entries: Seq<(String, String)>) -> bool {
    forall|i: int, j: int|
        0 <= i < j < entries.len() ==> (#[trigger] entries[i]).0@ != (#[trigger] entries[j]).0@
}

/// The map that a list of entries stands for. A later entry overrides an
/// earlier one with the same key.
pub open spec fn entries_map(entries: Seq<(String, String)>) -> Map<Seq<char>, Seq<char>>
    decreases entries.len(),
{
    if entries.len() == 0 {
        Map::empty()
    } else {
        entries_map(entries.drop_last()).insert(entries.last().0@, entries.last().1@)
    }
}

/// `serde_json::from_str`, at the type `HashMap<String, String>`. It
/// succeeds exactly on the texts that `json_object` is defined on; the
/// entries handed back are those of the parsed map, each key once, in no
/// particular order.
#[verifier::external_body]
pub(crate) fn parse_object(text: &str) -> (r: Result<Vec<(String, String)>, serde_json::Error>)
    ensures
        r is Ok <==> json_object(text@) is Some,
        r matches Ok(entries) ==> distinct_keys(entries@) && Some(entries_map(entries@))
            == json_object(text@),
{
    match serde_json::from_str::<HashMap<String, String>>(text) {
        Ok(object) => Ok(object.into_iter().collect()),
        Err(e) => Err(e),
    }
}

/// `serde_json::to_string`, on the `HashMap<String, String>` made of the
/// entries. Its documentation lets it fail only on a value whose own
/// `Serialize` fails or whose map keys are not strings, so on this map it
/// succeeds. The order of the keys in the text is not fixed, so the text is
/// not named; whatever text comes back reads back as the same map.
#[verifier::external_body]
pub(crate) fn render_object(entries: &Vec<(String, String)>) -> (r: Result<
    String,
    serde_json::Error,
>)
    ensures
        r is Ok,
        r matches Ok(text) ==> json_object(text@) == Some(entries_map(entries@)),
{
    let object: HashMap<String, String> = entries.iter().cloned().collect();
    serde_json::to_string(&object)
}

} // verus!
