use vstd::prelude::*;

verus! {

/// What reading the JSON document `text` gives at `text[outer][inner]` as an unsigned integer:
/// `None` where `text` is not JSON, `Some(None)` where that member is missing or not an
/// unsigned integer that fits in a `u64`.
pub uninterp spec fn json_u64_at(text: Seq<char>, outer: Seq<char>, inner: Seq<char>) -> Option<
    Option<u64>,
>;

/// What reading the JSON document `text` gives at `text[outer][inner]` as an array, each
/// element written back as JSON text: `None` where `text` is not JSON, `Some(None)` where that
/// member is missing or not an array.
pub uninterp spec fn json_array_at(text: Seq<char>, outer: Seq<char>, inner: Seq<char>) -> Option<
    Option<Seq<Seq<char>>>,
>;

/// Parses `text` with `serde_json::from_str` into a `serde_json::Value`, then reads the member
/// `inner` of the member `outer` (serde_json's indexing gives `Null` for a missing member) with
/// `Value::as_u64`. The result is the name `json_u64_at` of the arguments; nothing more of
/// JSON is stated.
#[verifier::external_body]
fn json_u64_field(text: &str, outer: &str, inner: &str) -> (field: Option<Option<u64>>)
    ensures
        field == json_u64_at(text@, outer@, inner@),
{
    match serde_json::from_str::<serde_json::Value>(text) {
        Ok(value) => Some(value[outer][inner].as_u64()),
        Err(_) => None,
    }
}

/// Parses `text` with `serde_json::from_str` into a `serde_json::Value`, then reads the member
/// `inner` of the member `outer` with `Value::as_array`, and writes each element back as JSON
/// text with its `Display` impl. The result is the name `json_array_at` of the arguments.
#[verifier::external_body]
fn json_array_field(text: &str, outer: &str, inner: &str) -> (field: Option<Option<Vec<String>>>)
    ensures
        json_array_at(text@, outer@, inner@) == match field {
            None => None,
            Some(None) => Some(None),
            Some(Some(elements)) => Some(Some(elements@.map_values(|e: String| e@))),
        },
{
    match serde_json::from_str::<serde_json::Value>(text) {
        Ok(value) => Some(
            value[outer][inner].as_array().map(|a| a.iter().map(|e| e.to_string()).collect()),
        ),
        Err(_) => None,
    }
}

/// The inventory size a character description gives, taken as a `u32` (the upper bits of a
/// larger number are dropped).
pub fn max_items_of(field: Option<u64>) -> (max_items: Option<u32>)
    ensures
        max_items == match field {
            Some(v) => Some(v as u32),
            None => None,
        },
{
    match field {
        Some(v) => Some(#[verifier::truncate] (v as u32)),
        None => None,
    }
}

/// The inventory size in the answer to a character request (`data.inventory_max_items`):
/// `None` where the answer is not JSON, `Some(None)` where the member is missing or not an
/// unsigned integer.
pub fn max_items_in_response(text: &str) -> (max_items: Option<Option<u32>>)
    ensures
        max_items == match json_u64_at(text@, "data"@, "inventory_max_items"@) {
            None => None,
            Some(field) => Some(
                match field {
                    Some(v) => Some(v as u32),
                    None => None,
                },
            ),
        },
{
    match json_u64_field(text, "data", "inventory_max_items") {
        None => None,
        Some(field) => Some(max_items_of(field)),
    }
}

/// The inventory stacks in the answer to a character request (`data.inventory`), each written
/// as JSON text: `None` where the answer is not JSON, `Some(None)` where the member is missing
/// or not an array.
pub fn inventory_in_response(text: &str) -> (inventory: Option<Option<Vec<String>>>)
    ensures
        json_array_at(text@, "data"@, "inventory"@) == match inventory {
            None => None,
            Some(None) => Some(None),
            Some(Some(elements)) => Some(Some(elements@.map_values(|e: String| e@))),
        },
{
    json_array_field(text, "data", "inventory")
}

} // verus!
