use vstd::prelude::*;

verus! {

/// `serde_json::Error`, the parser's error. Nothing is read from it: it is carried to
/// the caller, who maps it to a failure of the analysis.
#[verifier::external_type_specification]
#[verifier::external_body]
pub struct ExJsonError(serde_json::Error);

/// The values of a sequence of optional strings, in order.
pub open spec fn optional_texts(items: Seq<Option<String>>) -> Seq<Option<Seq<char>>> {
    Seq::new(
        items.len(),
        |i: int|
            match items[i] {
                Some(s) => Some(s@),
                None => None,
            },
    )
}

/// What a JSON document holds under `field` in the elements of its top-level array.
/// The outer `None`: `bytes` is no JSON document. The inner `None`: its top-level
/// value is no array. Otherwise one entry per element of the array, in order: the
/// string that the element holds under `field`, or `None` where the element has no
/// such member or the member is no string.
pub uninterp spec fn json_array_field(bytes: Seq<u8>, field: Seq<char>) -> Option<
    Option<Seq<Option<Seq<char>>>>,
>;

/// Parses with `serde_json::from_slice` into a `serde_json::Value`, takes the array with
/// `Value::as_array` and reads each element with `Value::get` and `Value::as_str`.
/// Trusted: the result is what `json_array_field` names, with the parser's error in
/// place of the outer `None`.
#[verifier::external_body]
pub(crate) fn read_array_field(bytes: &[u8], field: &str) -> (out: Result<
    Option<Vec<Option<String>>>,
    serde_json::Error,
>)
    ensures
        match out {
            Ok(Some(found)) => json_array_field(bytes@, field@) == Some(
                Some(optional_texts(found@)),
            ),
            Ok(None) => json_array_field(bytes@, field@) == Some(
                None::<Seq<Option<Seq<char>>>>,
            ),
            Err(_) => json_array_field(bytes@, field@) is None,
        },
{
    let value: serde_json::Value = serde_json::from_slice(bytes)?;
    Ok(
        value.as_array().map(
            |items|
                items.iter().map(
                    |item| item.get(field).and_then(|v| v.as_str()).map(|s| s.to_string()),
                ).collect(),
        ),
    )
}

/// Calls `to_string` on a `serde_json::Error`, which writes the parser's message with the
/// line and column at which it stopped. Trusted: nothing is claimed of the text.
#[verifier::external_body]
pub(crate) fn fault_text(fault: &serde_json::Error) -> (out: String) {
    fault.to_string()
}

} // verus!
