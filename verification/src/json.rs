//! The JSON text in which a run keeps its target values.

use crate::text::decimal;
use vstd::prelude::*;

verus! {

/// The decimals of some values, with a comma between each two.
pub open spec fn comma_separated(values: Seq<u64>) -> Seq<char>
    decreases values.len(),
{
    if values.len() == 0 {
        Seq::empty()
    } else if values.len() == 1 {
        decimal(values[0] as nat)
    } else {
        comma_separated(values.drop_last()) + seq![','] + decimal(values.last() as nat)
    }
}

/// The JSON array of some values.
pub open spec fn json_array(values: Seq<u64>) -> Seq<char> {
    seq!['['] + comma_separated(values) + seq![']']
}

/// The values of an optional vector.
pub open spec fn optional_values(read: Option<Vec<u64>>) -> Option<Seq<u64>> {
    match read {
        Some(v) => Some(v@),
        None => None,
    }
}

/// What `serde_json::from_str` reads from a text as an array of unsigned numbers: `None` where the
/// text is no such array.
pub uninterp spec fn parsed_array(json: Seq<char>) -> Option<Seq<u64>>;

/// `serde_json::to_string` on a slice of unsigned numbers: the array with no blanks in it. Writing
/// one into a string does not fail.
#[verifier::external_body]
pub(crate) fn array_text(values: &[u64]) -> (text: Result<String, serde_json::Error>)
    ensures
        text is Ok,
        text->Ok_0@ == json_array(values@),
{
    serde_json::to_string(values)
}

/// `serde_json::from_str` into a vector of unsigned numbers, with its error dropped: the result
/// depends on the text alone, and the text that `serde_json::to_string` writes of some values is
/// read back as those values.
#[verifier::external_body]
pub(crate) fn array_values(json: &str) -> (values: Option<Vec<u64>>)
    ensures
        optional_values(values) == parsed_array(json@),
        forall|written: Seq<u64>|
            json@ == #[trigger] json_array(written) ==> optional_values(values) == Some(written),
{
    serde_json::from_str(json).ok()
}

/// `serde_json::Error`, which is dropped where it comes up.
#[verifier::external_type_specification]
#[verifier::external_body]
pub struct ExJsonError(serde_json::Error);

/// The values that a stored text stands for: none where it is no array of unsigned numbers.
pub open spec fn target_values_of(json: Seq<char>) -> Seq<u64> {
    values_or_none(parsed_array(json))
}

/// The values that were read, or none.
pub open spec fn values_or_none(read: Option<Seq<u64>>) -> Seq<u64> {
    match read {
        Some(values) => values,
        None => Seq::empty(),
    }
}

/// The values that were read, or none.
pub fn or_no_values(read: Option<Vec<u64>>) -> (values: Vec<u64>)
    ensures
        values@ == values_or_none(optional_values(read)),
{
    match read {
        Some(v) => v,
        None => Vec::new(),
    }
}

/// Reads the target values of a run back from their JSON text; a text that is no array of unsigned
/// numbers counts as none.
pub fn parse_target_values(json: &str) -> (values: Vec<u64>)
    ensures
        values@ == target_values_of(json@),
        forall|written: Seq<u64>| json@ == #[trigger] json_array(written) ==> values@ == written,
{
    or_no_values(array_values(json))
}

/// Writes the target values of a run as JSON text.
pub fn target_values_text(values: &[u64]) -> (text: String)
    ensures
        text@ == json_array(values@),
{
    match array_text(values) {
        Ok(s) => s,
        Err(_) => String::new(),
    }
}

} // verus!
