//! Reading the extraction tool's JSON, which `serde_json` parses.
//!
//! A record reads only the names of an object's members, the members that
//! are strings and the members that are unsigned integers, so that is all a
//! [`JsonMember`] keeps.

use vstd::prelude::*;

verus! {

/// Why `serde_json` rejected a text.
#[verifier::external_type_specification]
#[verifier::external_body]
pub struct ExJsonError(serde_json::Error);

/// A member of a JSON object, as contracts see it.
pub ghost struct MemberView {
    pub name: Seq<char>,
    pub text: Option<Seq<char>>,
    pub count: Option<u64>,
}

/// One member of a JSON object.
#[derive(Debug)]
pub struct JsonMember {
    /// The member's name.
    pub name: String,
    /// Its value, where that is a string.
    pub text: Option<String>,
    /// Its value, where that is an integer from 0 to 2^64 - 1.
    pub count: Option<u64>,
}

impl DeepView for JsonMember {
    type V = MemberView;

    open spec fn deep_view(&self) -> MemberView {
        MemberView { name: self.name@, text: self.text.deep_view(), count: self.count }
    }
}

impl View for JsonMember {
    type V = MemberView;

    open spec fn view(&self) -> MemberView {
        self.deep_view()
    }
}

/// What `text` holds when read as a JSON array of objects: for each object
/// its members, or `None` where `text` is no such array.
pub uninterp spec fn json_records(text: Seq<char>) -> Option<Seq<Seq<MemberView>>>;

/// Parses `text` with `serde_json::from_str` as a sequence of JSON objects,
/// and reads each member's value with `Value::as_str` and `Value::as_u64`.
///
/// Trusted: the outcome depends on `text` alone, which is all the contract
/// claims. An error means that `text` is not a JSON array of objects. Of a
/// name that an object holds more than once, `serde_json` keeps the last
/// value.
#[verifier::external_body]
pub(crate) fn parse_records(text: &str) -> (parsed: Result<
    Vec<Vec<JsonMember>>,
    serde_json::Error,
>)
    ensures
        json_records(text@) == match parsed {
            Ok(records) => Some(records.deep_view()),
            Err(_) => None,
        },
{
    let objects: Vec<serde_json::Map<String, serde_json::Value>> = serde_json::from_str(text)?;
    let mut records = Vec::new();
    for object in objects {
        let mut members = Vec::new();
        for (name, value) in object {
            let text = value.as_str().map(String::from);
            members.push(JsonMember { name, text, count: value.as_u64() });
        }
        records.push(members);
    }
    Ok(records)
}

} // verus!
