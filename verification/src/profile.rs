//! The display name that a profile document states.
//!
//! A profile update carries a JSON document. Its `display_name` member names
//! the author; where that member is missing or null, `name` does. A document
//! that does not parse, or whose chosen member is no string, names nobody.

use vstd::prelude::*;

verus! {

/// `serde_json::Value`, a parsed JSON value. Nothing inside it is seen here;
/// [`json_members`] names what it holds.
#[verifier::external_type_specification]
#[verifier::external_body]
pub struct ExJsonValue(serde_json::Value);

/// `serde_json::Error`, why a text did not parse. It is never looked into.
#[verifier::external_type_specification]
#[verifier::external_body]
pub struct ExJsonError(serde_json::Error);

/// What a member of a JSON object holds, as far as a profile is read.
#[derive(Clone, Debug, PartialEq, Eq)]
pub enum Member {
    /// The JSON value `null`.
    Null,
    /// A JSON string.
    Text(String),
    /// A boolean, a number, an array or an object.
    Other,
}

/// A [`Member`] as a mathematical value.
pub enum MemberView {
    Null,
    Text(Seq<char>),
    Other,
}

impl View for Member {
    type V = MemberView;

    open spec fn view(&self) -> MemberView {
        match self {
            Member::Null => MemberView::Null,
            Member::Text(text) => MemberView::Text(text@),
            Member::Other => MemberView::Other,
        }
    }
}

impl DeepView for Member {
    type V = MemberView;

    open spec fn deep_view(&self) -> MemberView {
        self@
    }
}

/// The members of a parsed JSON value by key: those of the object if it is
/// one, none otherwise.
pub uninterp spec fn json_members(value: serde_json::Value) -> Map<Seq<char>, MemberView>;

/// The members of the JSON value that a text parses to, or `None` where the
/// text is not one JSON value.
pub uninterp spec fn json_document(text: Seq<char>) -> Option<Map<Seq<char>, MemberView>>;

/// The member under `key`, if there is one.
pub open spec fn member_at(members: Map<Seq<char>, MemberView>, key: Seq<char>) -> Option<
    MemberView,
> {
    if members.contains_key(key) {
        Some(members[key])
    } else {
        None
    }
}

/// The name that two looked-up members give: the first unless it is missing
/// or null, then the second; and only if the one chosen is a string.
pub open spec fn chosen_name(display_name: Option<MemberView>, name: Option<MemberView>) -> Option<
    Seq<char>,
> {
    let picked = match display_name {
        None => name,
        Some(MemberView::Null) => name,
        Some(_) => display_name,
    };
    match picked {
        Some(MemberView::Text(text)) => Some(text),
        _ => None,
    }
}

/// The display name stated by the members of a profile document.
pub open spec fn name_in(members: Map<Seq<char>, MemberView>) -> Option<Seq<char>> {
    chosen_name(member_at(members, "display_name"@), member_at(members, "name"@))
}

/// The display name that a profile's content states, if any.
pub open spec fn display_name_of(content: Seq<char>) -> Option<Seq<char>> {
    match json_document(content) {
        None => None,
        Some(members) => name_in(members),
    }
}

/// Calls `serde_json::from_str` for a `serde_json::Value`. Trusted: the
/// outcome is a function of the text alone, an error exactly where the text
/// is not one JSON value.
#[verifier::external_body]
fn parse_json(text: &str) -> (parsed: Result<serde_json::Value, serde_json::Error>)
    ensures
        match parsed {
            Ok(value) => json_document(text@) == Some(json_members(value)),
            Err(_) => json_document(text@).is_none(),
        },
{
    serde_json::from_str::<serde_json::Value>(text)
}

/// Calls `serde_json::Value::get` with a string key and tells the variants
/// of what it finds apart. Trusted: the result is the member that the value
/// holds under the key, `None` where it holds none or is no object.
#[verifier::external_body]
fn json_member(value: &serde_json::Value, key: &str) -> (member: Option<Member>)
    ensures
        member.deep_view() == member_at(json_members(*value), key@),
{
    match value.get(key) {
        None => None,
        Some(serde_json::Value::Null) => Some(Member::Null),
        Some(serde_json::Value::String(text)) => Some(Member::Text(text.clone())),
        Some(serde_json::Value::Bool(_)) => Some(Member::Other),
        Some(serde_json::Value::Number(_)) => Some(Member::Other),
        Some(serde_json::Value::Array(_)) => Some(Member::Other),
        Some(serde_json::Value::Object(_)) => Some(Member::Other),
    }
}

/// Chooses the display name among the `display_name` and `name` members of a
/// profile document, each as it was looked up.
pub fn select_display_name(display_name: Option<Member>, name: Option<Member>) -> (chosen: Option<
    String,
>)
    ensures
        chosen.deep_view() == chosen_name(display_name.deep_view(), name.deep_view()),
{
    let picked = match display_name {
        None => name,
        Some(Member::Null) => name,
        Some(member) => Some(member),
    };
    match picked {
        Some(Member::Text(text)) => Some(text),
        _ => None,
    }
}

/// Reads the display name out of a profile's content.
///
/// Content that is not JSON, or that states no usable name, gives `None`;
/// nothing is reported as an error.
pub fn extract_display_name(content: &str) -> (found: Option<String>)
    ensures
        found.deep_view() == display_name_of(content@),
{
    match parse_json(content) {
        Err(_) => None,
        Ok(document) => {
            let display_name = json_member(&document, "display_name");
            let name = json_member(&document, "name");
            select_display_name(display_name, name)
        },
    }
}

} // verus!
