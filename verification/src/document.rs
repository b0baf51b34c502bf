//! A JSON document, as far as decoding a record looks into it.

use vstd::prelude::*;

verus! {

/// A member of a JSON object: its name and, where its value is a JSON string,
/// the text of that string.
#[derive(Clone, Debug, PartialEq, Eq)]
pub struct Member {
    pub name: String,
    pub text: Option<String>,
}

/// What a member holds, as plain text.
pub struct MemberView {
    pub name: Seq<char>,
    pub text: Option<Seq<char>>,
}

impl View for Member {
    type V = MemberView;

    open spec fn view(&self) -> MemberView {
        MemberView {
            name: self.name@,
            text: match self.text {
                Some(text) => Some(text@),
                None => None,
            },
        }
    }
}

/// The views of a vector of members, in order.
pub open spec fn member_views(members: Seq<Member>) -> Seq<MemberView> {
    members.map_values(|m: Member| m@)
}

/// A parsed JSON document: an object with its members, or any other value.
#[derive(Clone, Debug, PartialEq, Eq)]
pub enum Document {
    Object(Vec<Member>),
    Other,
}

/// What a document holds, as plain text.
pub enum DocumentView {
    Object(Seq<MemberView>),
    Other,
}

impl View for Document {
    type V = DocumentView;

    open spec fn view(&self) -> DocumentView {
        match self {
            Document::Object(members) => DocumentView::Object(member_views(members@)),
            Document::Other => DocumentView::Other,
        }
    }
}

/// What `serde_json::from_str` makes of `text`, read as a `serde_json::Value`:
/// the document, or the message of the error it reports.
pub uninterp spec fn parsed(text: Seq<char>) -> Result<DocumentView, Seq<char>>;

/// The view of what parsing gave.
pub open spec fn parse_view(outcome: Result<Document, String>) -> Result<DocumentView, Seq<char>> {
    match outcome {
        Ok(document) => Ok(document@),
        Err(message) => Err(message@),
    }
}

/// Calls `serde_json::from_str` for a `serde_json::Value`. The contract claims
/// only that the outcome is a function of the text: the same text gives the
/// same document, or the same error message. An object comes back with the
/// members that the value holds, in the order in which its map hands them
/// out; a member's text is kept where its value is a string. An error comes
/// back as the message that it displays.
#[verifier::external_body]
pub(crate) fn parse(text: &str) -> (outcome: Result<Document, String>)
    ensures
        parse_view(outcome) == parsed(text@),
{
    match serde_json::from_str::<serde_json::Value>(text) {
        Ok(serde_json::Value::Object(map)) => Ok(Document::Object(
            map.into_iter().map(|(name, value)| match value {
                serde_json::Value::String(text) => Member { name, text: Some(text) },
                _ => Member { name, text: None },
            }).collect(),
        )),
        Ok(_) => Ok(Document::Other),
        Err(error) => Err(error.to_string()),
    }
}

} // verus!
