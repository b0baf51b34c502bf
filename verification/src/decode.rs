//! Decoding the text of a frame into a record.
//!
//! The text is parsed as JSON. A record comes out of a JSON object that holds
//! each of the two fields as text, under the field's own name or under its
//! alias; the field's own name is tried first. A member that goes by one of
//! those names and holds anything but text makes the object invalid. What the
//! object holds under other names is ignored.

use vstd::prelude::*;
use crate::document::{
    member_views, parse, parsed, Document, DocumentView, Member, MemberView,
};
use crate::record::{Field, IncomingRecord, RecordView};

verus! {

/// Why a text gave no record.
#[derive(Clone, Debug, PartialEq, Eq)]
pub enum DecodeError {
    /// The text is not JSON; the parser's message says why.
    Malformed(String),
    /// The text is JSON, but no object.
    NotAnObject,
    /// A member that goes by one of the field's spellings holds no text.
    InvalidField(Field),
    /// No member goes by either of the field's spellings.
    MissingField(Field),
}

/// A decode error, as plain text.
pub enum DecodeErrorView {
    Malformed(Seq<char>),
    NotAnObject,
    InvalidField(Field),
    MissingField(Field),
}

impl View for DecodeError {
    type V = DecodeErrorView;

    open spec fn view(&self) -> DecodeErrorView {
        match self {
            DecodeError::Malformed(message) => DecodeErrorView::Malformed(message@),
            DecodeError::NotAnObject => DecodeErrorView::NotAnObject,
            DecodeError::InvalidField(field) => DecodeErrorView::InvalidField(*field),
            DecodeError::MissingField(field) => DecodeErrorView::MissingField(*field),
        }
    }
}

/// Whether some member that goes by one of the spellings of `field` holds a
/// value that is no text.
pub open spec fn mistyped(members: Seq<MemberView>, field: Field) -> bool {
    exists|i: int|
        0 <= i < members.len() && field.spelled((#[trigger] members[i]).name)
            && members[i].text is None
}

/// The text of the first member of `members` that goes by `name`: none where
/// there is no such member, or where it holds no text.
pub open spec fn text_under(members: Seq<MemberView>, name: Seq<char>) -> Option<Seq<char>>
    decreases members.len(),
{
    if members.len() == 0 {
        None
    } else if members[0].name == name {
        members[0].text
    } else {
        text_under(members.drop_first(), name)
    }
}

/// The text that `members` hold for `field`: under its own name, else under
/// its alias.
pub open spec fn field_text(members: Seq<MemberView>, field: Field) -> Option<Seq<char>> {
    match text_under(members, field.canonical_name()) {
        Some(text) => Some(text),
        None => text_under(members, field.alias_name()),
    }
}

/// What decoding makes of the members of an object. A member spelled for a
/// field that holds no text is reported first, then a field that no member is
/// spelled for; of two fields at fault the timestamp is reported.
pub open spec fn decoded_members(members: Seq<MemberView>) -> Result<RecordView, DecodeErrorView> {
    if mistyped(members, Field::CurrentTime) {
        Err(DecodeErrorView::InvalidField(Field::CurrentTime))
    } else if mistyped(members, Field::PlaylistContents) {
        Err(DecodeErrorView::InvalidField(Field::PlaylistContents))
    } else {
        match field_text(members, Field::CurrentTime) {
            None => Err(DecodeErrorView::MissingField(Field::CurrentTime)),
            Some(current_time) => match field_text(members, Field::PlaylistContents) {
                None => Err(DecodeErrorView::MissingField(Field::PlaylistContents)),
                Some(playlist_contents) => Ok(RecordView { current_time, playlist_contents }),
            },
        }
    }
}

/// What decoding makes of a parsed document.
pub open spec fn decoded(document: DocumentView) -> Result<RecordView, DecodeErrorView> {
    match document {
        DocumentView::Other => Err(DecodeErrorView::NotAnObject),
        DocumentView::Object(members) => decoded_members(members),
    }
}

/// What decoding makes of a text: the parser's complaint, or what the parsed
/// document gives.
pub open spec fn decoded_text(text: Seq<char>) -> Result<RecordView, DecodeErrorView> {
    match parsed(text) {
        Err(message) => Err(DecodeErrorView::Malformed(message)),
        Ok(document) => decoded(document),
    }
}

/// The view of a decoding's outcome.
pub open spec fn outcome_view(outcome: Result<IncomingRecord, DecodeError>) -> Result<
    RecordView,
    DecodeErrorView,
> {
    match outcome {
        Ok(record) => Ok(record@),
        Err(error) => Err(error@),
    }
}

/// The view of an optional text.
pub open spec fn text_view(text: Option<String>) -> Option<Seq<char>> {
    match text {
        Some(text) => Some(text@),
        None => None,
    }
}

/// Whether some member that goes by one of the spellings of `field` holds a
/// value that is no text.
pub fn has_mistyped(members: &Vec<Member>, field: Field) -> (found: bool)
    ensures
        found == mistyped(member_views(members@), field),
{
    let ghost all = member_views(members@);
    let own = field.canonical().to_owned();
    let other = field.alias().to_owned();
    let mut i: usize = 0;
    while i < members.len()
        invariant
            i <= members.len(),
            all == member_views(members@),
            own@ == field.canonical_name(),
            other@ == field.alias_name(),
            forall|j: int|
                0 <= j < i ==> !(field.spelled((#[trigger] all[j]).name) && all[j].text is None),
        decreases members.len() - i,
    {
        let member = &members[i];
        assert(all[i as int] == member@);
        if member.text.is_none() && (member.name == own || member.name == other) {
            return true;
        }
        i += 1;
    }
    false
}

/// A copy of the text of the first member of `members` that goes by `name`:
/// none where there is no such member, or where it holds no text.
pub fn find_text(members: &Vec<Member>, name: &str) -> (found: Option<String>)
    ensures
        text_view(found) == text_under(member_views(members@), name@),
{
    let ghost all = member_views(members@);
    let wanted = name.to_owned();
    let mut i: usize = 0;
    assert(all.skip(0) == all);
    while i < members.len()
        invariant
            i <= members.len(),
            all == member_views(members@),
            wanted@ == name@,
            text_under(all, name@) == text_under(all.skip(i as int), name@),
        decreases members.len() - i,
    {
        let member = &members[i];
        proof {
            assert(all.skip(i as int)[0] == member@);
            assert(all.skip(i as int).drop_first() == all.skip(i + 1));
        }
        if member.name == wanted {
            return match &member.text {
                Some(text) => Some(text.clone()),
                None => None,
            };
        }
        i += 1;
    }
    None
}

/// The text that `members` hold for `field`, if any: under the field's own
/// name, else under its alias.
pub fn find_field(members: &Vec<Member>, field: Field) -> (found: Option<String>)
    ensures
        text_view(found) == field_text(member_views(members@), field),
{
    match find_text(members, field.canonical()) {
        Some(text) => Some(text),
        None => find_text(members, field.alias()),
    }
}

/// Decodes a parsed document. A record comes out exactly when the document
/// is an object in which both fields have a member spelled for them, and
/// every member so spelled holds text; the record holds the two texts. Else
/// the error says what is wrong: the document is no object, a member spelled
/// for a field holds no text, or no member is spelled for a field.
pub fn decode_document(document: &Document) -> (outcome: Result<IncomingRecord, DecodeError>)
    ensures
        outcome_view(outcome) == decoded(document@),
{
    match document {
        Document::Other => Err(DecodeError::NotAnObject),
        Document::Object(members) => {
            if has_mistyped(members, Field::CurrentTime) {
                Err(DecodeError::InvalidField(Field::CurrentTime))
            } else if has_mistyped(members, Field::PlaylistContents) {
                Err(DecodeError::InvalidField(Field::PlaylistContents))
            } else {
                match find_field(members, Field::CurrentTime) {
                    None => Err(DecodeError::MissingField(Field::CurrentTime)),
                    Some(current_time) => match find_field(members, Field::PlaylistContents) {
                        None => Err(DecodeError::MissingField(Field::PlaylistContents)),
                        Some(playlist_contents) => Ok(
                            IncomingRecord { current_time, playlist_contents },
                        ),
                    },
                }
            }
        },
    }
}

/// Parses a text as JSON. The document comes out exactly when the parser
/// accepts the text; else the error carries the parser's message.
pub fn read_document(text: &str) -> (outcome: Result<Document, DecodeError>)
    ensures
        match parsed(text@) {
            Ok(document) => outcome matches Ok(read) && read@ == document,
            Err(message) => outcome matches Err(error) && error@ == DecodeErrorView::Malformed(
                message,
            ),
        },
{
    match parse(text) {
        Ok(document) => Ok(document),
        Err(message) => Err(DecodeError::Malformed(message)),
    }
}

/// Decodes the text of a frame: parses it as JSON, then decodes the document.
pub fn decode(text: &str) -> (outcome: Result<IncomingRecord, DecodeError>)
    ensures
        outcome_view(outcome) == decoded_text(text@),
{
    match read_document(text) {
        Ok(document) => decode_document(&document),
        Err(error) => Err(error),
    }
}

/// Whether some member goes by one of the spellings of `field`.
pub open spec fn names(members: Seq<MemberView>, field: Field) -> bool {
    exists|i: int| 0 <= i < members.len() && field.spelled((#[trigger] members[i]).name)
}

/// Whether some member that goes by one of the spellings of `field` holds
/// the text `text`.
pub open spec fn holds(members: Seq<MemberView>, field: Field, text: Seq<char>) -> bool {
    exists|i: int|
        0 <= i < members.len() && field.spelled((#[trigger] members[i]).name)
            && members[i].text == Some(text)
}

/// What is found under a name is the text of a member of that name. Where
/// every member of that name holds text, a text is found exactly when there
/// is such a member.
pub proof fn lemma_text_under(members: Seq<MemberView>, name: Seq<char>)
    ensures
        text_under(members, name) matches Some(text) ==> exists|i: int|
            0 <= i < members.len() && (#[trigger] members[i]).name == name && members[i].text
                == Some(text),
        (forall|i: int|
            0 <= i < members.len() && (#[trigger] members[i]).name == name
                ==> members[i].text is Some) ==> (text_under(members, name) is Some
            <==> exists|i: int| 0 <= i < members.len() && (#[trigger] members[i]).name == name),
    decreases members.len(),
{
    if members.len() > 0 {
        let rest = members.drop_first();
        lemma_text_under(rest, name);
        assert(forall|i: int| 0 <= i < rest.len() ==> #[trigger] rest[i] == members[i + 1]);
        if members[0].name != name {
            if text_under(rest, name) is Some {
                let text = text_under(rest, name)->Some_0;
                let i = choose|i: int|
                    0 <= i < rest.len() && (#[trigger] rest[i]).name == name && rest[i].text
                        == Some(text);
                assert(members[i + 1] == rest[i]);
            }
            if forall|i: int|
                0 <= i < members.len() && (#[trigger] members[i]).name == name
                    ==> members[i].text is Some {
                assert forall|i: int|
                    0 <= i < rest.len() && (#[trigger] rest[i]).name == name implies rest[i].text
                    is Some by {
                    assert(rest[i] == members[i + 1]);
                }
                if exists|i: int| 0 <= i < members.len() && (#[trigger] members[i]).name == name {
                    let i = choose|i: int|
                        0 <= i < members.len() && (#[trigger] members[i]).name == name;
                    assert(rest[i - 1] == members[i]);
                }
                if exists|i: int| 0 <= i < rest.len() && (#[trigger] rest[i]).name == name {
                    let i = choose|i: int| 0 <= i < rest.len() && (#[trigger] rest[i]).name == name;
                    assert(members[i + 1] == rest[i]);
                }
            }
        }
    }
}

/// What is found for a field is the text of a member spelled for it. Where
/// every member spelled for the field holds text, a text is found exactly
/// when there is such a member.
pub proof fn law_field_found(members: Seq<MemberView>, field: Field)
    ensures
        field_text(members, field) matches Some(text) ==> holds(members, field, text),
        !mistyped(members, field) ==> (field_text(members, field) is Some <==> names(
            members,
            field,
        )),
{
    lemma_text_under(members, field.canonical_name());
    lemma_text_under(members, field.alias_name());
    if !mistyped(members, field) {
        assert forall|i: int|
            0 <= i < members.len() && field.spelled((#[trigger] members[i]).name)
                implies members[i].text is Some by {}
    }
}

/// The field's own name goes before its alias: where the first member of
/// that name holds text, it gives the field, whatever stands under the alias.
pub proof fn law_canonical_name_wins(members: Seq<MemberView>, field: Field)
    requires
        text_under(members, field.canonical_name()) is Some,
    ensures
        field_text(members, field) == text_under(members, field.canonical_name()),
{
}

/// Where just one member is spelled for a field, and it holds text, the
/// field is that text.
pub proof fn law_sole_member_gives_the_field(members: Seq<MemberView>, field: Field, at: int)
    requires
        0 <= at < members.len(),
        field.spelled(members[at].name),
        members[at].text is Some,
        forall|i: int|
            0 <= i < members.len() && i != at ==> !field.spelled((#[trigger] members[i]).name),
    ensures
        !mistyped(members, field),
        field_text(members, field) == members[at].text,
{
    law_field_found(members, field);
}

/// A member spelled for a field that holds no text makes the object invalid,
/// whatever its other members hold: no record comes out, and the error names
/// a field that is at fault in this way.
pub proof fn law_mistyped_field_fails(members: Seq<MemberView>, field: Field)
    requires
        mistyped(members, field),
    ensures
        decoded_members(members) matches Err(DecodeErrorView::InvalidField(named)) && mistyped(
            members,
            named,
        ),
{
}

/// A document decodes to a record exactly when it is an object in which each
/// of the two fields has a member spelled for it and every member so spelled
/// holds text. The record then holds, for each field, the text of a member
/// so spelled. Members of other names play no part.
pub proof fn law_decodes_iff_complete(document: DocumentView)
    ensures
        decoded(document) is Ok <==> (document matches DocumentView::Object(members) && names(
            members,
            Field::CurrentTime,
        ) && names(members, Field::PlaylistContents) && !mistyped(members, Field::CurrentTime)
            && !mistyped(members, Field::PlaylistContents)),
        decoded(document) matches Ok(record) ==> (document matches DocumentView::Object(members)
            && holds(members, Field::CurrentTime, record.current_time) && holds(
            members,
            Field::PlaylistContents,
            record.playlist_contents,
        )),
{
    if let DocumentView::Object(members) = document {
        law_field_found(members, Field::CurrentTime);
        law_field_found(members, Field::PlaylistContents);
    }
}

/// A text that parses to an object in which both fields have a member
/// spelled for them, all of these holding text, decodes; the record holds
/// for each field the text of a member spelled for it.
pub proof fn law_complete_object_decodes(text: Seq<char>, members: Seq<MemberView>)
    requires
        parsed(text) == Ok::<DocumentView, Seq<char>>(DocumentView::Object(members)),
        names(members, Field::CurrentTime),
        names(members, Field::PlaylistContents),
        !mistyped(members, Field::CurrentTime),
        !mistyped(members, Field::PlaylistContents),
    ensures
        decoded_text(text) matches Ok(record) && holds(
            members,
            Field::CurrentTime,
            record.current_time,
        ) && holds(members, Field::PlaylistContents, record.playlist_contents),
{
    law_decodes_iff_complete(DocumentView::Object(members));
}

/// A text decodes to no record where the parser refuses it, where it parses
/// to something other than an object, where a member spelled for a field
/// holds no text, and where no member is spelled for a field; the error says
/// which of these holds.
pub proof fn law_incomplete_text_fails(text: Seq<char>)
    ensures
        parsed(text) matches Err(message) ==> decoded_text(text) == Err::<
            RecordView,
            DecodeErrorView,
        >(DecodeErrorView::Malformed(message)),
        parsed(text) == Ok::<DocumentView, Seq<char>>(DocumentView::Other) ==> decoded_text(text)
            == Err::<RecordView, DecodeErrorView>(DecodeErrorView::NotAnObject),
        parsed(text) matches Ok(DocumentView::Object(members)) ==> ((mistyped(
            members,
            Field::CurrentTime,
        ) || mistyped(members, Field::PlaylistContents)) ==> (decoded_text(text) matches Err(
            DecodeErrorView::InvalidField(named),
        ) && mistyped(members, named))),
        parsed(text) matches Ok(DocumentView::Object(members)) ==> (!mistyped(
            members,
            Field::CurrentTime,
        ) && !mistyped(members, Field::PlaylistContents) && !names(members, Field::CurrentTime)
            ==> decoded_text(text) == Err::<RecordView, DecodeErrorView>(
            DecodeErrorView::MissingField(Field::CurrentTime),
        )),
        parsed(text) matches Ok(DocumentView::Object(members)) ==> (!mistyped(
            members,
            Field::CurrentTime,
        ) && !mistyped(members, Field::PlaylistContents) && names(members, Field::CurrentTime)
            && !names(members, Field::PlaylistContents) ==> decoded_text(text) == Err::<
            RecordView,
            DecodeErrorView,
        >(DecodeErrorView::MissingField(Field::PlaylistContents))),
{
    if let Ok(DocumentView::Object(members)) = parsed(text) {
        law_field_found(members, Field::CurrentTime);
        law_field_found(members, Field::PlaylistContents);
    }
}

} // verus!
