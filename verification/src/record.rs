//! The record that one frame carries, and the names its fields go by.

use vstd::prelude::*;

verus! {

/// One of the two fields of a record.
#[derive(Clone, Copy, Debug, PartialEq, Eq, Structural)]
pub enum Field {
    CurrentTime,
    PlaylistContents,
}

impl Field {
    /// The field's own name on the wire.
    pub open spec fn canonical_name(self) -> Seq<char> {
        match self {
            Field::CurrentTime => "current_time"@,
            Field::PlaylistContents => "playlist_contents"@,
        }
    }

    /// The second spelling under which the field is accepted.
    pub open spec fn alias_name(self) -> Seq<char> {
        match self {
            Field::CurrentTime => "currentTime"@,
            Field::PlaylistContents => "playlistContents"@,
        }
    }

    /// Whether `name` is one of the field's two spellings.
    pub open spec fn spelled(self, name: Seq<char>) -> bool {
        name == self.canonical_name() || name == self.alias_name()
    }

    /// The field's own name on the wire.
    pub fn canonical(self) -> (name: &'static str)
        ensures
            name@ == self.canonical_name(),
    {
        match self {
            Field::CurrentTime => "current_time",
            Field::PlaylistContents => "playlist_contents",
        }
    }

    /// The second spelling under which the field is accepted.
    pub fn alias(self) -> (name: &'static str)
        ensures
            name@ == self.alias_name(),
    {
        match self {
            Field::CurrentTime => "currentTime",
            Field::PlaylistContents => "playlistContents",
        }
    }
}

/// What a record holds, as plain text.
pub struct RecordView {
    pub current_time: Seq<char>,
    pub playlist_contents: Seq<char>,
}

/// A decoded frame: a timestamp and a playlist, both kept as the text that came.
#[derive(Clone, Debug, PartialEq, Eq)]
pub struct IncomingRecord {
    pub current_time: String,
    pub playlist_contents: String,
}

impl View for IncomingRecord {
    type V = RecordView;

    open spec fn view(&self) -> RecordView {
        RecordView { current_time: self.current_time@, playlist_contents: self.playlist_contents@ }
    }
}

} // verus!
