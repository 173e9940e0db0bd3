//! Events as the pipeline sees them.

use vstd::prelude::*;

verus! {

/// Kind number of a profile-metadata event.
pub const KIND_PROFILE_METADATA: u16 = 0;

/// Kind number of a text note.
pub const KIND_TEXT_NOTE: u16 = 1;

/// The semantic type of an event, as far as the pipeline tells kinds apart.
#[derive(Clone, Copy, Debug, PartialEq, Eq, Structural)]
pub enum EventKind {
    /// A content post.
    TextNote,
    /// An update of its author's profile; the content is a JSON document.
    ProfileMetadata,
    /// Anything else.
    Other,
}

impl EventKind {
    /// The kind that a kind number stands for.
    pub open spec fn of_code(code: u16) -> EventKind {
        if code == KIND_PROFILE_METADATA {
            EventKind::ProfileMetadata
        } else if code == KIND_TEXT_NOTE {
            EventKind::TextNote
        } else {
            EventKind::Other
        }
    }

    /// The number of a kind that has one of its own: reading it gives the
    /// kind back. `Other` stands for many numbers and has none.
    pub fn code(self) -> (code: Option<u16>)
        ensures
            code is None <==> self == EventKind::Other,
            code matches Some(number) ==> EventKind::of_code(number) == self,
            self == EventKind::ProfileMetadata ==> code == Some(KIND_PROFILE_METADATA),
            self == EventKind::TextNote ==> code == Some(KIND_TEXT_NOTE),
    {
        match self {
            EventKind::ProfileMetadata => Some(KIND_PROFILE_METADATA),
            EventKind::TextNote => Some(KIND_TEXT_NOTE),
            EventKind::Other => None,
        }
    }

    /// Reads a kind number.
    pub fn from_code(code: u16) -> (kind: EventKind)
        ensures
            kind == EventKind::of_code(code),
    {
        if code == KIND_PROFILE_METADATA {
            EventKind::ProfileMetadata
        } else if code == KIND_TEXT_NOTE {
            EventKind::TextNote
        } else {
            EventKind::Other
        }
    }
}

/// A signed record received from a relay. The pipeline never changes one.
#[derive(Clone, Debug, PartialEq, Eq)]
pub struct Event {
    /// Content hash.
    pub id: String,
    /// Public identity of the signer.
    pub author: String,
    pub kind: EventKind,
    /// Seconds since the Unix epoch, as the author stated them.
    pub created_at: u64,
    /// JSON for a profile update, free text for a post.
    pub content: String,
    pub tags: Vec<Vec<String>>,
}

/// What an [`Event`] holds, as mathematical values.
pub struct EventView {
    pub id: Seq<char>,
    pub author: Seq<char>,
    pub kind: EventKind,
    pub created_at: u64,
    pub content: Seq<char>,
    pub tags: Seq<Seq<Seq<char>>>,
}

impl View for Event {
    type V = EventView;

    open spec fn view(&self) -> EventView {
        EventView {
            id: self.id@,
            author: self.author@,
            kind: self.kind,
            created_at: self.created_at,
            content: self.content@,
            tags: self.tags.deep_view(),
        }
    }
}

impl DeepView for Event {
    type V = EventView;

    open spec fn deep_view(&self) -> EventView {
        self@
    }
}

} // verus!
