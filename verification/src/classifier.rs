//! Sorting events by what the pipeline does with them.

use crate::event::{Event, EventKind, EventView};
use vstd::prelude::*;

verus! {

/// What an event is to the pipeline.
#[derive(Clone, Debug, PartialEq, Eq)]
pub enum Classified {
    /// A profile update: its author and the JSON text it carries.
    ProfileUpdate { author: String, raw_content: String },
    /// A content post, whole.
    Post { event: Event },
    /// An event of a kind the pipeline has no use for.
    Ignored,
}

/// A [`Classified`] as mathematical values.
pub enum ClassifiedView {
    ProfileUpdate { author: Seq<char>, raw_content: Seq<char> },
    Post { event: EventView },
    Ignored,
}

impl View for Classified {
    type V = ClassifiedView;

    open spec fn view(&self) -> ClassifiedView {
        match self {
            Classified::ProfileUpdate { author, raw_content } => ClassifiedView::ProfileUpdate {
                author: author@,
                raw_content: raw_content@,
            },
            Classified::Post { event } => ClassifiedView::Post { event: event@ },
            Classified::Ignored => ClassifiedView::Ignored,
        }
    }
}

/// The class of an event: decided by its kind alone.
pub open spec fn classification(event: EventView) -> ClassifiedView {
    match event.kind {
        EventKind::ProfileMetadata => ClassifiedView::ProfileUpdate {
            author: event.author,
            raw_content: event.content,
        },
        EventKind::TextNote => ClassifiedView::Post { event },
        EventKind::Other => ClassifiedView::Ignored,
    }
}

/// Classifies one event. Nothing but the event is read, and nothing changed.
pub fn classify(event: Event) -> (class: Classified)
    ensures
        class@ == classification(event@),
{
    match event.kind {
        EventKind::ProfileMetadata => Classified::ProfileUpdate {
            author: event.author,
            raw_content: event.content,
        },
        EventKind::TextNote => Classified::Post { event },
        EventKind::Other => Classified::Ignored,
    }
}

} // verus!
