//! What the consumer shows of a post: who wrote it, when, and what.

use crate::event::{Event, EventView};
use vstd::prelude::*;

verus! {

/// The last second that a calendar time can be made of: the end of the year
/// 262142.
pub const LAST_SECOND: u64 = 8_210_266_876_799;

/// The character of a decimal digit.
pub open spec fn digit(value: int) -> char {
    if value == 0 {
        '0'
    } else if value == 1 {
        '1'
    } else if value == 2 {
        '2'
    } else if value == 3 {
        '3'
    } else if value == 4 {
        '4'
    } else if value == 5 {
        '5'
    } else if value == 6 {
        '6'
    } else if value == 7 {
        '7'
    } else if value == 8 {
        '8'
    } else {
        '9'
    }
}

/// The time of day at `seconds` after the Unix epoch, in UTC, as two digits
/// of the hour, a colon, and two digits of the minute.
pub open spec fn clock_label(seconds: int) -> Seq<char> {
    let hour = (seconds / 3600) % 24;
    let minute = (seconds / 60) % 60;
    seq![digit(hour / 10), digit(hour % 10), ':', digit(minute / 10), digit(minute % 10)]
}

/// The label for a post created at `created_at`, where that second can be
/// made a calendar time of.
pub open spec fn time_label(created_at: u64) -> Option<Seq<char>> {
    if created_at <= LAST_SECOND {
        Some(clock_label(created_at as int))
    } else {
        None
    }
}

/// Calls `chrono::DateTime::<Utc>::from_timestamp` with no nanoseconds and,
/// on the time it gives, `chrono::DateTime::format`, and writes the result
/// out. Trusted, from the epoch on and for the one pattern of hour and
/// minute: a time is made of every second up to [`LAST_SECOND`] and of none
/// after it, and the text is the zero-padded hour of its day in UTC, a
/// colon, and the zero-padded minute.
#[verifier::external_body]
fn utc_clock(seconds: i64, pattern: &str) -> (label: Option<String>)
    requires
        0 <= seconds,
        pattern@ == "%H:%M"@,
    ensures
        label is Some <==> seconds <= LAST_SECOND,
        label matches Some(text) ==> text@ == clock_label(seconds as int),
{
    match chrono::DateTime::<chrono::Utc>::from_timestamp(seconds, 0) {
        Some(time) => Some(time.format(pattern).to_string()),
        None => None,
    }
}

/// The time of day to show for a post created at `created_at`, in UTC.
///
/// `None` where the second lies beyond what a calendar time can hold.
pub fn post_time_label(created_at: u64) -> (label: Option<String>)
    ensures
        label.deep_view() == time_label(created_at),
{
    if created_at > LAST_SECOND {
        return None;
    }
    let seconds: i64 = created_at as i64;
    utc_clock(seconds, "%H:%M")
}

/// One row of the timeline.
#[derive(Clone, Debug, PartialEq, Eq)]
pub struct PostRow {
    pub author: String,
    pub time: String,
    pub content: String,
}

/// A [`PostRow`] as mathematical values.
pub struct PostRowView {
    pub author: Seq<char>,
    pub time: Seq<char>,
    pub content: Seq<char>,
}

impl View for PostRow {
    type V = PostRowView;

    open spec fn view(&self) -> PostRowView {
        PostRowView { author: self.author@, time: self.time@, content: self.content@ }
    }
}

impl DeepView for PostRow {
    type V = PostRowView;

    open spec fn deep_view(&self) -> PostRowView {
        self@
    }
}

/// The row that shows `event` under `display_name`, where the event's time
/// has a label.
pub open spec fn row_of(event: EventView, display_name: Seq<char>) -> Option<PostRowView> {
    match time_label(event.created_at) {
        Some(time) => Some(PostRowView { author: display_name, time, content: event.content }),
        None => None,
    }
}

} // verus!
