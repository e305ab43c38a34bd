//! The result of parsing one input.
use vstd::prelude::*;
use crate::cors::{location_view, Location, Priority, Recurrence, SpecLocation, SpecRecurrence};
use crate::datetime::LocalDateTime;
use crate::reminder::{Reminder, SpecReminder};
use crate::text::views;

verus! {

/// What a parser read from an input.
#[derive(Debug, Clone)]
pub struct ParsedReminder {
    pub title: String,
    pub due_date: Option<LocalDateTime>,
    pub start_date: Option<LocalDateTime>,
    pub priority: Priority,
    pub is_urgent: bool,
    pub recurrence: Recurrence,
    pub location: Option<Location>,
    pub reminder_minutes: Vec<i32>,
    pub tags: Vec<String>,
    pub list: String,
}

/// A `ParsedReminder` with its texts as character sequences.
pub struct SpecParsedReminder {
    pub title: Seq<char>,
    pub due_date: Option<LocalDateTime>,
    pub start_date: Option<LocalDateTime>,
    pub priority: Priority,
    pub is_urgent: bool,
    pub recurrence: SpecRecurrence,
    pub location: Option<SpecLocation>,
    pub reminder_minutes: Seq<i32>,
    pub tags: Seq<Seq<char>>,
    pub list: Seq<char>,
}

impl View for ParsedReminder {
    type V = SpecParsedReminder;

    open spec fn view(&self) -> SpecParsedReminder {
        SpecParsedReminder {
            title: self.title@,
            due_date: self.due_date,
            start_date: self.start_date,
            priority: self.priority,
            is_urgent: self.is_urgent,
            recurrence: self.recurrence@,
            location: location_view(self.location),
            reminder_minutes: self.reminder_minutes@,
            tags: views(self.tags@),
            list: self.list@,
        }
    }
}

/// The reminder a parse result describes: every field carried over, not yet
/// done.
pub open spec fn reminder_of(p: SpecParsedReminder) -> SpecReminder {
    SpecReminder {
        title: p.title,
        due_date: p.due_date,
        start_date: p.start_date,
        completed: false,
        priority: p.priority,
        is_urgent: p.is_urgent,
        recurrence: p.recurrence,
        location: p.location,
        reminder_minutes: p.reminder_minutes,
        tags: p.tags,
        list: p.list,
    }
}

impl ParsedReminder {
    /// The reminder this parse result describes.
    pub fn into_reminder(self) -> (r: Reminder)
        ensures
            r@ == reminder_of(self@),
    {
        let ghost p = self@;
        let ParsedReminder {
            title,
            due_date,
            start_date,
            priority,
            is_urgent,
            recurrence,
            location,
            reminder_minutes,
            tags,
            list,
        } = self;
        let mut reminder = Reminder::new(title).with_list(list);
        if let Some(due) = due_date {
            reminder = reminder.with_due_date(Some(due));
        }
        if let Some(start) = start_date {
            reminder = reminder.with_start_date(Some(start));
        }
        reminder = reminder.with_priority(priority);
        reminder = reminder.with_urgent(is_urgent);
        reminder = reminder.with_recurrence(recurrence);
        reminder = reminder.with_tags(tags);
        reminder = reminder.with_location(location);
        reminder = reminder.with_reminder_minutes(reminder_minutes);
        assert(reminder@.tags =~= p.tags);
        reminder
    }

    /// The same parse result in another list.
    pub fn with_list(self, list: String) -> (r: ParsedReminder)
        ensures
            r@ == (SpecParsedReminder { list: list@, ..self@ }),
    {
        let mut s = self;
        s.list = list;
        s
    }
}

} // verus!
