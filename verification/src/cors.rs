//! The vocabulary shared by reminders and parse results.
use vstd::prelude::*;

verus! {

/// How a reminder repeats.
#[derive(Debug, Clone)]
pub enum Recurrence {
    /// Does not repeat.
    NoRepeat,
    Daily,
    Weekly,
    Monthly,
    Yearly,
    Weekdays,
    Weekends,
    Custom(String),
}

/// A `Recurrence` with its text as a character sequence.
pub enum SpecRecurrence {
    NoRepeat,
    Daily,
    Weekly,
    Monthly,
    Yearly,
    Weekdays,
    Weekends,
    Custom(Seq<char>),
}

impl View for Recurrence {
    type V = SpecRecurrence;

    open spec fn view(&self) -> SpecRecurrence {
        match self {
            Recurrence::NoRepeat => SpecRecurrence::NoRepeat,
            Recurrence::Daily => SpecRecurrence::Daily,
            Recurrence::Weekly => SpecRecurrence::Weekly,
            Recurrence::Monthly => SpecRecurrence::Monthly,
            Recurrence::Yearly => SpecRecurrence::Yearly,
            Recurrence::Weekdays => SpecRecurrence::Weekdays,
            Recurrence::Weekends => SpecRecurrence::Weekends,
            Recurrence::Custom(s) => SpecRecurrence::Custom(s@),
        }
    }
}

impl Recurrence {
    /// A value equal to this one.
    pub fn copied(&self) -> (r: Recurrence)
        ensures
            r@ == self@,
    {
        match self {
            Recurrence::NoRepeat => Recurrence::NoRepeat,
            Recurrence::Daily => Recurrence::Daily,
            Recurrence::Weekly => Recurrence::Weekly,
            Recurrence::Monthly => Recurrence::Monthly,
            Recurrence::Yearly => Recurrence::Yearly,
            Recurrence::Weekdays => Recurrence::Weekdays,
            Recurrence::Weekends => Recurrence::Weekends,
            Recurrence::Custom(s) => Recurrence::Custom(s.clone()),
        }
    }
}

/// How important a reminder is.
#[derive(Debug, Clone, Copy, PartialEq, Eq, Structural)]
pub enum Priority {
    /// Not important.
    NoPriority,
    Low,
    Medium,
    High,
}

/// Where a reminder applies.
///
/// Coordinates are not held: no part of the library sets or reads them.
#[derive(Debug, Clone)]
pub struct Location {
    pub name: String,
    pub address: Option<String>,
}

/// A `Location` with its texts as character sequences.
pub struct SpecLocation {
    pub name: Seq<char>,
    pub address: Option<Seq<char>>,
}

impl View for Location {
    type V = SpecLocation;

    open spec fn view(&self) -> SpecLocation {
        SpecLocation {
            name: self.name@,
            address: match self.address {
                Some(a) => Some(a@),
                None => None,
            },
        }
    }
}

pub open spec fn location_view(l: Option<Location>) -> Option<SpecLocation> {
    match l {
        Some(x) => Some(x@),
        None => None,
    }
}

} // verus!
