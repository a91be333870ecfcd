//! Calendars and the calendar commands.
//!
//! A calendar is a collection with an identifier and optional
//! user-visible name, description and colour.  The commands hold what the
//! command line provides; their builders assemble the calendar values the
//! backends take.

use vstd::prelude::*;

verus! {

/// A calendar collection.
pub struct Calendar {
    pub id: String,
    pub display_name: Option<String>,
    pub description: Option<String>,
    pub color: Option<String>,
}

/// Create a calendar with an optional name, description and colour.
pub struct CreateCalendarCommand {
    pub name: Option<String>,
    pub description: Option<String>,
    pub color: Option<String>,
}

impl CreateCalendarCommand {
    /// The calendar this command creates, under a caller-supplied fresh
    /// identifier.
    pub fn into_calendar(self, id: String) -> (c: Calendar)
        ensures
            c.id == id,
            c.display_name == self.name,
            c.description == self.description,
            c.color == self.color,
    {
        Calendar {
            id,
            display_name: self.name,
            description: self.description,
            color: self.color,
        }
    }
}

/// Update a calendar's name, description or colour.
pub struct UpdateCalendarCommand {
    pub id: String,
    pub name: Option<String>,
    pub description: Option<String>,
    pub color: Option<String>,
}

impl UpdateCalendarCommand {
    /// The calendar value this command sends: the named fields under the
    /// command's identifier.
    pub fn into_calendar(self) -> (c: Calendar)
        ensures
            c.id == self.id,
            c.display_name == self.name,
            c.description == self.description,
            c.color == self.color,
    {
        Calendar {
            id: self.id,
            display_name: self.name,
            description: self.description,
            color: self.color,
        }
    }
}

/// List the calendars.
pub struct ListCalendarsCommand {}

/// Delete a calendar, after confirmation unless pre-confirmed.
pub struct DeleteCalendarCommand {
    pub id: String,
    pub yes: bool,
}

/// The calendar subcommands.
pub enum CalendarSubcommand {
    Create(CreateCalendarCommand),
    List(ListCalendarsCommand),
    Update(UpdateCalendarCommand),
    Delete(DeleteCalendarCommand),
}

} // verus!
