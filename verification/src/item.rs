//! Calendar items and the item commands.
//!
//! An item is an entry of a calendar, carried as its identifier, its
//! calendar's identifier and its serialised payload text.  The commands
//! hold what the command line provides.

use vstd::prelude::*;

verus! {

/// One entry of a calendar, with its payload text.
pub struct CalendarItem {
    pub id: String,
    pub calendar_id: String,
    pub ical: String,
}

/// Create an item in a calendar from an edited payload.
pub struct CreateItemCommand {
    pub calendar_id: String,
}

impl CreateItemCommand {
    /// The item this command creates: the edited payload under a
    /// caller-supplied fresh identifier, in the command's calendar.
    pub fn into_item(self, id: String, ical: String) -> (r: CalendarItem)
        ensures
            r.id == id,
            r.calendar_id == self.calendar_id,
            r.ical == ical,
    {
        CalendarItem { id, calendar_id: self.calendar_id, ical }
    }
}

/// Read one item of a calendar.
pub struct ReadItemCommand {
    pub calendar_id: String,
    pub id: String,
}

/// List a calendar's items.
pub struct ListItemsCommand {
    pub calendar_id: String,
}

/// Update one item of a calendar from an edited payload.
pub struct UpdateItemCommand {
    pub calendar_id: String,
    pub item_id: String,
}

impl UpdateItemCommand {
    /// The item this command sends back: the edited payload under the
    /// command's item and calendar identifiers.
    pub fn into_item(self, ical: String) -> (r: CalendarItem)
        ensures
            r.id == self.item_id,
            r.calendar_id == self.calendar_id,
            r.ical == ical,
    {
        CalendarItem { id: self.item_id, calendar_id: self.calendar_id, ical }
    }
}

/// Delete one item of a calendar, after confirmation unless
/// pre-confirmed.
pub struct DeleteItemCommand {
    pub calendar_id: String,
    pub id: String,
    pub yes: bool,
}

/// The item subcommands.
pub enum ItemSubcommand {
    Create(CreateItemCommand),
    Read(ReadItemCommand),
    List(ListItemsCommand),
    Update(UpdateItemCommand),
    Delete(DeleteItemCommand),
}

} // verus!
