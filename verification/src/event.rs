//! The event commands: the agenda view and the event listing.

use vstd::prelude::*;

use crate::cal::AgendaCommand;
use crate::time_range::Date;

verus! {

/// List a calendar's events, optionally within an inclusive date range
/// the server evaluates.
pub struct ListEventsCommand {
    pub calendar_id: String,
    pub from: Option<Date>,
    pub to: Option<Date>,
}

/// The event subcommands.
pub enum EventSubcommand {
    Agenda(AgendaCommand),
    List(ListEventsCommand),
}

} // verus!
