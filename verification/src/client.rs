//! The backend facade.
//!
//! Exactly one backend serves a client: the remote protocol one, built from
//! a caldav configuration, or the local-file one, built from a vdir
//! configuration.  Construction inspects the account and picks the caldav
//! configuration first; an account configuring neither backend fails at
//! construction.  Every calendar and item operation dispatches through
//! [`Client::route`] to the selected backend; dispatch on an unconfigured
//! client always fails with the missing-backend error.

use vstd::prelude::*;

use crate::discovery::CaldavConfig;
use crate::vdir::VdirClient;
use crate::vdir::VdirConfig;

verus! {

/// An account's configuration surface: at most one backend configuration
/// is used, the caldav one taking priority.
pub struct Account {
    pub default: bool,
    pub caldav: Option<CaldavConfig>,
    pub vdir: Option<VdirConfig>,
}

/// The calendar and item operations the facade dispatches.
#[derive(Clone, Copy, Debug, PartialEq, Eq, Structural)]
pub enum Operation {
    CreateCalendar,
    ListCalendars,
    UpdateCalendar,
    DeleteCalendar,
    CreateItem,
    ListItems,
    ListEvents,
    ListEventsInRange,
    ReadItem,
    UpdateItem,
    DeleteItem,
}

/// The configured backends.
#[derive(Clone, Copy, Debug, PartialEq, Eq, Structural)]
pub enum Backend {
    Caldav,
    Vdir,
}

/// A client bound to its selected backend, or to none.
pub enum Client {
    Unconfigured,
    Caldav(CaldavConfig),
    Vdir(VdirClient),
}

/// Errors of client construction and dispatch.
#[derive(Clone, Copy, Debug, PartialEq, Eq, Structural)]
pub enum ClientError {
    /// The account configures neither backend.
    MissingConfig,
    /// An operation was dispatched on an unconfigured client.
    MissingBackend,
}

impl ClientError {
    /// The error message.
    pub fn message(&self) -> (r: &'static str)
        ensures
            self is MissingConfig ==> r@ == "Cannot find Caldav nor Vdir config"@,
            self is MissingBackend ==> r@ == "Missing calendar backend"@,
    {
        match self {
            ClientError::MissingConfig => "Cannot find Caldav nor Vdir config",
            ClientError::MissingBackend => "Missing calendar backend",
        }
    }

    /// The operation-naming context added when construction fails.
    pub fn context(&self) -> (r: &'static str)
        ensures
            r@ == "Create calendar client error"@,
    {
        "Create calendar client error"
    }
}

/// Where one operation goes: which backend runs it, as which of its own
/// operations, and whether the caller must emit the warning that
/// server-side range filtering was skipped.
#[derive(Clone, Copy, Debug, PartialEq, Eq, Structural)]
pub struct Dispatch {
    pub backend: Backend,
    pub op: Operation,
    pub warn_unfiltered: bool,
}

/// The operation the local-file backend runs in place of a requested one:
/// it has no separate event listing and no server-evaluated time range, so
/// both event reads degrade to the unfiltered item listing.
pub open spec fn vdir_op(op: Operation) -> Operation {
    match op {
        Operation::ListEvents => Operation::ListItems,
        Operation::ListEventsInRange => Operation::ListItems,
        _ => op,
    }
}

impl Default for Client {
    /// A client starts unconfigured, before an account selects a backend.
    fn default() -> (r: Self)
        ensures
            r is Unconfigured,
    {
        Client::Unconfigured
    }
}

impl Client {
    /// Select the backend from the account configuration: the caldav one
    /// if configured, else the vdir one, else fail — before any network
    /// activity.
    pub fn new(account: Account) -> (r: Result<Client, ClientError>)
        ensures
            match account.caldav {
                Some(c) => r matches Ok(Client::Caldav(cc)) && cc == c,
                None => match account.vdir {
                    Some(v) => r matches Ok(Client::Vdir(vc)) && vc.home_dir@ == v.home_dir@,
                    None => r == Err::<Client, ClientError>(ClientError::MissingConfig),
                },
            },
    {
        if let Some(config) = account.caldav {
            return Ok(Client::Caldav(config));
        }
        if let Some(config) = account.vdir {
            return Ok(Client::Vdir(VdirClient::new(&config)));
        }
        Err(ClientError::MissingConfig)
    }

    /// Dispatch one operation to the selected backend.
    ///
    /// An unconfigured client fails, and only an unconfigured client.  The
    /// remote backend runs every operation as requested.  The local-file
    /// backend runs both event reads as the unfiltered item listing; for
    /// the range-filtered one the range is ignored and the caller must emit
    /// exactly one warning in its place — never an error.
    pub fn route(&self, op: Operation) -> (r: Result<Dispatch, ClientError>)
        ensures
            match self {
                Client::Unconfigured => r == Err::<Dispatch, ClientError>(
                    ClientError::MissingBackend,
                ),
                Client::Caldav(_) => r matches Ok(d) && d == (Dispatch {
                    backend: Backend::Caldav,
                    op: op,
                    warn_unfiltered: false,
                }),
                Client::Vdir(_) => r matches Ok(d) && d == (Dispatch {
                    backend: Backend::Vdir,
                    op: vdir_op(op),
                    warn_unfiltered: op is ListEventsInRange,
                }),
            },
    {
        match self {
            Client::Unconfigured => Err(ClientError::MissingBackend),
            Client::Caldav(_) => Ok(Dispatch { backend: Backend::Caldav, op, warn_unfiltered: false }),
            Client::Vdir(_) => {
                let (vop, warn) = match op {
                    Operation::ListEvents => (Operation::ListItems, false),
                    Operation::ListEventsInRange => (Operation::ListItems, true),
                    _ => (op, false),
                };
                Ok(Dispatch { backend: Backend::Vdir, op: vop, warn_unfiltered: warn })
            }
        }
    }
}

/// The operation-naming context wrapped around an operation's failure.
pub fn operation_context(op: &Operation) -> (r: &'static str)
    ensures
        op is CreateCalendar ==> r@ == "Create calendar error"@,
        op is ListCalendars ==> r@ == "List calendars error"@,
        op is UpdateCalendar ==> r@ == "Update calendar error"@,
        op is DeleteCalendar ==> r@ == "Delete calendar error"@,
        op is CreateItem ==> r@ == "Create item error"@,
        op is ListItems ==> r@ == "List items error"@,
        op is ListEvents ==> r@ == "List events error"@,
        op is ListEventsInRange ==> r@ == "List events error"@,
        op is ReadItem ==> r@ == "Read item error"@,
        op is UpdateItem ==> r@ == "Update item error"@,
        op is DeleteItem ==> r@ == "Delete item error"@,
{
    match op {
        Operation::CreateCalendar => "Create calendar error",
        Operation::ListCalendars => "List calendars error",
        Operation::UpdateCalendar => "Update calendar error",
        Operation::DeleteCalendar => "Delete calendar error",
        Operation::CreateItem => "Create item error",
        Operation::ListItems => "List items error",
        Operation::ListEvents => "List events error",
        Operation::ListEventsInRange => "List events error",
        Operation::ReadItem => "Read item error",
        Operation::UpdateItem => "Update item error",
        Operation::DeleteItem => "Delete item error",
    }
}

} // verus!
