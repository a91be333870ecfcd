//! The discovery pipeline.
//!
//! Locating a calendar server's home collection runs through up to three
//! strictly ordered phases — well-known lookup, current-user-principal,
//! calendar-home-set — each individually skippable.  The entry point is
//! chosen from the configuration: a configured home URI skips discovery
//! entirely, a configured server URI starts at current-user-principal, and
//! discovery parameters build the well-known URI and start at the first
//! phase.  None of the three configured is a configuration error.
//!
//! Each phase yields an outcome: an optional URI and a keep-alive flag.
//! The outcome's URI is merged into the current one ([`crate::uri::merge`]),
//! and the connection is replaced whenever the scheme changed, the authority
//! changed, or the server did not offer to keep the connection alive.  This
//! conservative reconnect rule is applied uniformly to every phase.
//!
//! A redirect raised mid-phase replaces the connection with one to the
//! redirect target and restarts the same phase from its initial state; a
//! phase is never resumed on the stale connection.
//!
//! The functions here decide; they perform no I/O.  The caller opens the
//! connections and runs the protocol state machines, feeding each phase's
//! outcome back in.

use vstd::prelude::*;

use crate::text::dec_str_of;
use crate::text::dec_string;
use crate::uri::Merge;
use crate::uri::MergeView;
use crate::uri::Uri;
use crate::uri::UriView;
use crate::uri::merge;
use crate::uri::merge_spec;

verus! {

/// The three discovery phases, in their fixed order.
#[derive(Clone, Copy, Debug, PartialEq, Eq, Structural)]
pub enum Phase {
    WellKnown,
    CurrentUserPrincipal,
    CalendarHomeSet,
}

/// Parameters for automatic discovery: a host, and optionally a port, a
/// scheme and a request method for the well-known lookup.
pub struct DiscoverConfig {
    pub host: String,
    pub port: Option<u16>,
    pub scheme: Option<String>,
    pub method: Option<String>,
}

/// The image of a [`DiscoverConfig`].
pub struct DiscoverConfigView {
    pub host: Seq<char>,
    pub port: Option<u16>,
    pub scheme: Option<Seq<char>>,
    pub method: Option<Seq<char>>,
}

impl View for DiscoverConfig {
    type V = DiscoverConfigView;

    open spec fn view(&self) -> DiscoverConfigView {
        DiscoverConfigView {
            host: self.host@,
            port: self.port,
            scheme: self.scheme.deep_view(),
            method: self.method.deep_view(),
        }
    }
}

/// The configuration the pipeline reads: at most one of a home URI, a
/// server URI, or discovery parameters decides the entry point, in that
/// priority order.
pub struct CaldavConfig {
    pub home_uri: Option<Uri>,
    pub server_uri: Option<Uri>,
    pub discover: Option<DiscoverConfig>,
}

/// An in-flight discovery: the phase to run next and the URI its request
/// targets.  The caller holds a connection bound to that URI's authority.
pub struct Discovery {
    pub phase: Phase,
    pub uri: Uri,
}

/// Where discovery starts.  `Ready` carries the configured home URI:
/// discovery is skipped and the pipeline itself opens no connection.
/// `Run` asks the caller to open a connection to the carried URI and run
/// the carried phase against it.
pub enum DiscoveryStart {
    Ready(Uri),
    Run(Discovery),
}

/// What a completed phase yields: the URI it discovered, if any, and
/// whether the server offered to keep the connection alive.
pub struct DiscoveryOutcome {
    pub uri: Option<Uri>,
    pub keep_alive: bool,
}

/// The decision after a phase completed: the resolved URI carried into the
/// next phase, whether the connection must be replaced first, and the next
/// phase to run (`None` when the resolved URI is the home URI and discovery
/// is done).
pub struct PhaseStep {
    pub uri: Uri,
    pub reconnect: bool,
    pub next: Option<Phase>,
}

/// Failure to pick a discovery entry point from the configuration.
#[derive(Clone, Copy, Debug, PartialEq, Eq, Structural)]
pub enum ConfigError {
    MissingEntryPoint,
}

impl ConfigError {
    /// The error message naming the missing configuration.
    pub fn message(&self) -> (r: &'static str)
        ensures
            r@ == "Missing one of `discover`, `server-uri` or `home-uri` config option"@,
    {
        "Missing one of `discover`, `server-uri` or `home-uri` config option"
    }

    /// The operation-naming context added when discovery cannot start.
    pub fn context(&self) -> (r: &'static str)
        ensures
            r@ == "Cannot discover Caldav home URI"@,
    {
        "Cannot discover Caldav home URI"
    }
}

/// The scheme of the well-known URI: the configured one, or `https`.
pub open spec fn well_known_scheme(scheme: Option<Seq<char>>) -> Seq<char> {
    match scheme {
        Some(s) => s,
        None => "https"@,
    }
}

/// The authority of the well-known URI: the host, with `:port` appended
/// when a port is configured.
pub open spec fn well_known_authority(host: Seq<char>, port: Option<u16>) -> Seq<char> {
    match port {
        Some(p) => host + seq![':'] + dec_str_of(p as nat),
        None => host,
    }
}

/// The URI the well-known lookup targets, built from the discovery
/// parameters.
pub open spec fn well_known_uri_spec(d: DiscoverConfigView) -> UriView {
    UriView {
        scheme: Some(well_known_scheme(d.scheme)),
        authority: Some(well_known_authority(d.host, d.port)),
        path: "/.well-known/caldav"@,
    }
}

/// Build the URI the well-known lookup targets.  The scheme defaults to
/// `https` when none is configured.
pub fn well_known_uri(d: &DiscoverConfig) -> (r: Uri)
    ensures
        r@ == well_known_uri_spec(d@),
{
    let scheme: String = match &d.scheme {
        Some(s) => s.clone(),
        None => "https".to_owned(),
    };
    let authority: String = match d.port {
        Some(p) => {
            let mut a = d.host.clone();
            a.append(":");
            let port = dec_string(p as u64);
            a.append(port.as_str());
            proof {
                reveal_strlit(":");
                assert(a@ =~= d.host@ + seq![':'] + dec_str_of(p as nat));
            }
            a
        }
        None => d.host.clone(),
    };
    Uri { scheme: Some(scheme), authority: Some(authority), path: "/.well-known/caldav".to_owned() }
}

/// Pick the discovery entry point from the configuration.
///
/// A configured home URI wins and skips discovery entirely; else a
/// configured server URI starts discovery at current-user-principal; else
/// discovery parameters start it at the well-known lookup.  With none of
/// the three configured, construction fails before any network activity.
pub fn start(config: &CaldavConfig) -> (r: Result<DiscoveryStart, ConfigError>)
    ensures
        match config.home_uri {
            Some(home) => r matches Ok(DiscoveryStart::Ready(u)) && u@ == home@,
            None => match config.server_uri {
                Some(server) => r matches Ok(
                    DiscoveryStart::Run(d),
                ) && d.phase == Phase::CurrentUserPrincipal && d.uri@ == server@,
                None => match config.discover {
                    Some(dc) => r matches Ok(
                        DiscoveryStart::Run(d),
                    ) && d.phase == Phase::WellKnown && d.uri@ == well_known_uri_spec(dc@),
                    None => r == Err::<DiscoveryStart, ConfigError>(ConfigError::MissingEntryPoint),
                },
            },
        },
{
    if let Some(home) = &config.home_uri {
        return Ok(DiscoveryStart::Ready(home.clone()));
    }
    if let Some(server) = &config.server_uri {
        return Ok(
            DiscoveryStart::Run(
                Discovery { phase: Phase::CurrentUserPrincipal, uri: server.clone() },
            ),
        );
    }
    if let Some(dc) = &config.discover {
        return Ok(DiscoveryStart::Run(Discovery { phase: Phase::WellKnown, uri: well_known_uri(dc) }));
    }
    Err(ConfigError::MissingEntryPoint)
}

/// The phase that follows a completed one, in the pipeline's fixed order.
pub open spec fn next_phase(p: Phase) -> Option<Phase> {
    match p {
        Phase::WellKnown => Some(Phase::CurrentUserPrincipal),
        Phase::CurrentUserPrincipal => Some(Phase::CalendarHomeSet),
        Phase::CalendarHomeSet => None,
    }
}

/// How an outcome's URI combines with the current one: merged when the
/// outcome carries a URI, unchanged (with no change flags) when it does
/// not.
pub open spec fn outcome_merge(current: UriView, outcome_uri: Option<UriView>) -> MergeView {
    match outcome_uri {
        Some(u) => merge_spec(current, u),
        None => MergeView { resolved: current, scheme_changed: false, authority_changed: false },
    }
}

/// The decision [`advance`] returns, as a function of the phase, the
/// current URI and the outcome.
pub open spec fn advance_spec(phase: Phase, current: UriView, uri: Option<UriView>, keep_alive: bool) -> (
    UriView,
    bool,
    Option<Phase>,
) {
    let m = outcome_merge(current, uri);
    (m.resolved, !keep_alive || m.scheme_changed || m.authority_changed, next_phase(phase))
}

/// Apply a completed phase's outcome.
///
/// The outcome's URI (or the request URI, when the outcome carries none)
/// becomes the URI of the next phase.  The connection is replaced before
/// that phase whenever the scheme changed, the authority changed, or the
/// server did not offer keep-alive; the same rule is applied after every
/// phase, the last one included.
pub fn advance(d: &Discovery, outcome: &DiscoveryOutcome) -> (r: PhaseStep)
    ensures
        (r.uri@, r.reconnect, r.next) == advance_spec(
            d.phase,
            d.uri@,
            outcome.uri.deep_view(),
            outcome.keep_alive,
        ),
{
    let m: Merge = match &outcome.uri {
        Some(u) => merge(&d.uri, u),
        None => Merge { resolved: d.uri.clone(), scheme_changed: false, authority_changed: false },
    };
    let next = match d.phase {
        Phase::WellKnown => Some(Phase::CurrentUserPrincipal),
        Phase::CurrentUserPrincipal => Some(Phase::CalendarHomeSet),
        Phase::CalendarHomeSet => None,
    };
    PhaseStep {
        uri: m.resolved,
        reconnect: !outcome.keep_alive || m.scheme_changed || m.authority_changed,
        next,
    }
}

/// Handle a redirect raised mid-phase: the caller reconnects to the
/// redirect target and re-runs the same phase from its initial state.  The
/// stale instance is never resumed.
pub fn redirect(d: &Discovery, target: Uri) -> (r: Discovery)
    ensures
        r.phase == d.phase,
        r.uri@ == target@,
{
    Discovery { phase: d.phase, uri: target }
}

/// The operation-naming context wrapped around a phase's failure.
pub fn phase_context(phase: &Phase) -> (r: &'static str)
    ensures
        phase is WellKnown ==> r@ == "Discover server error"@,
        phase is CurrentUserPrincipal ==> r@ == "Get current user principal error"@,
        phase is CalendarHomeSet ==> r@ == "Get calendar home set error"@,
{
    match phase {
        Phase::WellKnown => "Discover server error",
        Phase::CurrentUserPrincipal => "Get current user principal error",
        Phase::CalendarHomeSet => "Get calendar home set error",
    }
}

/// An outcome whose server did not offer keep-alive always replaces the
/// connection before the next phase, whatever the merge said about scheme
/// and authority.
pub proof fn lemma_no_keep_alive_reconnects(
    phase: Phase,
    current: UriView,
    uri: Option<UriView>,
)
    ensures
        advance_spec(phase, current, uri, false).1,
{
}

/// When a phase's decision keeps the connection, the resolved URI still
/// names the scheme and authority the connection is bound to: the root
/// reference and the connection can only drift apart through a reconnect.
pub proof fn lemma_keep_implies_same_binding(
    phase: Phase,
    current: UriView,
    uri: Option<UriView>,
    keep_alive: bool,
)
    ensures
        !advance_spec(phase, current, uri, keep_alive).1 ==> {
            &&& advance_spec(phase, current, uri, keep_alive).0.scheme == current.scheme
            &&& advance_spec(phase, current, uri, keep_alive).0.authority == current.authority
        },
{
}

} // verus!
