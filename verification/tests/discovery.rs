use calendula::discovery::{
    advance, phase_context, redirect, start, well_known_uri, CaldavConfig, ConfigError,
    DiscoverConfig, Discovery, DiscoveryOutcome, DiscoveryStart, Phase,
};
use calendula::uri::Uri;

fn uri(scheme: &str, authority: &str, path: &str) -> Uri {
    Uri {
        scheme: Some(scheme.to_string()),
        authority: Some(authority.to_string()),
        path: path.to_string(),
    }
}

fn path_only(path: &str) -> Uri {
    Uri {
        scheme: None,
        authority: None,
        path: path.to_string(),
    }
}

// A configured home URI skips discovery entirely: the pipeline itself asks
// for no connection.
#[test]
fn home_uri_skips_discovery() {
    let config = CaldavConfig {
        home_uri: Some(uri("https", "cal.example.com", "/dav/home/")),
        server_uri: Some(uri("https", "other.example.com", "/")),
        discover: None,
    };
    let mut connects = 0;
    match start(&config).unwrap() {
        DiscoveryStart::Ready(home) => {
            assert_eq!(home.path, "/dav/home/");
            assert_eq!(home.authority, Some("cal.example.com".to_string()));
        }
        DiscoveryStart::Run(_) => {
            connects += 1;
        }
    }
    assert_eq!(connects, 0);
}

// A configured server URI starts discovery at current-user-principal.
#[test]
fn server_uri_starts_at_principal() {
    let config = CaldavConfig {
        home_uri: None,
        server_uri: Some(uri("https", "cal.example.com", "/dav/")),
        discover: None,
    };
    match start(&config).unwrap() {
        DiscoveryStart::Run(d) => {
            assert_eq!(d.phase, Phase::CurrentUserPrincipal);
            assert_eq!(d.uri.authority, Some("cal.example.com".to_string()));
        }
        DiscoveryStart::Ready(_) => panic!("discovery should run"),
    }
}

// Discovery with a host and no scheme targets the well-known URI under
// https.
#[test]
fn well_known_defaults_to_https() {
    let config = CaldavConfig {
        home_uri: None,
        server_uri: None,
        discover: Some(DiscoverConfig {
            host: "cal.example.com".to_string(),
            port: None,
            scheme: None,
            method: None,
        }),
    };
    match start(&config).unwrap() {
        DiscoveryStart::Run(d) => {
            assert_eq!(d.phase, Phase::WellKnown);
            assert_eq!(d.uri.scheme, Some("https".to_string()));
            assert_eq!(d.uri.authority, Some("cal.example.com".to_string()));
            assert_eq!(d.uri.path, "/.well-known/caldav");
        }
        DiscoveryStart::Ready(_) => panic!("discovery should run"),
    }
}

#[test]
fn well_known_uri_carries_port_and_scheme() {
    let d = DiscoverConfig {
        host: "cal.example.com".to_string(),
        port: Some(8443),
        scheme: Some("http".to_string()),
        method: None,
    };
    let u = well_known_uri(&d);
    assert_eq!(u.scheme, Some("http".to_string()));
    assert_eq!(u.authority, Some("cal.example.com:8443".to_string()));
    assert_eq!(u.path, "/.well-known/caldav");
}

// With none of home URI, server URI or discovery parameters configured,
// construction fails before any network activity.
#[test]
fn nothing_configured_is_a_configuration_error() {
    let config = CaldavConfig {
        home_uri: None,
        server_uri: None,
        discover: None,
    };
    let err = match start(&config) {
        Err(e) => e,
        Ok(_) => panic!("construction must fail"),
    };
    assert_eq!(err, ConfigError::MissingEntryPoint);
    assert_eq!(
        err.message(),
        "Missing one of `discover`, `server-uri` or `home-uri` config option"
    );
    assert_eq!(err.context(), "Cannot discover Caldav home URI");
}

// An outcome without keep-alive replaces the connection even when scheme
// and authority are unchanged.
#[test]
fn no_keep_alive_always_reconnects() {
    let d = Discovery {
        phase: Phase::WellKnown,
        uri: uri("https", "cal.example.com", "/.well-known/caldav"),
    };
    let outcome = DiscoveryOutcome {
        uri: Some(uri("https", "cal.example.com", "/dav/")),
        keep_alive: false,
    };
    let step = advance(&d, &outcome);
    assert!(step.reconnect);
    assert_eq!(step.next, Some(Phase::CurrentUserPrincipal));
    assert_eq!(step.uri.path, "/dav/");
}

// The scenario of one full phase: a configured server URI, a path-only
// principal with keep-alive, an unchanged scheme and authority.  One
// connection serves the phase and the resolved URI keeps the authority.
#[test]
fn path_only_principal_keeps_the_connection() {
    let config = CaldavConfig {
        home_uri: None,
        server_uri: Some(uri("https", "cal.example.com", "/dav/")),
        discover: None,
    };
    let mut connects = 0;
    let d = match start(&config).unwrap() {
        DiscoveryStart::Run(d) => {
            connects += 1;
            d
        }
        DiscoveryStart::Ready(_) => panic!("discovery should run"),
    };
    assert_eq!(d.phase, Phase::CurrentUserPrincipal);
    let outcome = DiscoveryOutcome {
        uri: Some(path_only("/dav/principals/me/")),
        keep_alive: true,
    };
    let step = advance(&d, &outcome);
    if step.reconnect {
        connects += 1;
    }
    assert_eq!(connects, 1);
    assert_eq!(step.uri.scheme, Some("https".to_string()));
    assert_eq!(step.uri.authority, Some("cal.example.com".to_string()));
    assert_eq!(step.uri.path, "/dav/principals/me/");
    assert_eq!(step.next, Some(Phase::CalendarHomeSet));
}

// A changed authority forces a reconnect even with keep-alive offered.
#[test]
fn changed_authority_reconnects() {
    let d = Discovery {
        phase: Phase::CalendarHomeSet,
        uri: uri("https", "cal.example.com", "/dav/"),
    };
    let outcome = DiscoveryOutcome {
        uri: Some(uri("https", "calendars.example.net", "/dav/")),
        keep_alive: true,
    };
    let step = advance(&d, &outcome);
    assert!(step.reconnect);
    assert_eq!(step.next, None);
    assert_eq!(step.uri.authority, Some("calendars.example.net".to_string()));
}

// An outcome without a URI keeps the request URI unchanged.
#[test]
fn missing_outcome_uri_keeps_request_uri() {
    let d = Discovery {
        phase: Phase::CurrentUserPrincipal,
        uri: uri("https", "cal.example.com", "/dav/"),
    };
    let outcome = DiscoveryOutcome { uri: None, keep_alive: true };
    let step = advance(&d, &outcome);
    assert!(!step.reconnect);
    assert_eq!(step.uri.path, "/dav/");
}

// A redirect raised mid-phase restarts the same phase from its initial
// state against the redirect target; the stale instance is dropped.
#[test]
fn redirect_restarts_the_same_phase() {
    let d = Discovery {
        phase: Phase::CurrentUserPrincipal,
        uri: uri("https", "cal.example.com", "/dav/"),
    };
    let r = redirect(&d, uri("https", "dav.example.com", "/principals/"));
    assert_eq!(r.phase, Phase::CurrentUserPrincipal);
    assert_eq!(r.uri.authority, Some("dav.example.com".to_string()));
    assert_eq!(r.uri.path, "/principals/");
}

#[test]
fn phase_failures_name_the_phase() {
    assert_eq!(phase_context(&Phase::WellKnown), "Discover server error");
    assert_eq!(
        phase_context(&Phase::CurrentUserPrincipal),
        "Get current user principal error"
    );
    assert_eq!(
        phase_context(&Phase::CalendarHomeSet),
        "Get calendar home set error"
    );
}
