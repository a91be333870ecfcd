use calendula::uri::{merge, Uri};

fn abs_uri(scheme: &str, authority: &str, path: &str) -> Uri {
    Uri {
        scheme: Some(scheme.to_string()),
        authority: Some(authority.to_string()),
        path: path.to_string(),
    }
}

// A discovered URI that carries an authority comes back unchanged, and the
// flags report the differences against the current URI.
#[test]
fn absolute_uri_replaces_and_flags() {
    let current = abs_uri("https", "cal.example.com", "/dav/");
    let discovered = abs_uri("http", "dav.example.net", "/root/");
    let m = merge(&current, &discovered);
    assert_eq!(m.resolved.scheme, Some("http".to_string()));
    assert_eq!(m.resolved.authority, Some("dav.example.net".to_string()));
    assert_eq!(m.resolved.path, "/root/");
    assert!(m.scheme_changed);
    assert!(m.authority_changed);
}

#[test]
fn absolute_uri_with_same_origin_raises_no_flag() {
    let current = abs_uri("https", "cal.example.com", "/dav/");
    let discovered = abs_uri("https", "cal.example.com", "/other/");
    let m = merge(&current, &discovered);
    assert!(!m.scheme_changed);
    assert!(!m.authority_changed);
    assert_eq!(m.resolved.path, "/other/");
}

#[test]
fn absolute_uri_same_host_other_port_changes_authority() {
    let current = abs_uri("https", "cal.example.com", "/dav/");
    let discovered = abs_uri("https", "cal.example.com:8443", "/dav/");
    let m = merge(&current, &discovered);
    assert!(!m.scheme_changed);
    assert!(m.authority_changed);
}

// A path-only URI keeps the current scheme and authority and replaces only
// the path; merging it a second time moves nothing.
#[test]
fn relative_uri_replaces_only_the_path() {
    let current = abs_uri("https", "cal.example.com", "/dav/");
    let discovered = Uri {
        scheme: None,
        authority: None,
        path: "/dav/principals/me/".to_string(),
    };
    let m = merge(&current, &discovered);
    assert_eq!(m.resolved.scheme, Some("https".to_string()));
    assert_eq!(m.resolved.authority, Some("cal.example.com".to_string()));
    assert_eq!(m.resolved.path, "/dav/principals/me/");
    assert!(!m.scheme_changed);
    assert!(!m.authority_changed);

    let again = merge(&m.resolved, &discovered);
    assert_eq!(again.resolved.scheme, m.resolved.scheme);
    assert_eq!(again.resolved.authority, m.resolved.authority);
    assert_eq!(again.resolved.path, m.resolved.path);
    assert!(!again.scheme_changed);
    assert!(!again.authority_changed);
}
