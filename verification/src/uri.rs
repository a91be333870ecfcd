//! The URI resolver.
//!
//! Discovery steps return either an absolute URI (one that carries an
//! authority) or a path-only URI relative to the current root.  [`merge`]
//! combines a discovered URI with the current one and flags scheme and
//! authority changes, which decide whether the current connection may serve
//! the next request.

use vstd::prelude::*;

verus! {

/// A URI reduced to the parts the discovery logic reads: scheme, authority
/// (host, possibly with a port) and path.  A path-only URI has neither
/// scheme nor authority.
pub struct Uri {
    pub scheme: Option<String>,
    pub authority: Option<String>,
    pub path: String,
}

/// The mathematical image of a [`Uri`]: its three parts as character
/// sequences.
pub struct UriView {
    pub scheme: Option<Seq<char>>,
    pub authority: Option<Seq<char>>,
    pub path: Seq<char>,
}

impl View for Uri {
    type V = UriView;

    open spec fn view(&self) -> UriView {
        UriView {
            scheme: self.scheme.deep_view(),
            authority: self.authority.deep_view(),
            path: self.path@,
        }
    }
}

impl DeepView for Uri {
    type V = UriView;

    open spec fn deep_view(&self) -> UriView {
        self.view()
    }
}

impl UriView {
    /// An absolute URI names both a scheme and an authority, so a transport
    /// connection can be opened to it.
    pub open spec fn is_absolute(self) -> bool {
        self.scheme is Some && self.authority is Some
    }
}

impl Uri {
    pub fn clone(&self) -> (r: Uri)
        ensures
            r@ == self@,
    {
        Uri {
            scheme: clone_opt_string(&self.scheme),
            authority: clone_opt_string(&self.authority),
            path: self.path.clone(),
        }
    }
}

fn clone_opt_string(s: &Option<String>) -> (r: Option<String>)
    ensures
        r.deep_view() == s.deep_view(),
{
    match s {
        Some(s) => Some(s.clone()),
        None => None,
    }
}

fn eq_opt_string(a: &Option<String>, b: &Option<String>) -> (r: bool)
    ensures
        r == (a.deep_view() == b.deep_view()),
{
    match (a, b) {
        (Some(a), Some(b)) => String::eq(a, b),
        (None, None) => true,
        _ => false,
    }
}

/// What merging a discovered URI into the current one yields: the resolved
/// URI to use from now on, and whether the scheme or the authority differ
/// from the current ones.
pub struct Merge {
    pub resolved: Uri,
    pub scheme_changed: bool,
    pub authority_changed: bool,
}

/// The image of a [`Merge`].
pub struct MergeView {
    pub resolved: UriView,
    pub scheme_changed: bool,
    pub authority_changed: bool,
}

impl View for Merge {
    type V = MergeView;

    open spec fn view(&self) -> MergeView {
        MergeView {
            resolved: self.resolved@,
            scheme_changed: self.scheme_changed,
            authority_changed: self.authority_changed,
        }
    }
}

/// What [`merge`] returns.  A discovered URI that carries an authority is
/// absolute and replaces the current URI wholesale; one without is a path
/// relative to the current URI, which keeps its scheme and authority.
pub open spec fn merge_spec(current: UriView, discovered: UriView) -> MergeView {
    if discovered.authority is Some {
        MergeView {
            resolved: discovered,
            scheme_changed: current.scheme != discovered.scheme,
            authority_changed: current.authority != discovered.authority,
        }
    } else {
        MergeView {
            resolved: UriView {
                scheme: current.scheme,
                authority: current.authority,
                path: discovered.path,
            },
            scheme_changed: false,
            authority_changed: false,
        }
    }
}

/// Merge a URI returned by a discovery step into the current one.
///
/// If `discovered` carries an authority it is absolute: it becomes the
/// resolved URI, and the scheme and authority are compared against the
/// current ones.  Otherwise only the path of the current URI is replaced
/// and both change flags stay false.
pub fn merge(current: &Uri, discovered: &Uri) -> (r: Merge)
    ensures
        r@ == merge_spec(current@, discovered@),
{
    if discovered.authority.is_some() {
        Merge {
            scheme_changed: !eq_opt_string(&current.scheme, &discovered.scheme),
            authority_changed: !eq_opt_string(&current.authority, &discovered.authority),
            resolved: discovered.clone(),
        }
    } else {
        Merge {
            resolved: Uri {
                scheme: clone_opt_string(&current.scheme),
                authority: clone_opt_string(&current.authority),
                path: discovered.path.clone(),
            },
            scheme_changed: false,
            authority_changed: false,
        }
    }
}

/// A discovered URI that carries an authority comes back from [`merge`]
/// unchanged, and the flags report exactly whether its scheme or authority
/// differ from the current ones.
pub proof fn lemma_merge_absolute(current: UriView, discovered: UriView)
    requires
        discovered.authority is Some,
    ensures
        merge_spec(current, discovered).resolved == discovered,
        merge_spec(current, discovered).scheme_changed == (current.scheme != discovered.scheme),
        merge_spec(current, discovered).authority_changed == (current.authority
            != discovered.authority),
{
}

/// A discovered URI without an authority keeps the current scheme and
/// authority, replaces only the path, raises no change flag, and merging the
/// same relative URI a second time does not move the result any further.
pub proof fn lemma_merge_relative_idempotent(current: UriView, discovered: UriView)
    requires
        discovered.authority is None,
    ensures
        merge_spec(current, discovered).resolved.scheme == current.scheme,
        merge_spec(current, discovered).resolved.authority == current.authority,
        merge_spec(current, discovered).resolved.path == discovered.path,
        !merge_spec(current, discovered).scheme_changed,
        !merge_spec(current, discovered).authority_changed,
        merge_spec(merge_spec(current, discovered).resolved, discovered) == merge_spec(
            current,
            discovered,
        ),
{
}

} // verus!
