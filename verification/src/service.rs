//! The scheme-canonicalising redirect policy and its per-request decision.
//!
//! A policy is fixed at construction and immutable afterwards; each request
//! hands its resolved scheme, host and URI to [`RedirectSchemeService::decide`],
//! which either lets the request pass through or yields the redirect
//! location and status code. The pipeline adapter around the library is
//! expected to forward the request or emit the redirect response
//! accordingly.

use vstd::prelude::*;

use crate::rewrite::{apply_rules, rewritten, str_eq};

verus! {

/// Status code of a permanent redirect.
pub const MOVED_PERMANENTLY: u16 = 301;

/// Status code of a temporary redirect.
pub const TEMPORARY_REDIRECT: u16 = 307;

/// A redirect policy: which scheme is canonical, whether redirecting is
/// switched off, which status class to use, and the ordered literal
/// substring substitutions applied to the constructed redirect URL.
pub struct RedirectSchemeService {
    /// When true, every request passes through untouched.
    pub disable: bool,
    /// When true the canonical scheme is "http"; otherwise "https".
    pub https_to_http: bool,
    /// When true a redirect is temporary (307); otherwise permanent (301).
    pub temporary: bool,
    /// Ordered `(pattern, replacement)` substitutions over the redirect URL.
    pub replacements: Vec<(String, String)>,
}

/// The outcome for one request: forward it unchanged, or answer with a
/// redirect to `location` carrying `status`.
pub enum RedirectDecision {
    PassThrough,
    Redirect { location: String, status: u16 },
}

impl RedirectSchemeService {
    /// The canonical scheme, as a character sequence.
    pub open spec fn spec_target_scheme(&self) -> Seq<char> {
        if self.https_to_http {
            "http"@
        } else {
            "https"@
        }
    }

    /// A request passes through untouched iff redirecting is disabled or
    /// its scheme is already the canonical one. Any other scheme at all is
    /// redirect-eligible: the test is plain equality.
    pub open spec fn spec_passes(&self, scheme: Seq<char>) -> bool {
        self.disable || scheme == self.spec_target_scheme()
    }

    /// The URL a redirected request is sent to: the canonical scheme, the
    /// original host and URI, with every rewrite rule applied in order.
    pub open spec fn spec_location(&self, host: Seq<char>, uri: Seq<char>) -> Seq<char> {
        rewritten(self.spec_target_scheme() + "://"@ + host + uri, self.replacements@)
    }

    /// The status code sent with a redirect.
    pub open spec fn spec_status(&self) -> u16 {
        if self.temporary {
            TEMPORARY_REDIRECT
        } else {
            MOVED_PERMANENTLY
        }
    }

    /// Decides what to do with a request whose resolved scheme, host and
    /// URI (path and query) are given: pass it through, or redirect it to
    /// the rewritten canonical URL with the status the policy selects. A
    /// pure function of the policy and the request.
    pub fn decide(&self, scheme: &str, host: &str, uri: &str) -> (d: RedirectDecision)
        ensures
            decision_matches(*self, scheme@, host@, uri@, d),
    {
        let target: &str = if self.https_to_http {
            "http"
        } else {
            "https"
        };
        if self.disable || str_eq(scheme, target) {
            RedirectDecision::PassThrough
        } else {
            let mut url = String::new();
            url.append(target);
            url.append("://");
            url.append(host);
            url.append(uri);
            proof {
                assert(url@ =~= self.spec_target_scheme() + "://"@ + host@ + uri@);
            }
            let location = apply_rules(url, &self.replacements);
            let status = if self.temporary {
                TEMPORARY_REDIRECT
            } else {
                MOVED_PERMANENTLY
            };
            RedirectDecision::Redirect { location, status }
        }
    }
}

/// What `decide` promises of its result: pass-through exactly when the
/// policy is disabled or the scheme is already canonical; otherwise a
/// redirect to the rewritten canonical URL with the selected status.
pub open spec fn decision_matches(
    p: RedirectSchemeService,
    scheme: Seq<char>,
    host: Seq<char>,
    uri: Seq<char>,
    d: RedirectDecision,
) -> bool {
    match d {
        RedirectDecision::PassThrough => p.spec_passes(scheme),
        RedirectDecision::Redirect { location, status } => {
            &&& !p.spec_passes(scheme)
            &&& location@ == p.spec_location(host, uri)
            &&& status == p.spec_status()
        },
    }
}

/// A request whose scheme is already canonical, or one handled by a
/// disabled policy, always passes through.
pub proof fn lemma_pass_through_when_matching(
    p: RedirectSchemeService,
    scheme: Seq<char>,
    host: Seq<char>,
    uri: Seq<char>,
    d: RedirectDecision,
)
    requires
        decision_matches(p, scheme, host, uri, d),
        p.disable || scheme == p.spec_target_scheme(),
    ensures
        d is PassThrough,
{
}

/// A request whose scheme is not canonical, under an enabled policy, is
/// redirected: the location is the canonical scheme, host and URI with
/// every rewrite rule applied in order, and the status is the one the
/// policy selects.
pub proof fn lemma_redirect_when_differing(
    p: RedirectSchemeService,
    scheme: Seq<char>,
    host: Seq<char>,
    uri: Seq<char>,
    d: RedirectDecision,
)
    requires
        decision_matches(p, scheme, host, uri, d),
        !p.disable,
        scheme != p.spec_target_scheme(),
    ensures
        d is Redirect,
        d matches RedirectDecision::Redirect { location, status } ==> {
            &&& location@ == rewritten(
                p.spec_target_scheme() + "://"@ + host + uri,
                p.replacements@,
            )
            &&& status == p.spec_status()
        },
{
}

/// The status sent with a redirect depends on `temporary` alone: 301 when
/// permanent, 307 when temporary.
pub proof fn lemma_status_selection(
    p: RedirectSchemeService,
    scheme: Seq<char>,
    host: Seq<char>,
    uri: Seq<char>,
    d: RedirectDecision,
)
    requires
        decision_matches(p, scheme, host, uri, d),
    ensures
        d matches RedirectDecision::Redirect { status, .. } ==> {
            &&& (status == MOVED_PERMANENTLY <==> !p.temporary)
            &&& (status == TEMPORARY_REDIRECT <==> p.temporary)
        },
{
}

/// The status selection does not depend on the scheme direction: two
/// policies that agree on `temporary` select the same status.
pub proof fn lemma_status_independent_of_direction(
    p1: RedirectSchemeService,
    p2: RedirectSchemeService,
)
    requires
        p1.temporary == p2.temporary,
    ensures
        p1.spec_status() == p2.spec_status(),
{
}

/// The decision is deterministic: two decisions for the same policy and
/// request fall on the same side, and on the redirect side carry the same
/// location characters and the same status.
pub proof fn lemma_decide_deterministic(
    p: RedirectSchemeService,
    scheme: Seq<char>,
    host: Seq<char>,
    uri: Seq<char>,
    d1: RedirectDecision,
    d2: RedirectDecision,
)
    requires
        decision_matches(p, scheme, host, uri, d1),
        decision_matches(p, scheme, host, uri, d2),
    ensures
        d1 is PassThrough <==> d2 is PassThrough,
        d1 matches RedirectDecision::Redirect { location: l1, status: s1 } ==> (
        d2 matches RedirectDecision::Redirect { location: l2, status: s2 } && l1@ == l2@ && s1
            == s2),
{
}

} // verus!
