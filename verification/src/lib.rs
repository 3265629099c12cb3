//! Scheme-canonicalising redirect middleware core.
//!
//! Given an immutable policy (canonical scheme, permanence, ordered literal
//! rewrite rules) and the scheme/host/URI of an incoming request, decides
//! whether the request passes through unchanged or is answered with a
//! redirect, and if so builds the target URL and picks the status code.
//! The surrounding pipeline (transport, downstream handler, logging) is
//! expected to act on the decision.

pub mod rewrite;
pub mod service;
