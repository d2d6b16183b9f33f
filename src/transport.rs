//! The parts of the HTTP client crate that the library uses.

use vstd::prelude::*;

verus! {

#[verifier::external_type_specification]
#[verifier::external_body]
pub struct ExClient(reqwest::Client);

#[verifier::external_type_specification]
#[verifier::external_body]
pub struct ExClientBuilder(reqwest::ClientBuilder);

#[verifier::external_type_specification]
#[verifier::external_body]
pub struct ExPolicy(reqwest::redirect::Policy);

#[verifier::external_type_specification]
#[verifier::external_body]
pub struct ExReqwestError(reqwest::Error);

/// The most redirect hops that a policy lets the transport follow.
pub uninterp spec fn policy_cap(p: reqwest::redirect::Policy) -> usize;

/// The cap of the redirect policy that a transport configuration holds.
pub uninterp spec fn builder_cap(b: reqwest::ClientBuilder) -> usize;

/// The cap of the redirect policy that a transport was built with.
pub uninterp spec fn client_cap(c: reqwest::Client) -> usize;

/// Relies on reqwest::Client::builder to start a transport configuration.
pub assume_specification[ reqwest::Client::builder ]() -> reqwest::ClientBuilder;

/// Relies on reqwest::redirect::Policy::limited for a redirect policy that
/// follows at most `max` hops (`PolicyKind::Limit(max)`).
pub assume_specification[ reqwest::redirect::Policy::limited ](max: usize) -> (r:
    reqwest::redirect::Policy)
    ensures
        policy_cap(r) == max,
;

/// Relies on reqwest::ClientBuilder::redirect to set the redirect policy of
/// the configuration to the one given.
pub assume_specification[ reqwest::ClientBuilder::redirect ](
    builder: reqwest::ClientBuilder,
    policy: reqwest::redirect::Policy,
) -> (r: reqwest::ClientBuilder)
    ensures
        builder_cap(r) == policy_cap(policy),
;

/// Relies on reqwest::ClientBuilder::build, which may fail; a transport it
/// builds follows redirects by the configuration's policy.
pub assume_specification[ reqwest::ClientBuilder::build ](builder: reqwest::ClientBuilder) -> (r:
    std::result::Result<reqwest::Client, reqwest::Error>)
    ensures
        r matches Ok(c) ==> client_cap(c) == builder_cap(builder),
;

} // verus!
