//! The client of one thermostat: its resolved base URL and its HTTP transport.

use vstd::prelude::*;

use crate::endpoint::{joinable_base, join_url, resolve_endpoint, resolve_spec, url_join, UrlError};
use crate::transport::client_cap;
use crate::status::{decode_spec, decode_status, xml_fields, DecodeError, DecodeErrorModel, RawThermostatData};

verus! {

/// Redirect hops that the transport follows before it gives up.
pub const MAX_REDIRECTS: usize = 1;

/// Failures of the client.
#[derive(Debug)]
pub enum ThermostatError {
    /// The endpoint does not resolve to a base URL.
    ParseError(url::ParseError),
    /// The HTTP transport could not be set up.
    ConfigError(reqwest::Error),
    /// The status request failed in transport.
    NetworkError(reqwest::Error),
    /// The response body is no status document.
    DecodeError(DecodeError),
}

/// A client bound to one device: its base URL, fixed at creation, and its
/// HTTP transport.
pub struct Thermostat {
    client: reqwest::Client,
    base_url: String,
}

impl Thermostat {
    /// The base URL, as text.
    pub closed spec fn base_url_spec(&self) -> Seq<char> {
        self.base_url@
    }

    /// The most redirect hops that the transport follows.
    pub closed spec fn redirect_cap(&self) -> usize {
        client_cap(self.client)
    }

    /// Resolves the endpoint to a base URL that `thermostat.xml` can be
    /// joined onto, and sets up a transport that follows at most one redirect.
    pub fn create(endpoint: &str) -> (r: Result<Thermostat, ThermostatError>)
        ensures
            match resolve_spec(endpoint@) {
                Ok(h) => match r {
                    Ok(t) => t.base_url_spec() == h && joinable_base(h) && t.redirect_cap()
                        == MAX_REDIRECTS,
                    Err(e) => e is ConfigError,
                },
                Err(_) => r matches Err(ThermostatError::ParseError(x)) && resolve_spec(endpoint@)
                    == Err::<Seq<char>, UrlError>(UrlError::Invalid(x)),
            },
    {
        let base_url = match resolve_endpoint(endpoint) {
            Ok(h) => h,
            Err(e) => {
                return Err(ThermostatError::ParseError(e));
            },
        };
        let built = reqwest::Client::builder().redirect(
            reqwest::redirect::Policy::limited(MAX_REDIRECTS),
        ).build();
        match built {
            Ok(client) => Ok(Thermostat { client, base_url }),
            Err(e) => Err(ThermostatError::ConfigError(e)),
        }
    }

    /// The base URL, as text.
    pub fn base_url(&self) -> (r: &str)
        ensures
            r@ == self.base_url_spec(),
    {
        self.base_url.as_str()
    }

    /// The HTTP transport, for issuing the status request.
    pub fn client(&self) -> &reqwest::Client {
        &self.client
    }

    /// The URL of the status document: `thermostat.xml` joined onto the base.
    pub fn status_url(&self) -> (r: Result<String, url::ParseError>)
        ensures
            match r {
                Ok(u) => url_join(self.base_url_spec(), "thermostat.xml"@) == Ok::<
                    Seq<char>,
                    url::ParseError,
                >(u@),
                Err(e) => url_join(self.base_url_spec(), "thermostat.xml"@) == Err::<
                    Seq<char>,
                    url::ParseError,
                >(e),
            },
    {
        join_url(self.base_url.as_str(), "thermostat.xml")
    }
}

/// The outcome of a status request from what the transport delivered: a
/// transport failure is a network error; a body is decoded.
pub fn status_from_response(response: Result<Vec<u8>, reqwest::Error>) -> (r: Result<
    RawThermostatData,
    ThermostatError,
>)
    ensures
        match response {
            Err(e) => r matches Err(ThermostatError::NetworkError(x)) && x == e,
            Ok(body) => match xml_fields(body@) {
                Err(m) => r matches Err(ThermostatError::DecodeError(x)) && x@ == DecodeErrorModel::Xml(m),
                Ok(fs) => match decode_spec(fs) {
                    Ok(m) => r matches Ok(st) && st@ == m,
                    Err(e) => r matches Err(ThermostatError::DecodeError(x)) && x@ == e,
                },
            },
        },
        r matches Ok(st) ==> st.wf(),
{
    match response {
        Err(e) => Err(ThermostatError::NetworkError(e)),
        Ok(body) => match decode_status(body.as_slice()) {
            Ok(st) => Ok(st),
            Err(e) => Err(ThermostatError::DecodeError(e)),
        },
    }
}

} // verus!
