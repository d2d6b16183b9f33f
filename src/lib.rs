//! Client library for a networked thermostat that reports its status as a
//! small XML document over HTTP.

pub mod client;
pub mod decimal;
pub mod endpoint;
pub mod status;
mod transport;

pub use client::{status_from_response, Thermostat, ThermostatError, MAX_REDIRECTS};
pub use decimal::Decimal;
pub use endpoint::resolve_endpoint;
pub use status::{decode_fields, decode_flag, decode_status, opt_f64, DecodeError, RawThermostatData};
