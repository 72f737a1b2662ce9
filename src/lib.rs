//! Requests to OpenWeatherMap's current-weather API, composed and checked.
//!
//! A [`hub::WeatherHub`] holds the caller's HTTP client and the API key and
//! hands out [`current::WeatherQuery`] builders. A query takes the response
//! modifiers of [`hub::FormatResponse`] (`units`, `lang`) and ends with one of
//! six lookups, which yields the request's [`uri::UriBuilder`]; that builder
//! gives the URL as text or as a `hyper::Uri`. Performing the request and
//! decoding the JSON body is left to the caller's transport.
use vstd::prelude::*;

pub mod current;
pub mod decimal;
pub mod hub;
pub mod uri;

verus! {

} // verus!
