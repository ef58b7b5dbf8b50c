//! A small weather-lookup library: a three-tier configuration merge, a
//! provider registry, and the request-building and response-parsing logic
//! of two weather backends.
pub mod environ;
pub mod owm;
pub mod providers;
pub mod yahoo;
pub mod text;
pub mod types;
