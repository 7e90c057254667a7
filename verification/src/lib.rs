//! A profiling search request against an Elasticsearch cluster.
//!
//! The request is built from an endpoint and a query, handed to a caller-supplied
//! HTTP exchange, and the exchange's outcome is turned into a JSON document or a
//! typed error. Everything but the exchange itself is verified here.

pub mod elasticsearch;
pub mod http;
pub mod json;
pub mod zdbquery;
