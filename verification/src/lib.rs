//! A real-time transit feed adapter library: parses a static GTFS
//! schedule, joins it with a live vehicle snapshot across two identifier
//! namespaces, correlates each live arrival with a scheduled trip
//! instance, and builds the entities of a transit-realtime feed.

pub mod alerts;
pub mod arrivals;
pub mod engine;
pub mod error;
pub mod feed;
pub mod loader;
pub mod numbers;
pub mod schedule;
pub mod tables;
pub mod time;
pub mod traits;
pub mod util;
