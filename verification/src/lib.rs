//! Request counting for an HTTP service: every request is either answered with the
//! metrics exposition (when its path is the scrape route) or counted under its route
//! and passed on to the rest of the handler chain.

pub mod config;
pub mod counts;
pub mod middleware;
pub mod response;
pub mod setup;
pub mod telemetry;
