//! Configuration of the request-counting middleware.

use vstd::prelude::*;

verus! {

/// Settings of the middleware, fixed at startup.
pub struct MetricsConfig {
    /// The path on which the metrics exposition is served.
    pub route: String,
}

impl MetricsConfig {
    /// The scrape route used when none is configured: `/metrics`.
    pub open spec fn default_route() -> Seq<char> {
        "/metrics"@
    }

    /// A configuration that serves the exposition on `route`.
    pub fn new(route: String) -> (config: MetricsConfig)
        ensures
            config.route@ == route@,
    {
        MetricsConfig { route }
    }
}

impl Default for MetricsConfig {
    fn default() -> (config: MetricsConfig)
        ensures
            config.route@ == MetricsConfig::default_route(),
    {
        MetricsConfig { route: "/metrics".to_owned() }
    }
}

} // verus!
