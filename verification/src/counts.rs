//! The request counts as a mathematical model: what one request, and what a run of
//! requests, does to the ledger of the request counter, and the laws that follow.
//!
//! The ledger is what the middleware has handed to the metrics pipeline, for each
//! route. The laws speak of the ledger; how the pipeline renders it in a scrape is the
//! pipeline's affair.
//!
//! The middleware takes one request at a time. Where a service handles requests
//! concurrently, it takes them in some order, and the laws below hold of every order.

use crate::middleware::ROUTE_KEY;
use crate::telemetry::total_of;
use crate::telemetry::wrapped_sum;
use vstd::prelude::*;

verus! {

/// The name of the attribute that carries the request's path, as a sequence.
pub open spec fn route_key() -> Seq<char> {
    ROUTE_KEY@
}

/// How many requests the ledger `totals` holds for `route`.
pub open spec fn count_of(totals: Map<(Seq<char>, Seq<char>), u64>, route: Seq<char>) -> u64 {
    total_of(totals, route_key(), route)
}

/// The totals after counting one request for `route`.
pub open spec fn counted(
    totals: Map<(Seq<char>, Seq<char>), u64>,
    route: Seq<char>,
) -> Map<(Seq<char>, Seq<char>), u64> {
    totals.insert((route_key(), route), wrapped_sum(count_of(totals, route), 1))
}

/// The totals after the middleware has seen one request for `path`: a request for the
/// scrape route is answered and not counted, any other is counted under its path.
pub open spec fn after_request(
    totals: Map<(Seq<char>, Seq<char>), u64>,
    scrape_route: Seq<char>,
    path: Seq<char>,
) -> Map<(Seq<char>, Seq<char>), u64> {
    if path == scrape_route {
        totals
    } else {
        counted(totals, path)
    }
}

/// The totals after the middleware has seen the requests for `paths`, first to last.
pub open spec fn after_requests(
    totals: Map<(Seq<char>, Seq<char>), u64>,
    scrape_route: Seq<char>,
    paths: Seq<Seq<char>>,
) -> Map<(Seq<char>, Seq<char>), u64>
    decreases paths.len(),
{
    if paths.len() == 0 {
        totals
    } else {
        after_request(
            after_requests(totals, scrape_route, paths.drop_last()),
            scrape_route,
            paths.last(),
        )
    }
}

/// How many of `paths` are `route`.
pub open spec fn occurrences(paths: Seq<Seq<char>>, route: Seq<char>) -> nat
    decreases paths.len(),
{
    if paths.len() == 0 {
        0
    } else if paths.last() == route {
        occurrences(paths.drop_last(), route) + 1
    } else {
        occurrences(paths.drop_last(), route)
    }
}

/// Counting a request raises the count of its route by one, unless the count stood at
/// the largest 64-bit value, from where it wraps to zero.
pub proof fn counted_adds_one(totals: Map<(Seq<char>, Seq<char>), u64>, route: Seq<char>)
    ensures
        count_of(totals, route) < u64::MAX ==> count_of(counted(totals, route), route) == count_of(
            totals,
            route,
        ) + 1,
        count_of(totals, route) == u64::MAX ==> count_of(counted(totals, route), route) == 0,
{
}

/// Counting a request for one route leaves the count of every other route as it was.
pub proof fn other_routes_keep_their_count(
    totals: Map<(Seq<char>, Seq<char>), u64>,
    scrape_route: Seq<char>,
    path: Seq<char>,
    other: Seq<char>,
)
    requires
        path != other,
    ensures
        count_of(after_request(totals, scrape_route, path), other) == count_of(totals, other),
{
}

/// A request for the scrape route changes no count, its own included.
pub proof fn scrape_is_not_counted(totals: Map<(Seq<char>, Seq<char>), u64>, scrape_route: Seq<char>)
    ensures
        after_request(totals, scrape_route, scrape_route) == totals,
        forall|route: Seq<char>|
            count_of(after_request(totals, scrape_route, scrape_route), route) == count_of(
                totals,
                route,
            ),
{
}

/// Whatever requests are handled, the count of the scrape route stays as it was.
pub proof fn scrape_route_count_is_constant(
    totals: Map<(Seq<char>, Seq<char>), u64>,
    scrape_route: Seq<char>,
    paths: Seq<Seq<char>>,
)
    ensures
        count_of(after_requests(totals, scrape_route, paths), scrape_route) == count_of(
            totals,
            scrape_route,
        ),
    decreases paths.len(),
{
    if paths.len() > 0 {
        scrape_route_count_is_constant(totals, scrape_route, paths.drop_last());
    }
}

/// After a run of requests the count of a route other than the scrape route has grown
/// by the number of requests for it, as long as that sum fits in 64 bits.
pub proof fn count_grows_by_occurrences(
    totals: Map<(Seq<char>, Seq<char>), u64>,
    scrape_route: Seq<char>,
    paths: Seq<Seq<char>>,
    route: Seq<char>,
)
    requires
        route != scrape_route,
        count_of(totals, route) + occurrences(paths, route) <= u64::MAX,
    ensures
        count_of(after_requests(totals, scrape_route, paths), route) == count_of(totals, route)
            + occurrences(paths, route),
    decreases paths.len(),
{
    if paths.len() > 0 {
        count_grows_by_occurrences(totals, scrape_route, paths.drop_last(), route);
    }
}

/// A run of requests that are all for `route` counts as many as there are.
pub proof fn occurrences_of_only_route(paths: Seq<Seq<char>>, route: Seq<char>)
    requires
        forall|i: int| 0 <= i < paths.len() ==> paths[i] == route,
    ensures
        occurrences(paths, route) == paths.len(),
    decreases paths.len(),
{
    if paths.len() > 0 {
        occurrences_of_only_route(paths.drop_last(), route);
    }
}

/// No update is lost: after any number of requests for one route, none of them for the
/// scrape route, the count of that route has grown by exactly that number, as long as
/// the sum fits in 64 bits.
pub proof fn same_route_counts_every_request(
    totals: Map<(Seq<char>, Seq<char>), u64>,
    scrape_route: Seq<char>,
    paths: Seq<Seq<char>>,
    route: Seq<char>,
)
    requires
        route != scrape_route,
        forall|i: int| 0 <= i < paths.len() ==> paths[i] == route,
        count_of(totals, route) + paths.len() <= u64::MAX,
    ensures
        count_of(after_requests(totals, scrape_route, paths), route) == count_of(totals, route)
            + paths.len(),
{
    occurrences_of_only_route(paths, route);
    count_grows_by_occurrences(totals, scrape_route, paths, route);
}

/// Requests for other routes do not touch the count of a route: after any run of
/// requests none of which is for `route`, its count is what it was.
pub proof fn routes_are_independent(
    totals: Map<(Seq<char>, Seq<char>), u64>,
    scrape_route: Seq<char>,
    paths: Seq<Seq<char>>,
    route: Seq<char>,
)
    requires
        forall|i: int| 0 <= i < paths.len() ==> paths[i] != route,
    ensures
        count_of(after_requests(totals, scrape_route, paths), route) == count_of(totals, route),
    decreases paths.len(),
{
    if paths.len() > 0 {
        routes_are_independent(totals, scrape_route, paths.drop_last(), route);
    }
}

/// A count never goes down as long as it stays below the largest 64-bit value.
pub proof fn count_never_decreases(
    totals: Map<(Seq<char>, Seq<char>), u64>,
    scrape_route: Seq<char>,
    path: Seq<char>,
    route: Seq<char>,
)
    requires
        count_of(totals, route) < u64::MAX,
    ensures
        count_of(totals, route) <= count_of(after_request(totals, scrape_route, path), route),
{
}

} // verus!
