//! The instrumentation middleware: one decision per request, between answering with
//! the metrics exposition and counting the request before it is passed on.

use crate::config::MetricsConfig;
use crate::counts::after_request;
use crate::counts::count_of;
use crate::counts::counted;
use crate::response::plain_text;
use crate::response::rendered_view;
use crate::response::scrape_response;
use crate::response::scrape_response_of;
use crate::response::Response;
use crate::response::ResponseView;
use crate::response::ScrapeError;
use crate::setup::install;
use crate::setup::InitError;
use crate::setup::COUNTER_NAME;
use crate::telemetry::added;
use crate::telemetry::all_typed;
use crate::telemetry::counter_add;
use crate::telemetry::encode_text;
use crate::telemetry::encoded;
use crate::telemetry::exporter_gather;
use crate::telemetry::family_is_untyped;
use crate::telemetry::gathered;
use crate::telemetry::instrument_name;
use crate::telemetry::nothing_added;
use crate::telemetry::same_text;
use crate::telemetry::untyped;
use crate::telemetry::Exporter;
use crate::telemetry::RequestCounter;
use prometheus::proto::MetricFamily;
use vstd::prelude::*;

verus! {

/// The name of the attribute that carries the request's path.
pub const ROUTE_KEY: &'static str = "http_route";

/// An inbound request: its path, and whatever else belongs to it.
pub struct Request<T> {
    pub path: String,
    pub rest: T,
}

/// What is to happen with a request.
pub enum Dispatch {
    /// It was a scrape: this is its response, and the handler chain is not to see it.
    Respond(Response),
    /// It has been counted and goes on to the rest of the handler chain.
    Forward,
}

/// How a request was handled.
pub enum Handled<R> {
    /// It was a scrape: the middleware's own response.
    Scraped(Response),
    /// It was counted and passed on: the response of the rest of the handler chain.
    Forwarded(R),
}

/// What a snapshot is, given what the encoder made of the gathered families: their text,
/// or the encoding error where it made nothing of them.
pub open spec fn rendering_of(text: Option<Seq<u8>>) -> Result<Seq<u8>, ScrapeError> {
    match text {
        Some(text) => Ok(text),
        None => Err(ScrapeError::Encoding),
    }
}

/// What a snapshot of `families` is: what the encoder makes of them, or the encoding
/// error where one of them is untyped and so not fit for the encoder.
pub open spec fn rendering_of_families(families: Seq<MetricFamily>) -> Result<Seq<u8>, ScrapeError> {
    if all_typed(families) {
        rendering_of(encoded(families))
    } else {
        Err(ScrapeError::Encoding)
    }
}

/// Whether `rendered` is the snapshot of metric families gathered from the registry of
/// `exporter`.
pub open spec fn is_rendering(exporter: Exporter, rendered: Result<Seq<u8>, ScrapeError>) -> bool {
    exists|families: Seq<MetricFamily>| #[trigger]
        gathered(exporter, families) && rendered == rendering_of_families(families)
}

/// Whether `response` is the answer to a scrape of the registry of `exporter`: over
/// metric families gathered from it, 200 with their text exposition as plain text, or
/// 500 with an empty body where they could not be encoded.
pub open spec fn is_scrape_response(exporter: Exporter, response: ResponseView) -> bool {
    exists|families: Seq<MetricFamily>| #[trigger]
        gathered(exporter, families) && response == scrape_response_of(
            rendering_of_families(families),
        )
}

/// The answer to a scrape has status 200 exactly when the gathered families could be
/// encoded. It then carries their text as plain text. Otherwise it has status 500, no
/// content type and an empty body.
pub proof fn scrape_is_ok_when_rendered(exporter: Exporter, response: ResponseView)
    requires
        is_scrape_response(exporter, response),
    ensures
        response.status == 200 || response.status == 500,
        response.status == 200 ==> response.content_type == Some(plain_text()),
        response.status == 500 ==> response.content_type.is_none() && response.body.len() == 0,
        forall|families: Seq<MetricFamily>|
            response == scrape_response_of(#[trigger] rendering_of_families(families)) ==> (
            response.status == 200 <==> rendering_of_families(families) is Ok),
        forall|families: Seq<MetricFamily>|
            response == scrape_response_of(#[trigger] rendering_of_families(families)) ==> (
            rendering_of_families(families) matches Ok(text) ==> response.body == text),
{
}

/// The answer to a scrape depends on the gathered families alone: two scrapes over the
/// same families are answered alike, byte for byte.
pub proof fn equal_gatherings_give_equal_scrapes(
    first: ResponseView,
    second: ResponseView,
    families: Seq<MetricFamily>,
)
    requires
        first == scrape_response_of(rendering_of_families(families)),
        second == scrape_response_of(rendering_of_families(families)),
    ensures
        first == second,
{
}

/// The snapshot that comes of the encoder's outcome: its bytes as they are, or the
/// encoding error in place of the encoder's own.
pub fn snapshot_from(
    outcome: Result<Vec<u8>, prometheus::Error>,
) -> (rendered: Result<Vec<u8>, ScrapeError>)
    ensures
        outcome matches Ok(text) ==> (rendered matches Ok(kept) && kept == text),
        outcome is Err ==> (rendered matches Err(error) && error == ScrapeError::Encoding),
{
    match outcome {
        Ok(text) => Ok(text),
        Err(_) => Err(ScrapeError::Encoding),
    }
}

/// Renders gathered metric families in the text exposition format. A family of the
/// untyped kind, which the encoder cannot write, makes the rendering fail like any
/// family that the encoder rejects.
pub fn render(families: &Vec<MetricFamily>) -> (rendered: Result<Vec<u8>, ScrapeError>)
    ensures
        rendered_view(rendered) == rendering_of_families(families@),
{
    let mut index: usize = 0;
    while index < families.len()
        invariant
            index <= families.len(),
            forall|i: int| 0 <= i < index ==> !untyped(#[trigger] families@[i]),
        decreases families.len() - index,
    {
        if family_is_untyped(&families[index]) {
            return Err(ScrapeError::Encoding);
        }
        index += 1;
    }
    snapshot_from(encode_text(families))
}

/// Counts every request under its path, and serves the metrics on the scrape route.
///
/// The counts that the contracts speak of are the middleware's own ledger: what it has
/// handed to the metrics pipeline, request by request. What a scrape shows is the
/// pipeline's rendering of it and is not stated here.
pub struct RequestCountMiddleware {
    route: String,
    exporter: Exporter,
    request_count: RequestCounter,
}

impl RequestCountMiddleware {
    /// The path on which the exposition is served.
    pub closed spec fn scrape_route(&self) -> Seq<char> {
        self.route@
    }

    /// The exporter whose registry the snapshots are gathered from.
    pub closed spec fn exporter(&self) -> Exporter {
        self.exporter
    }

    /// The name under which the request counter is registered.
    pub closed spec fn counter_name(&self) -> Seq<char> {
        instrument_name(self.request_count)
    }

    /// The ledger of the request counter: what this middleware has handed to the
    /// pipeline, for each attribute.
    pub closed spec fn totals(&self) -> Map<(Seq<char>, Seq<char>), u64> {
        added(self.request_count)
    }

    /// How many requests this middleware has handed to the pipeline for `route`.
    pub open spec fn count(&self, route: Seq<char>) -> u64 {
        count_of(self.totals(), route)
    }

    /// A middleware over the exporter and the request counter of a pipeline that
    /// [`install`] has set up.
    pub fn with_instruments(
        config: MetricsConfig,
        exporter: Exporter,
        request_count: RequestCounter,
    ) -> (middleware: RequestCountMiddleware)
        ensures
            middleware.scrape_route() == config.route@,
            middleware.exporter() == exporter,
            middleware.counter_name() == instrument_name(request_count),
            middleware.totals() == added(request_count),
    {
        RequestCountMiddleware { route: config.route, exporter, request_count }
    }

    /// Sets up a metrics pipeline of its own with [`install`] and gives a middleware over
    /// it that has counted nothing yet. Fails where the setup fails, with its error.
    pub fn new(config: MetricsConfig) -> (result: Result<RequestCountMiddleware, InitError>)
        ensures
            result matches Ok(middleware) ==> middleware.scrape_route() == config.route@
                && middleware.counter_name() == COUNTER_NAME@ && middleware.totals()
                == nothing_added(),
    {
        match install() {
            Ok((exporter, request_count)) => Ok(
                Self::with_instruments(config, exporter, request_count),
            ),
            Err(error) => Err(error),
        }
    }

    /// The path on which the exposition is served.
    pub fn route(&self) -> (route: &str)
        ensures
            route@ == self.scrape_route(),
    {
        self.route.as_str()
    }

    /// Gathers the metric families from the registry of the middleware's own exporter
    /// and renders them as [`render`] does. The ledger does not change by it.
    pub fn snapshot(&self) -> (rendered: Result<Vec<u8>, ScrapeError>)
        ensures
            is_rendering(self.exporter(), rendered_view(rendered)),
    {
        let families = exporter_gather(&self.exporter);
        let rendered = render(&families);
        proof {
            assert(gathered(self.exporter(), families@));
        }
        rendered
    }

    /// Counts one request for `path`: hands it to the pipeline and enters it in the
    /// ledger.
    pub fn record(&mut self, path: &str)
        ensures
            final(self).scrape_route() == old(self).scrape_route(),
            final(self).exporter() == old(self).exporter(),
            final(self).counter_name() == old(self).counter_name(),
            final(self).totals() == counted(old(self).totals(), path@),
    {
        counter_add(&mut self.request_count, 1, ROUTE_KEY, path);
    }

    /// Decides what happens with a request for `path`. On the scrape route, and only
    /// there, it is answered with a snapshot gathered from the middleware's own exporter
    /// and nothing is counted. Any other request is counted exactly once under its path
    /// and is to be passed on.
    pub fn dispatch(&mut self, path: &str) -> (dispatch: Dispatch)
        ensures
            final(self).scrape_route() == old(self).scrape_route(),
            final(self).exporter() == old(self).exporter(),
            final(self).counter_name() == old(self).counter_name(),
            final(self).totals() == after_request(
                old(self).totals(),
                old(self).scrape_route(),
                path@,
            ),
            path@ == old(self).scrape_route() ==> (dispatch matches Dispatch::Respond(response)
                && is_scrape_response(old(self).exporter(), response@)),
            path@ != old(self).scrape_route() ==> dispatch is Forward,
    {
        if same_text(path, self.route.as_str()) {
            let response = scrape_response(self.snapshot());
            Dispatch::Respond(response)
        } else {
            self.record(path);
            Dispatch::Forward
        }
    }

    /// Handles a request with `next` as the rest of the handler chain. A scrape is
    /// answered here and never reaches `next`. Any other request is counted under its
    /// path, then handed to `next`, whose response is returned as it is.
    pub fn handle<T, R, F: FnOnce(Request<T>) -> R>(
        &mut self,
        request: Request<T>,
        next: F,
    ) -> (handled: Handled<R>)
        requires
            request.path@ != old(self).scrape_route() ==> call_requires(next, (request,)),
        ensures
            final(self).scrape_route() == old(self).scrape_route(),
            final(self).exporter() == old(self).exporter(),
            final(self).counter_name() == old(self).counter_name(),
            final(self).totals() == after_request(
                old(self).totals(),
                old(self).scrape_route(),
                request.path@,
            ),
            request.path@ == old(self).scrape_route() ==> (handled matches Handled::Scraped(
                response,
            ) && is_scrape_response(old(self).exporter(), response@)),
            request.path@ != old(self).scrape_route() ==> (handled matches Handled::Forwarded(
                response,
            ) && call_ensures(next, (request,), response)),
    {
        match self.dispatch(request.path.as_str()) {
            Dispatch::Respond(response) => Handled::Scraped(response),
            Dispatch::Forward => Handled::Forwarded(next(request)),
        }
    }
}

} // verus!
