//! Setting up the metrics pipeline: an exporter with a registry of its own, and the
//! request counter registered in its pipeline.
//!
//! The setup is a chain of three steps, each of which can fail. Every step has a
//! function here that takes how the step ended and says what follows from it.

use crate::telemetry::added;
use crate::telemetry::exporter_init;
use crate::telemetry::exporter_meter;
use crate::telemetry::instrument_name;
use crate::telemetry::meter_u64_counter;
use crate::telemetry::nothing_added;
use crate::telemetry::Exporter;
use crate::telemetry::PipelineMeter;
use crate::telemetry::RequestCounter;
use opentelemetry::metrics::MetricsError;
use vstd::prelude::*;

verus! {

/// The name of the meter that owns the request counter.
pub const METER_NAME: &'static str = "middleware";

/// The name of the request counter.
pub const COUNTER_NAME: &'static str = "http_server_requests_count";

/// The description of the request counter.
pub const COUNTER_DESCRIPTION: &'static str = "total request count";

/// Which step of setting up the metrics pipeline failed.
#[derive(Debug, Clone, Copy, PartialEq, Eq, Structural)]
pub enum InitError {
    /// The exporter could not be registered.
    Exporter,
    /// The exporter's pipeline gave no meter.
    Meter,
    /// The request counter could not be registered.
    Counter,
}

/// Whether `counter` is the request counter as the setup leaves it: registered under
/// [`COUNTER_NAME`], with nothing handed over through it yet.
pub open spec fn is_fresh_request_counter(counter: RequestCounter) -> bool {
    instrument_name(counter) == COUNTER_NAME@ && added(counter) == nothing_added()
}

/// Sets up a metrics pipeline and registers the request counter in it: the exporter
/// and the handle on the counter, for a middleware to be made over them. The pipeline
/// also becomes the meter provider of the process, as the exporter's setup has it.
/// Fails where a step of the setup fails; [`install_from_exporter`] says with which
/// error.
pub fn install() -> (result: Result<(Exporter, RequestCounter), InitError>)
    ensures
        result matches Ok(instruments) ==> is_fresh_request_counter(instruments.1),
{
    install_from_exporter(exporter_init())
}

/// Goes on with the setup from how the registration of the exporter ended. A failed
/// registration ends the setup with [`InitError::Exporter`], and nothing else does.
/// Over an exporter, the meter of its pipeline is asked for next.
pub fn install_from_exporter(
    exporter: Result<Exporter, MetricsError>,
) -> (result: Result<(Exporter, RequestCounter), InitError>)
    ensures
        exporter is Err ==> (result matches Err(error) && error == InitError::Exporter),
        exporter is Ok ==> (result matches Err(error) ==> error != InitError::Exporter),
        exporter matches Ok(given) ==> (result matches Ok(instruments) ==> instruments.0 == given),
        result matches Ok(instruments) ==> is_fresh_request_counter(instruments.1),
{
    match exporter {
        Ok(exporter) => match exporter_meter(&exporter, METER_NAME) {
            Ok(meter) => install_from_meter(Ok((exporter, meter))),
            Err(error) => install_from_meter(Err(error)),
        },
        Err(_) => Err(InitError::Exporter),
    }
}

/// Goes on with the setup from how asking the exporter for its meter ended: with the
/// exporter and its meter, or with the error. Without a meter the setup ends with
/// [`InitError::Meter`], and nothing else ends it so. With one, the request counter is
/// registered next.
pub fn install_from_meter(
    meter: Result<(Exporter, PipelineMeter), MetricsError>,
) -> (result: Result<(Exporter, RequestCounter), InitError>)
    ensures
        meter is Err ==> (result matches Err(error) && error == InitError::Meter),
        meter is Ok ==> (result matches Err(error) ==> error == InitError::Counter),
        meter matches Ok(given) ==> (result matches Ok(instruments) ==> instruments.0 == given.0),
        result matches Ok(instruments) ==> is_fresh_request_counter(instruments.1),
{
    match meter {
        Ok((exporter, meter)) => match meter_u64_counter(meter, COUNTER_NAME, COUNTER_DESCRIPTION) {
            Ok(request_count) => install_from_counter(Ok((exporter, request_count))),
            Err(error) => install_from_counter(Err(error)),
        },
        Err(_) => Err(InitError::Meter),
    }
}

/// Ends the setup from how the registration of the request counter ended: the exporter
/// and the counter as they are, or [`InitError::Counter`] where there is no counter.
pub fn install_from_counter(
    request_count: Result<(Exporter, RequestCounter), MetricsError>,
) -> (result: Result<(Exporter, RequestCounter), InitError>)
    ensures
        request_count is Err ==> (result matches Err(error) && error == InitError::Counter),
        request_count matches Ok(given) ==> (result matches Ok(instruments) && instruments
            == given),
{
    match request_count {
        Ok(instruments) => Ok(instruments),
        Err(_) => Err(InitError::Counter),
    }
}

} // verus!
