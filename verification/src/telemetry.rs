//! The boundary to the metrics pipeline: the `opentelemetry` counter instrument, the
//! Prometheus exporter that collects it, and the text encoder of the `prometheus` crate.
//!
//! Nothing in this file is proved. Each item states what the named outside function is
//! taken to do; the rest of the crate is verified against these statements.

use opentelemetry::metrics::Counter;
use opentelemetry::metrics::Meter;
use opentelemetry::metrics::MeterProvider;
use opentelemetry::metrics::MetricsError;
use opentelemetry::KeyValue;
use opentelemetry_prometheus::PrometheusExporter;
use prometheus::proto::MetricFamily;
use prometheus::proto::MetricType;
use prometheus::Encoder;
use prometheus::TextEncoder;
use vstd::prelude::*;

verus! {

/// `opentelemetry::metrics::Counter`, a handle on a synchronous counter instrument.
#[verifier::external_type_specification]
#[verifier::external_body]
#[verifier::reject_recursive_types(T)]
pub struct ExCounter<T>(Counter<T>);

/// `opentelemetry_prometheus::PrometheusExporter`, the pull exporter with its registry.
#[verifier::external_type_specification]
#[verifier::external_body]
pub struct ExPrometheusExporter(PrometheusExporter);

/// `opentelemetry::metrics::Meter`, the factory of the instruments of one pipeline.
#[verifier::external_type_specification]
#[verifier::external_body]
pub struct ExMeter(Meter);

/// `opentelemetry::metrics::MetricsError`, the error of the metrics pipeline.
#[verifier::external_type_specification]
#[verifier::external_body]
pub struct ExMetricsError(MetricsError);

/// `prometheus::proto::MetricFamily`, one gathered metric with its samples.
#[verifier::external_type_specification]
#[verifier::external_body]
pub struct ExMetricFamily(MetricFamily);

/// `prometheus::Error`, the error of the `prometheus` crate.
#[verifier::external_type_specification]
#[verifier::external_body]
pub struct ExPrometheusError(prometheus::Error);

/// The exporter of a metrics pipeline that this crate has set up. Only
/// [`exporter_init`] makes one, so its registry holds the collector of its own pipeline
/// and nothing else, and nothing outside this file reaches the exporter inside.
pub struct Exporter {
    inner: PrometheusExporter,
}

/// A meter of the pipeline of an [`Exporter`]. Only [`exporter_meter`] makes one.
pub struct PipelineMeter {
    inner: Meter,
}

/// A handle on a counter instrument of the pipeline of an [`Exporter`]. Only
/// [`meter_u64_counter`] makes one, and each handle is made once and never copied.
pub struct RequestCounter {
    inner: Counter<u64>,
}

/// The ledger of a counter handle: for each attribute, given as the pair of its key and
/// its string value, the sum of the amounts that were handed to the pipeline through
/// this handle under it, reduced modulo 2^64 as the 64-bit atomic of the instrument
/// reduces a sum. An attribute under which nothing was handed over is not in the map.
///
/// It is a record of the calls made through the handle, not a reading of the pipeline.
/// The pipeline files each amount by a 64-bit hash of its attributes and moves the sums
/// on at every collection, so what a scrape shows for an attribute is not claimed to be
/// the ledger's entry.
pub uninterp spec fn added(counter: RequestCounter) -> Map<(Seq<char>, Seq<char>), u64>;

/// The name under which the instrument of a counter handle is registered.
pub uninterp spec fn instrument_name(counter: RequestCounter) -> Seq<char>;

/// Whether `families` is a list that the registry of `exporter` has handed out at a
/// gathering. Two gatherings need not hand out the same list.
pub uninterp spec fn gathered(exporter: Exporter, families: Seq<MetricFamily>) -> bool;

/// Whether a metric family is of the untyped kind, which the text encoder cannot write.
pub uninterp spec fn untyped(family: MetricFamily) -> bool;

/// What `TextEncoder` makes of a list of metric families none of which is untyped:
/// their text exposition, or nothing where it rejects one of them. The encoder reads
/// nothing but the families.
pub uninterp spec fn encoded(families: Seq<MetricFamily>) -> Option<Seq<u8>>;

/// The ledger of a handle through which nothing was handed over.
pub open spec fn nothing_added() -> Map<(Seq<char>, Seq<char>), u64> {
    Map::empty()
}

/// The total that `totals` holds for an attribute, 0 where it holds none.
pub open spec fn total_of(
    totals: Map<(Seq<char>, Seq<char>), u64>,
    key: Seq<char>,
    value: Seq<char>,
) -> u64 {
    if totals.contains_key((key, value)) {
        totals[(key, value)]
    } else {
        0
    }
}

/// The sum of a total and an amount as a 64-bit atomic keeps it: reduced modulo 2^64.
pub open spec fn wrapped_sum(total: u64, amount: u64) -> u64 {
    if total + amount > u64::MAX {
        (total + amount - u64::MAX - 1) as u64
    } else {
        (total + amount) as u64
    }
}

/// Whether none of `families` is untyped.
pub open spec fn all_typed(families: Seq<MetricFamily>) -> bool {
    forall|i: int| 0 <= i < families.len() ==> !untyped(#[trigger] families[i])
}

/// `Counter::<u64>::add` with a single string attribute, on a handle of a pipeline that
/// this crate set up: the amount is handed to the pipeline under that attribute, so the
/// ledger's entry for it grows by `amount`, wrapping at 2^64, and every other entry stays
/// as it was. The handle stays on the same instrument. The call never fails and returns
/// nothing.
#[verifier::external_body]
pub(crate) fn counter_add(counter: &mut RequestCounter, amount: u64, key: &'static str, value: &str)
    ensures
        added(*final(counter)) == added(*old(counter)).insert(
            (key@, value@),
            wrapped_sum(total_of(added(*old(counter)), key@, value@), amount),
        ),
        instrument_name(*final(counter)) == instrument_name(*old(counter)),
{
    counter.inner.add(amount, &[KeyValue::new(key, value.to_owned())]);
}

/// `opentelemetry_prometheus::exporter().try_init()`: builds a pull pipeline with the
/// default settings, registers its collector in a new registry of its own, and hands
/// the exporter back, or the error of the registration. The call also installs the
/// pipeline as the meter provider of the whole process, and it reads the environment
/// for the host and the port that the exporter reports and for the attributes of the
/// resource. Nothing is claimed of the outcome.
#[verifier::external_body]
pub(crate) fn exporter_init() -> (result: Result<Exporter, MetricsError>) {
    opentelemetry_prometheus::exporter().try_init().map(|inner| Exporter { inner })
}

/// `PrometheusExporter::provider` followed by `MeterProvider::meter` with no version:
/// the meter called `name` of the exporter's own pipeline, or the error of a poisoned
/// lock. Nothing is claimed of the outcome.
#[verifier::external_body]
pub(crate) fn exporter_meter(
    exporter: &Exporter,
    name: &'static str,
) -> (result: Result<PipelineMeter, MetricsError>) {
    exporter.inner.provider().map(|provider| PipelineMeter { inner: provider.meter(name, None) })
}

/// `Meter::u64_counter`, `CounterBuilder::with_description` and
/// `CounterBuilder::try_init` on a meter of a pipeline that this crate set up: a handle
/// on the counter instrument that the pipeline holds under `name`, or the error of its
/// registration. The instrument carries that name. Nothing has been handed over through
/// a handle that was just made. The meter is used up, so that it gives one handle.
#[verifier::external_body]
pub(crate) fn meter_u64_counter(
    meter: PipelineMeter,
    name: &str,
    description: &str,
) -> (result: Result<RequestCounter, MetricsError>)
    ensures
        result matches Ok(counter) ==> added(counter) == nothing_added(),
        result matches Ok(counter) ==> instrument_name(counter) == name@,
{
    let made = meter.inner.u64_counter(name).with_description(description).try_init();
    made.map(|inner| RequestCounter { inner })
}

/// `Registry::gather` on the exporter's registry: collects the pipeline and hands out
/// the metric families. They are a gathering of this exporter's registry. What they
/// hold depends on when the pipeline last collected, so nothing more is claimed of
/// them.
#[verifier::external_body]
pub(crate) fn exporter_gather(exporter: &Exporter) -> (families: Vec<MetricFamily>)
    ensures
        gathered(*exporter, families@),
{
    exporter.inner.registry().gather()
}

/// `MetricFamily::get_field_type`, told apart from `MetricType::UNTYPED`: whether the
/// family is of the untyped kind.
#[verifier::external_body]
pub(crate) fn family_is_untyped(family: &MetricFamily) -> (is_untyped: bool)
    ensures
        is_untyped == untyped(*family),
{
    matches!(family.get_field_type(), MetricType::UNTYPED)
}

/// `TextEncoder::encode` into a fresh buffer: the families in the text exposition
/// format, or the error of a family that has no name or no sample. The bytes are what
/// the encoder makes of these families, whenever it is asked. An untyped family, which
/// the encoder answers by a panic, is not to be among them.
#[verifier::external_body]
pub(crate) fn encode_text(families: &Vec<MetricFamily>) -> (result: Result<Vec<u8>, prometheus::Error>)
    requires
        all_typed(families@),
    ensures
        result matches Ok(text) ==> encoded(families@) == Some(text@),
        result is Err ==> encoded(families@) is None,
{
    let mut buffer = Vec::new();
    TextEncoder::new().encode(families, &mut buffer).map(|_| buffer)
}

/// `==` on string slices: whether the two hold the same characters.
#[verifier::external_body]
pub(crate) fn same_text(left: &str, right: &str) -> (same: bool)
    ensures
        same == (left@ == right@),
{
    left == right
}

} // verus!
