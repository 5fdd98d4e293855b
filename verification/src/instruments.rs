//! OpenTelemetry instruments, and what is handed to them.
use opentelemetry::metrics::{Gauge, Histogram};
use opentelemetry::KeyValue;
use vstd::prelude::*;

verus! {

/// A handle to an OpenTelemetry histogram.
#[verifier::external_type_specification]
#[verifier::external_body]
#[verifier::reject_recursive_types(T)]
pub struct ExHistogram<T>(opentelemetry::metrics::Histogram<T>);

/// A handle to an OpenTelemetry gauge.
#[verifier::external_type_specification]
#[verifier::external_body]
#[verifier::reject_recursive_types(T)]
pub struct ExGauge<T>(opentelemetry::metrics::Gauge<T>);

/// What an instrument is asked for: the instrumentation scope, the metric name
/// and its unit.
pub struct InstrumentSpec {
    pub scope: Seq<char>,
    pub name: Seq<char>,
    pub unit: Seq<char>,
}

/// A value handed to an instrument, with its attributes.
pub struct Measurement<T> {
    pub value: T,
    pub attributes: Seq<KeyValue>,
}

/// What a histogram was asked for.
pub uninterp spec fn requested(histogram: Histogram<u64>) -> InstrumentSpec;

/// The measurements handed to a histogram through a handle, oldest first. A
/// clone of a handle starts with those of the handle it was made from.
pub uninterp spec fn histogram_sent(histogram: Histogram<u64>) -> Seq<Measurement<u64>>;

/// The measurements handed to a gauge through a handle, oldest first.
pub uninterp spec fn gauge_sent(gauge: Gauge<i64>) -> Seq<Measurement<i64>>;

/// `Histogram::clone`: a second handle to the same instrument.
pub assume_specification<T: Clone>[ <Histogram<T> as Clone>::clone ](h: &Histogram<T>) -> (r: Histogram<T>)
    ensures
        r == *h,
;

/// `u64_histogram(name).with_unit(unit).build()` on the meter that
/// `opentelemetry::global::meter` returns for the scope: a handle through
/// which nothing was recorded yet. Where its measurements go depends on the
/// meter provider installed at the time, of which nothing is claimed.
#[verifier::external_body]
pub(crate) fn build_histogram(scope: &'static str, name: &str, unit: &str) -> (r: Histogram<u64>)
    ensures
        requested(r) == (InstrumentSpec { scope: scope@, name: name@, unit: unit@ }),
        histogram_sent(r) == Seq::<Measurement<u64>>::empty(),
{
    opentelemetry::global::meter(scope)
        .u64_histogram(String::from(name))
        .with_unit(String::from(unit))
        .build()
}

/// `Histogram::record`: hands one measurement to the instrument. What the
/// instrument's provider makes of it is not claimed.
#[verifier::external_body]
pub(crate) fn histogram_record(
    histogram: &mut Histogram<u64>,
    value: u64,
    attributes: &Vec<KeyValue>,
)
    ensures
        requested(*final(histogram)) == requested(*old(histogram)),
        histogram_sent(*final(histogram)) == histogram_sent(*old(histogram)).push(
            Measurement { value, attributes: attributes@ },
        ),
{
    histogram.record(value, attributes)
}

/// `Gauge::record`: hands one measurement to the instrument. What the
/// instrument's provider makes of it is not claimed.
#[verifier::external_body]
pub(crate) fn gauge_record(gauge: &mut Gauge<i64>, value: i64, attributes: &Vec<KeyValue>)
    ensures
        gauge_sent(*final(gauge)) == gauge_sent(*old(gauge)).push(
            Measurement { value, attributes: attributes@ },
        ),
{
    gauge.record(value, attributes)
}

} // verus!
