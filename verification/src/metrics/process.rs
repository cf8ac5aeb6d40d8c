//! Counts of operations and exceptions while handling data.
use vstd::prelude::*;
use prometheus_client::registry::Registry;
use crate::metrics::{
    registered, stored_help, MetricKind,
    bumped, counter_values, new_stream_label, new_stream_with_msg_label, stream_label,
    stream_with_msg_label, NamedCounter,
};

verus! {

/// The operation and exception counters.
pub struct ProcessMetrics {
    pub operation_counter: NamedCounter,
    pub exception_counter: NamedCounter,
}

impl ProcessMetrics {
    /// Empty families, each with the metric name and help text it is exported under.
    pub fn new() -> (m: Self)
        ensures
            m.operation_counter.name@ == "data_handle_operation"@,
            m.operation_counter.help@ == "Operation in data handle process"@,
            counter_values(m.operation_counter.family).dom().is_empty(),
            m.exception_counter.name@ == "data_handle_exception"@,
            m.exception_counter.help@ == "How many exception case during handle data"@,
            counter_values(m.exception_counter.family).dom().is_empty(),
    {
        ProcessMetrics {
            operation_counter: NamedCounter::new("data_handle_operation", "Operation in data handle process"),
            exception_counter: NamedCounter::new("data_handle_exception", "How many exception case during handle data"),
        }
    }
}

/// Counts one operation `sample` on `upstream`.
pub fn operation_count(m: &mut ProcessMetrics, upstream: &str, sample: &str)
    ensures
        counter_values(final(m).operation_counter.family) == bumped(
            counter_values(old(m).operation_counter.family),
            stream_label(upstream@, sample@),
            1,
        ),
        counter_values(final(m).exception_counter.family) == counter_values(old(m).exception_counter.family),
{
    let label = new_stream_label(upstream, sample);
    m.operation_counter.family.inc(&label);
}

/// Counts one exception `sample` with message `msg` on `upstream`.
pub fn exception_count(m: &mut ProcessMetrics, upstream: &str, sample: &str, msg: &str)
    ensures
        counter_values(final(m).exception_counter.family) == bumped(
            counter_values(old(m).exception_counter.family),
            stream_with_msg_label(upstream@, sample@, msg@),
            1,
        ),
        counter_values(final(m).operation_counter.family) == counter_values(old(m).operation_counter.family),
{
    let label = new_stream_with_msg_label(upstream, sample, msg);
    m.exception_counter.family.inc(&label);
}

/// Registers the operation and exception counters under their exported names.
pub fn register(m: &ProcessMetrics, reg: &mut Registry)
    ensures
        registered(*final(reg)) == registered(*old(reg)) + seq![
            (m.operation_counter.name@, stored_help(m.operation_counter.help@), MetricKind::Counter),
            (m.exception_counter.name@, stored_help(m.exception_counter.help@), MetricKind::Counter),
        ],
{
    m.operation_counter.register(reg);
    m.exception_counter.register(reg);
}

} // verus!
