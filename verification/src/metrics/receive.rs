//! Counts of data received from upstream.
use vstd::prelude::*;
use prometheus_client::registry::Registry;
use crate::metrics::{registered, stored_help, MetricKind, bumped, counter_values, new_stream_label, stream_label, NamedCounter};

verus! {

/// The receive counters.
pub struct ReceiveMetrics {
    pub receive_counter: NamedCounter,
    pub receive_bytes_counter: NamedCounter,
    pub receive_status_counter: NamedCounter,
}

impl ReceiveMetrics {
    /// Empty families, each with the metric name and help text it is exported under.
    pub fn new() -> (m: Self)
        ensures
            m.receive_counter.name@ == "upstream_data_receive_total"@,
            m.receive_counter.help@ == "How many data received from upstream"@,
            counter_values(m.receive_counter.family).dom().is_empty(),
            m.receive_bytes_counter.name@ == "upstream_data_receive_bytes"@,
            m.receive_bytes_counter.help@ == "How many data received from upstream"@,
            counter_values(m.receive_bytes_counter.family).dom().is_empty(),
            m.receive_status_counter.name@ == "upstream_data_receive_status"@,
            m.receive_status_counter.help@ == "Status of upstream receive process"@,
            counter_values(m.receive_status_counter.family).dom().is_empty(),
    {
        ReceiveMetrics {
            receive_counter: NamedCounter::new("upstream_data_receive_total", "How many data received from upstream"),
            receive_bytes_counter: NamedCounter::new("upstream_data_receive_bytes", "How many data received from upstream"),
            receive_status_counter: NamedCounter::new("upstream_data_receive_status", "Status of upstream receive process"),
        }
    }
}

/// Counts one received `sample` from `upstream`.
pub fn receive_count(m: &mut ReceiveMetrics, upstream: &str, sample: &str)
    ensures
        counter_values(final(m).receive_counter.family) == bumped(
            counter_values(old(m).receive_counter.family),
            stream_label(upstream@, sample@),
            1,
        ),
        counter_values(final(m).receive_bytes_counter.family) == counter_values(old(m).receive_bytes_counter.family),
        counter_values(final(m).receive_status_counter.family) == counter_values(old(m).receive_status_counter.family),
{
    let label = new_stream_label(upstream, sample);
    m.receive_counter.family.inc(&label);
}

/// Adds `bytes_size` received bytes of `sample` from `upstream`.
pub fn receive_bytes_count(m: &mut ReceiveMetrics, upstream: &str, sample: &str, bytes_size: u64)
    ensures
        counter_values(final(m).receive_bytes_counter.family) == bumped(
            counter_values(old(m).receive_bytes_counter.family),
            stream_label(upstream@, sample@),
            bytes_size,
        ),
        counter_values(final(m).receive_counter.family) == counter_values(old(m).receive_counter.family),
        counter_values(final(m).receive_status_counter.family) == counter_values(old(m).receive_status_counter.family),
{
    let label = new_stream_label(upstream, sample);
    m.receive_bytes_counter.family.inc_by(&label, bytes_size);
}

/// Counts one receive status `sample` of `upstream`.
pub fn receive_status_count(m: &mut ReceiveMetrics, upstream: &str, sample: &str)
    ensures
        counter_values(final(m).receive_status_counter.family) == bumped(
            counter_values(old(m).receive_status_counter.family),
            stream_label(upstream@, sample@),
            1,
        ),
        counter_values(final(m).receive_counter.family) == counter_values(old(m).receive_counter.family),
        counter_values(final(m).receive_bytes_counter.family) == counter_values(old(m).receive_bytes_counter.family),
{
    let label = new_stream_label(upstream, sample);
    m.receive_status_counter.family.inc(&label);
}

/// Registers the receive counters under their exported names.
pub fn register(m: &ReceiveMetrics, reg: &mut Registry)
    ensures
        registered(*final(reg)) == registered(*old(reg)) + seq![
            (m.receive_counter.name@, stored_help(m.receive_counter.help@), MetricKind::Counter),
            (m.receive_bytes_counter.name@, stored_help(m.receive_bytes_counter.help@), MetricKind::Counter),
            (m.receive_status_counter.name@, stored_help(m.receive_status_counter.help@), MetricKind::Counter),
        ],
{
    m.receive_counter.register(reg);
    m.receive_bytes_counter.register(reg);
    m.receive_status_counter.register(reg);
}

} // verus!
