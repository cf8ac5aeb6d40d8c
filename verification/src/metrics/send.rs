//! Counts of data sent downstream.
use vstd::prelude::*;
use prometheus_client::registry::Registry;
use crate::metrics::{registered, stored_help, MetricKind, bumped, counter_values, new_stream_label, stream_label, NamedCounter};

verus! {

/// The send counters.
pub struct SendMetrics {
    pub send_counter: NamedCounter,
    pub send_bytes_counter: NamedCounter,
    pub send_status_counter: NamedCounter,
}

impl SendMetrics {
    /// Empty families, each with the metric name and help text it is exported under; the
    /// bytes counter carries the status name and the status counter the bytes name.
    pub fn new() -> (m: Self)
        ensures
            m.send_counter.name@ == "downstream_data_send_total"@,
            m.send_counter.help@ == "How many data send to downstream"@,
            counter_values(m.send_counter.family).dom().is_empty(),
            m.send_bytes_counter.name@ == "downstream_data_send_status"@,
            m.send_bytes_counter.help@ == "Status of downstream send data process"@,
            counter_values(m.send_bytes_counter.family).dom().is_empty(),
            m.send_status_counter.name@ == "downstream_data_send_bytes"@,
            m.send_status_counter.help@ == "How many data send to upstream"@,
            counter_values(m.send_status_counter.family).dom().is_empty(),
    {
        SendMetrics {
            send_counter: NamedCounter::new("downstream_data_send_total", "How many data send to downstream"),
            send_bytes_counter: NamedCounter::new("downstream_data_send_status", "Status of downstream send data process"),
            send_status_counter: NamedCounter::new("downstream_data_send_bytes", "How many data send to upstream"),
        }
    }
}

/// Counts one sent `sample` to `upstream`.
pub fn send_count(m: &mut SendMetrics, upstream: &str, sample: &str)
    ensures
        counter_values(final(m).send_counter.family) == bumped(
            counter_values(old(m).send_counter.family),
            stream_label(upstream@, sample@),
            1,
        ),
        counter_values(final(m).send_bytes_counter.family) == counter_values(old(m).send_bytes_counter.family),
        counter_values(final(m).send_status_counter.family) == counter_values(old(m).send_status_counter.family),
{
    let label = new_stream_label(upstream, sample);
    m.send_counter.family.inc(&label);
}

/// Adds `bytes_size` sent bytes of `sample` to `upstream`.
pub fn send_bytes_count(m: &mut SendMetrics, upstream: &str, sample: &str, bytes_size: u64)
    ensures
        counter_values(final(m).send_bytes_counter.family) == bumped(
            counter_values(old(m).send_bytes_counter.family),
            stream_label(upstream@, sample@),
            bytes_size,
        ),
        counter_values(final(m).send_counter.family) == counter_values(old(m).send_counter.family),
        counter_values(final(m).send_status_counter.family) == counter_values(old(m).send_status_counter.family),
{
    let label = new_stream_label(upstream, sample);
    m.send_bytes_counter.family.inc_by(&label, bytes_size);
}

/// Counts one send status `sample` of `upstream`.
pub fn send_status_count(m: &mut SendMetrics, upstream: &str, sample: &str)
    ensures
        counter_values(final(m).send_status_counter.family) == bumped(
            counter_values(old(m).send_status_counter.family),
            stream_label(upstream@, sample@),
            1,
        ),
        counter_values(final(m).send_counter.family) == counter_values(old(m).send_counter.family),
        counter_values(final(m).send_bytes_counter.family) == counter_values(old(m).send_bytes_counter.family),
{
    let label = new_stream_label(upstream, sample);
    m.send_status_counter.family.inc(&label);
}

/// Registers the send counters under their exported names (the status and bytes names are
/// given to the bytes and status counters respectively).
pub fn register(m: &SendMetrics, reg: &mut Registry)
    ensures
        registered(*final(reg)) == registered(*old(reg)) + seq![
            (m.send_counter.name@, stored_help(m.send_counter.help@), MetricKind::Counter),
            (m.send_bytes_counter.name@, stored_help(m.send_bytes_counter.help@), MetricKind::Counter),
            (m.send_status_counter.name@, stored_help(m.send_status_counter.help@), MetricKind::Counter),
        ],
{
    m.send_counter.register(reg);
    m.send_bytes_counter.register(reg);
    m.send_status_counter.register(reg);
}

} // verus!
