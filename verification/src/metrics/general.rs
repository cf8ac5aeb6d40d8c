//! Counts of logged messages by level, and gauges of named quantities.
use vstd::prelude::*;
use prometheus_client::registry::Registry;
use crate::metrics::{registered, stored_help, MetricKind, bumped, counter_values, gauge_values, log_label, new_log_label, NamedCounter, NamedGauge};

verus! {

/// The message counters and gauges.
pub struct GeneralMetrics {
    pub info_msg_counter: NamedCounter,
    pub warning_msg_counter: NamedCounter,
    pub fatal_msg_counter: NamedCounter,
    pub msg_gauge: NamedGauge,
}

impl GeneralMetrics {
    /// Empty families, each with the metric name and help text it is exported under.
    pub fn new() -> (m: Self)
        ensures
            m.info_msg_counter.name@ == "info_msg_count"@,
            m.info_msg_counter.help@ == "How many info msg"@,
            counter_values(m.info_msg_counter.family).dom().is_empty(),
            m.warning_msg_counter.name@ == "warning_msg_count"@,
            m.warning_msg_counter.help@ == "How many warning msg"@,
            counter_values(m.warning_msg_counter.family).dom().is_empty(),
            m.fatal_msg_counter.name@ == "fatal_msg_count"@,
            m.fatal_msg_counter.help@ == "How many fatal msg"@,
            counter_values(m.fatal_msg_counter.family).dom().is_empty(),
            m.msg_gauge.name@ == "gauge_msg_count"@,
            m.msg_gauge.help@ == "How many gauge msg"@,
            gauge_values(m.msg_gauge.family).dom().is_empty(),
    {
        GeneralMetrics {
            info_msg_counter: NamedCounter::new("info_msg_count", "How many info msg"),
            warning_msg_counter: NamedCounter::new("warning_msg_count", "How many warning msg"),
            fatal_msg_counter: NamedCounter::new("fatal_msg_count", "How many fatal msg"),
            msg_gauge: NamedGauge::new("gauge_msg_count", "How many gauge msg"),
        }
    }
}

/// Counts one info message `msg`.
pub fn info_msg_count(m: &mut GeneralMetrics, msg: &str)
    ensures
        counter_values(final(m).info_msg_counter.family) == bumped(
            counter_values(old(m).info_msg_counter.family),
            log_label(msg@),
            1,
        ),
        counter_values(final(m).warning_msg_counter.family) == counter_values(old(m).warning_msg_counter.family),
        counter_values(final(m).fatal_msg_counter.family) == counter_values(old(m).fatal_msg_counter.family),
        gauge_values(final(m).msg_gauge.family) == gauge_values(old(m).msg_gauge.family),
{
    let label = new_log_label(msg);
    m.info_msg_counter.family.inc(&label);
}

/// Counts one warning message `msg`.
pub fn warning_msg_count(m: &mut GeneralMetrics, msg: &str)
    ensures
        counter_values(final(m).warning_msg_counter.family) == bumped(
            counter_values(old(m).warning_msg_counter.family),
            log_label(msg@),
            1,
        ),
        counter_values(final(m).info_msg_counter.family) == counter_values(old(m).info_msg_counter.family),
        counter_values(final(m).fatal_msg_counter.family) == counter_values(old(m).fatal_msg_counter.family),
        gauge_values(final(m).msg_gauge.family) == gauge_values(old(m).msg_gauge.family),
{
    let label = new_log_label(msg);
    m.warning_msg_counter.family.inc(&label);
}

/// Counts one fatal message `msg`.
pub fn fatal_msg_count(m: &mut GeneralMetrics, msg: &str)
    ensures
        counter_values(final(m).fatal_msg_counter.family) == bumped(
            counter_values(old(m).fatal_msg_counter.family),
            log_label(msg@),
            1,
        ),
        counter_values(final(m).info_msg_counter.family) == counter_values(old(m).info_msg_counter.family),
        counter_values(final(m).warning_msg_counter.family) == counter_values(old(m).warning_msg_counter.family),
        gauge_values(final(m).msg_gauge.family) == gauge_values(old(m).msg_gauge.family),
{
    let label = new_log_label(msg);
    m.fatal_msg_counter.family.inc(&label);
}

/// Sets the gauge of `msg` to `set_to`.
pub fn msg_gauge(m: &mut GeneralMetrics, msg: &str, set_to: i64)
    ensures
        gauge_values(final(m).msg_gauge.family) == gauge_values(old(m).msg_gauge.family).insert(
            log_label(msg@),
            set_to,
        ),
        counter_values(final(m).info_msg_counter.family) == counter_values(old(m).info_msg_counter.family),
        counter_values(final(m).warning_msg_counter.family) == counter_values(old(m).warning_msg_counter.family),
        counter_values(final(m).fatal_msg_counter.family) == counter_values(old(m).fatal_msg_counter.family),
{
    let label = new_log_label(msg);
    m.msg_gauge.family.set(&label, set_to);
}

/// Registers the message counters and gauges under their exported names.
pub fn register(m: &GeneralMetrics, reg: &mut Registry)
    ensures
        registered(*final(reg)) == registered(*old(reg)) + seq![
            (m.info_msg_counter.name@, stored_help(m.info_msg_counter.help@), MetricKind::Counter),
            (m.warning_msg_counter.name@, stored_help(m.warning_msg_counter.help@), MetricKind::Counter),
            (m.fatal_msg_counter.name@, stored_help(m.fatal_msg_counter.help@), MetricKind::Counter),
            (m.msg_gauge.name@, stored_help(m.msg_gauge.help@), MetricKind::Gauge),
        ],
{
    m.info_msg_counter.register(reg);
    m.warning_msg_counter.register(reg);
    m.fatal_msg_counter.register(reg);
    m.msg_gauge.register(reg);
}

} // verus!
