//! Counters and gauges keyed by label sets, and the process metrics built on them.
use vstd::prelude::*;
use prometheus_client::metrics::counter::Counter;
use prometheus_client::metrics::family::Family;
use prometheus_client::metrics::gauge::Gauge;
use prometheus_client::registry::Registry;

pub mod dconf;
pub mod general;
pub mod process;
pub mod receive;
pub mod send;
pub mod state_metric;

verus! {

#[verifier::external_type_specification]
#[verifier::external_body]
pub struct ExRegistry(Registry);

/// The kind of a registered metric, as the text exposition announces it.
#[derive(Clone, Copy, Debug, PartialEq, Eq, Structural)]
pub enum MetricKind {
    Counter,
    Gauge,
}

/// The metrics a registry holds, in the order they were registered: name, help text as
/// stored, and kind.
pub uninterp spec fn registered(reg: Registry) -> Seq<(Seq<char>, Seq<char>, MetricKind)>;

/// The help text a registry stores for `help`: `help` followed by a full stop.
pub open spec fn stored_help(help: Seq<char>) -> Seq<char> {
    help + "."@
}

/// A label set as pairs of label name and label value.
pub open spec fn label_view(labels: Vec<(String, String)>) -> Seq<(Seq<char>, Seq<char>)> {
    labels@.map_values(|p: (String, String)| (p.0@, p.1@))
}

/// A counter map after adding `v` to the counter of `key` (created at 0 when absent),
/// wrapping around like the 64-bit atomic counters do.
pub open spec fn bumped(
    values: Map<Seq<(Seq<char>, Seq<char>)>, u64>,
    key: Seq<(Seq<char>, Seq<char>)>,
    v: u64,
) -> Map<Seq<(Seq<char>, Seq<char>)>, u64> {
    let old_value: int = if values.contains_key(key) {
        values[key] as int
    } else {
        0
    };
    values.insert(key, ((old_value + v) % 0x1_0000_0000_0000_0000) as u64)
}

/// A family of 64-bit counters, one per label set. `Family` is held whole behind this struct:
/// its constructor parameter defaults to a function pointer type, which Verus cannot name.
#[verifier::external_body]
pub struct CounterFamily {
    family: Family<Vec<(String, String)>, Counter>,
}

/// A family of 64-bit signed gauges, one per label set, held like `CounterFamily`.
#[verifier::external_body]
pub struct GaugeFamily {
    family: Family<Vec<(String, String)>, Gauge>,
}

/// The current value of each counter of a family, by label set.
pub uninterp spec fn counter_values(f: CounterFamily) -> Map<Seq<(Seq<char>, Seq<char>)>, u64>;

/// The current value of each gauge of a family, by label set.
pub uninterp spec fn gauge_values(f: GaugeFamily) -> Map<Seq<(Seq<char>, Seq<char>)>, i64>;

impl CounterFamily {
    /// Calls `Family::default`: a family whose map of counters starts empty.
    #[verifier::external_body]
    pub(crate) fn new() -> (fam: CounterFamily)
        ensures
            counter_values(fam).dom().is_empty(),
    {
        CounterFamily { family: Family::default() }
    }

    /// Calls `Family::get_or_create` then `Counter::inc`: the counter of `labels` is created
    /// at 0 when absent and its atomic value is increased by one (`fetch_add`, wrapping).
    /// Label sets are equal when their names and values are equal strings, pair by pair.
    #[verifier::external_body]
    pub(crate) fn inc(&mut self, labels: &Vec<(String, String)>)
        ensures
            counter_values(*final(self)) == bumped(counter_values(*old(self)), label_view(*labels), 1),
    {
        self.family.get_or_create(labels).inc();
    }

    /// Calls `Family::get_or_create` then `Counter::inc_by`: the counter of `labels` is
    /// created at 0 when absent and its atomic value is increased by `v` (`fetch_add`, wrapping).
    #[verifier::external_body]
    pub(crate) fn inc_by(&mut self, labels: &Vec<(String, String)>, v: u64)
        ensures
            counter_values(*final(self)) == bumped(counter_values(*old(self)), label_view(*labels), v),
    {
        self.family.get_or_create(labels).inc_by(v);
    }

    /// Calls `Registry::register` with a clone of the family, which shares its counters:
    /// the registry appends a counter metric named `name` whose help is `help` with a full
    /// stop added. Which family the registered metric shares is not stated.
    #[verifier::external_body]
    pub(crate) fn register_into(&self, reg: &mut Registry, name: &str, help: &str)
        ensures
            registered(*final(reg)) == registered(*old(reg)).push(
                (name@, stored_help(help@), MetricKind::Counter),
            ),
    {
        reg.register(name, help, self.family.clone());
    }
}

impl GaugeFamily {
    /// Calls `Family::default`: a family whose map of gauges starts empty.
    #[verifier::external_body]
    pub(crate) fn new() -> (fam: GaugeFamily)
        ensures
            gauge_values(fam).dom().is_empty(),
    {
        GaugeFamily { family: Family::default() }
    }

    /// Calls `Family::get_or_create` then `Gauge::set`: the gauge of `labels` is created when
    /// absent and its value becomes `v`.
    #[verifier::external_body]
    pub(crate) fn set(&mut self, labels: &Vec<(String, String)>, v: i64)
        ensures
            gauge_values(*final(self)) == gauge_values(*old(self)).insert(label_view(*labels), v),
    {
        self.family.get_or_create(labels).set(v);
    }

    /// Calls `Registry::register` with a clone of the family, which shares its gauges:
    /// the registry appends a gauge metric named `name` whose help is `help` with a full stop
    /// added. Which family the registered metric shares is not stated.
    #[verifier::external_body]
    pub(crate) fn register_into(&self, reg: &mut Registry, name: &str, help: &str)
        ensures
            registered(*final(reg)) == registered(*old(reg)).push(
                (name@, stored_help(help@), MetricKind::Gauge),
            ),
    {
        reg.register(name, help, self.family.clone());
    }
}

/// A counter family with the metric name and help text it is exported under.
pub struct NamedCounter {
    pub name: String,
    pub help: String,
    pub family: CounterFamily,
}

impl NamedCounter {
    /// An empty counter family, to be exported as `name` with `help`.
    pub fn new(name: &str, help: &str) -> (c: Self)
        ensures
            c.name@ == name@,
            c.help@ == help@,
            counter_values(c.family).dom().is_empty(),
    {
        NamedCounter {
            name: String::from_str(name),
            help: String::from_str(help),
            family: CounterFamily::new(),
        }
    }

    /// Exports this family under its own name and help.
    pub fn register(&self, reg: &mut Registry)
        ensures
            registered(*final(reg)) == registered(*old(reg)).push(
                (self.name@, stored_help(self.help@), MetricKind::Counter),
            ),
    {
        self.family.register_into(reg, self.name.as_str(), self.help.as_str());
    }
}

/// A gauge family with the metric name and help text it is exported under.
pub struct NamedGauge {
    pub name: String,
    pub help: String,
    pub family: GaugeFamily,
}

impl NamedGauge {
    /// An empty gauge family, to be exported as `name` with `help`.
    pub fn new(name: &str, help: &str) -> (g: Self)
        ensures
            g.name@ == name@,
            g.help@ == help@,
            gauge_values(g.family).dom().is_empty(),
    {
        NamedGauge {
            name: String::from_str(name),
            help: String::from_str(help),
            family: GaugeFamily::new(),
        }
    }

    /// Exports this family under its own name and help.
    pub fn register(&self, reg: &mut Registry)
        ensures
            registered(*final(reg)) == registered(*old(reg)).push(
                (self.name@, stored_help(self.help@), MetricKind::Gauge),
            ),
    {
        self.family.register_into(reg, self.name.as_str(), self.help.as_str());
    }
}

/// Where the metrics endpoint listens when no address is configured.
pub const DEFAULT_METRIC_SERVER_AT: &'static str = "0.0.0.0:9102";

/// The route of the metrics endpoint when no path is configured.
pub const DEFAULT_METRIC_ROUTE_PATH: &'static str = "/metrics";

/// The route the metrics endpoint serves: `path`, or the default route when `path` is empty.
pub fn route_path_or_default<'a>(path: &'a str) -> (r: &'a str)
    ensures
        r@ == if path@.len() == 0 {
            DEFAULT_METRIC_ROUTE_PATH@
        } else {
            path@
        },
{
    if path.is_empty() {
        DEFAULT_METRIC_ROUTE_PATH
    } else {
        path
    }
}

/// The address the metrics endpoint listens at: `addr`, or the default address when `addr`
/// is empty.
pub fn server_addr_or_default<'a>(addr: &'a str) -> (r: &'a str)
    ensures
        r@ == if addr@.len() == 0 {
            DEFAULT_METRIC_SERVER_AT@
        } else {
            addr@
        },
{
    if addr.is_empty() {
        DEFAULT_METRIC_SERVER_AT
    } else {
        addr
    }
}

/// The label set `{msg}`.
pub open spec fn log_label(msg: Seq<char>) -> Seq<(Seq<char>, Seq<char>)> {
    seq![("msg"@, msg)]
}

/// The label set `{upstream, sample}`.
pub open spec fn stream_label(upstream: Seq<char>, sample: Seq<char>) -> Seq<(Seq<char>, Seq<char>)> {
    seq![("upstream"@, upstream), ("sample"@, sample)]
}

/// The label set `{upstream, sample, msg}`.
pub open spec fn stream_with_msg_label(upstream: Seq<char>, sample: Seq<char>, msg: Seq<char>) -> Seq<
    (Seq<char>, Seq<char>),
> {
    seq![("upstream"@, upstream), ("sample"@, sample), ("msg"@, msg)]
}

/// Builds the label set `{msg}`.
pub fn new_log_label(msg: &str) -> (l: Vec<(String, String)>)
    ensures
        label_view(l) == log_label(msg@),
{
    let l = vec![(String::from_str("msg"), String::from_str(msg))];
    assert(label_view(l) =~= log_label(msg@));
    l
}

/// Builds the label set `{upstream, sample}`.
pub fn new_stream_label(upstream: &str, sample: &str) -> (l: Vec<(String, String)>)
    ensures
        label_view(l) == stream_label(upstream@, sample@),
{
    let l = vec![
        (String::from_str("upstream"), String::from_str(upstream)),
        (String::from_str("sample"), String::from_str(sample)),
    ];
    assert(label_view(l) =~= stream_label(upstream@, sample@));
    l
}

/// Builds the label set `{upstream, sample, msg}`.
pub fn new_stream_with_msg_label(upstream: &str, sample: &str, msg: &str) -> (l: Vec<(String, String)>)
    ensures
        label_view(l) == stream_with_msg_label(upstream@, sample@, msg@),
{
    let l = vec![
        (String::from_str("upstream"), String::from_str(upstream)),
        (String::from_str("sample"), String::from_str(sample)),
        (String::from_str("msg"), String::from_str(msg)),
    ];
    assert(label_view(l) =~= stream_with_msg_label(upstream@, sample@, msg@));
    l
}

/// Counting twice adds two: a counter bumped by `a` then by `b` holds what one bump by
/// `a + b` gives (modulo 2^64).
pub proof fn law_bumps_add(
    values: Map<Seq<(Seq<char>, Seq<char>)>, u64>,
    key: Seq<(Seq<char>, Seq<char>)>,
    a: u64,
    b: u64,
)
    ensures
        bumped(bumped(values, key, a), key, b)[key] as int == ((if values.contains_key(key) {
            values[key] as int
        } else {
            0
        }) + a + b) % 0x1_0000_0000_0000_0000,
        bumped(bumped(values, key, a), key, b).dom() == values.dom().insert(key),
{
    let old_value: int = if values.contains_key(key) {
        values[key] as int
    } else {
        0
    };
    let m: int = 0x1_0000_0000_0000_0000;
    vstd::arithmetic::div_mod::lemma_add_mod_noop(old_value + a, b as int, m);
    vstd::arithmetic::div_mod::lemma_small_mod(b as nat, m as nat);
    vstd::arithmetic::div_mod::lemma_mod_bound(old_value + a, m);
    vstd::arithmetic::div_mod::lemma_small_mod(((old_value + a) % m) as nat, m as nat);
    assert((((old_value + a) % m) + b) % m == (old_value + a + b) % m);
    assert(bumped(bumped(values, key, a), key, b).dom() =~= values.dom().insert(key));
}

/// Counting one label set leaves every other label set's counter as it was.
pub proof fn law_bump_other_keys(
    values: Map<Seq<(Seq<char>, Seq<char>)>, u64>,
    key: Seq<(Seq<char>, Seq<char>)>,
    other: Seq<(Seq<char>, Seq<char>)>,
    v: u64,
)
    requires
        other != key,
    ensures
        bumped(values, key, v).contains_key(other) == values.contains_key(other),
        values.contains_key(other) ==> bumped(values, key, v)[other] == values[other],
{
}

} // verus!
