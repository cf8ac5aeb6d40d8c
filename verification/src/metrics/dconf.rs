//! Counts of configuration-client events.
use vstd::prelude::*;
use prometheus_client::registry::Registry;
use crate::metrics::{registered, stored_help, MetricKind, bumped, counter_values, label_view, NamedCounter};

verus! {

/// The label set `{app_name, namespace, env, version, id, msg}`.
pub open spec fn dconf_label(
    app_name: Seq<char>,
    namespace: Seq<char>,
    env: Seq<char>,
    version: Seq<char>,
    id: Seq<char>,
    msg: Seq<char>,
) -> Seq<(Seq<char>, Seq<char>)> {
    seq![
        ("app_name"@, app_name),
        ("namespace"@, namespace),
        ("env"@, env),
        ("version"@, version),
        ("id"@, id),
        ("msg"@, msg),
    ]
}

/// Builds the label set `{app_name, namespace, env, version, id, msg}`.
pub fn new_dconf_label(
    app_name: &str,
    namespace: &str,
    env: &str,
    version: &str,
    id: &str,
    msg: &str,
) -> (l: Vec<(String, String)>)
    ensures
        label_view(l) == dconf_label(app_name@, namespace@, env@, version@, id@, msg@),
{
    let l = vec![
        (String::from_str("app_name"), String::from_str(app_name)),
        (String::from_str("namespace"), String::from_str(namespace)),
        (String::from_str("env"), String::from_str(env)),
        (String::from_str("version"), String::from_str(version)),
        (String::from_str("id"), String::from_str(id)),
        (String::from_str("msg"), String::from_str(msg)),
    ];
    assert(label_view(l) =~= dconf_label(app_name@, namespace@, env@, version@, id@, msg@));
    l
}

/// The configuration and reconnect counters.
pub struct DconfMetrics {
    pub config_counter: NamedCounter,
    pub reconnect_counter: NamedCounter,
}

impl DconfMetrics {
    /// Empty families, each with the metric name and help text it is exported under.
    pub fn new() -> (m: Self)
        ensures
            m.config_counter.name@ == "dconf_client_rs_config_count"@,
            m.config_counter.help@ == "information about client current configuration"@,
            counter_values(m.config_counter.family).dom().is_empty(),
            m.reconnect_counter.name@ == "dconf_client_rs_reconnect"@,
            m.reconnect_counter.help@ == "how many times dconf client reconnect occur"@,
            counter_values(m.reconnect_counter.family).dom().is_empty(),
    {
        DconfMetrics {
            config_counter: NamedCounter::new("dconf_client_rs_config_count", "information about client current configuration"),
            reconnect_counter: NamedCounter::new("dconf_client_rs_reconnect", "how many times dconf client reconnect occur"),
        }
    }
}

/// Counts one configuration seen by a client; the message label is empty.
pub fn dconf_client_config_count(
    m: &mut DconfMetrics,
    app_name: &str,
    namespace: &str,
    env: &str,
    version: &str,
    id: &str,
)
    ensures
        counter_values(final(m).config_counter.family) == bumped(
            counter_values(old(m).config_counter.family),
            dconf_label(app_name@, namespace@, env@, version@, id@, Seq::<char>::empty()),
            1,
        ),
        counter_values(final(m).reconnect_counter.family) == counter_values(old(m).reconnect_counter.family),
{
    let empty = "";
    proof {
        reveal_strlit("");
        assert(empty@ =~= Seq::<char>::empty());
    }
    let label = new_dconf_label(app_name, namespace, env, version, id, empty);
    m.config_counter.family.inc(&label);
}

/// Counts one reconnect of a client, with its message.
pub fn dconf_client_reconnect_conut(
    m: &mut DconfMetrics,
    app_name: &str,
    namespace: &str,
    env: &str,
    version: &str,
    id: &str,
    msg: &str,
)
    ensures
        counter_values(final(m).reconnect_counter.family) == bumped(
            counter_values(old(m).reconnect_counter.family),
            dconf_label(app_name@, namespace@, env@, version@, id@, msg@),
            1,
        ),
        counter_values(final(m).config_counter.family) == counter_values(old(m).config_counter.family),
{
    let label = new_dconf_label(app_name, namespace, env, version, id, msg);
    m.reconnect_counter.family.inc(&label);
}

/// Registers the configuration-client counters under their exported names.
pub fn register(m: &DconfMetrics, reg: &mut Registry)
    ensures
        registered(*final(reg)) == registered(*old(reg)) + seq![
            (m.config_counter.name@, stored_help(m.config_counter.help@), MetricKind::Counter),
            (m.reconnect_counter.name@, stored_help(m.reconnect_counter.help@), MetricKind::Counter),
        ],
{
    m.config_counter.register(reg);
    m.reconnect_counter.register(reg);
}

} // verus!
