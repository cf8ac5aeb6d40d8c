use prometheus_client::encoding::text::encode;
use prometheus_client::registry::Registry;
use quote_link::metrics::dconf::{dconf_client_config_count, dconf_client_reconnect_conut, DconfMetrics};
use quote_link::metrics::general::{fatal_msg_count, info_msg_count, msg_gauge, warning_msg_count, GeneralMetrics};
use quote_link::metrics::process::{exception_count, operation_count, ProcessMetrics};
use quote_link::metrics::receive::{receive_bytes_count, receive_count, receive_status_count, ReceiveMetrics};
use quote_link::metrics::send::{send_bytes_count, send_count, send_status_count, SendMetrics};
use quote_link::metrics::state_metric::StateMetric;
use quote_link::metrics::{route_path_or_default, server_addr_or_default};

fn text(reg: &Registry) -> String {
    let mut out = String::new();
    encode(&mut out, reg).unwrap();
    out
}

#[test]
fn receive_counters_count() {
    let mut m = ReceiveMetrics::new();
    let mut reg = Registry::default();
    quote_link::metrics::receive::register(&m, &mut reg);
    receive_count(&mut m, "up", "s");
    receive_count(&mut m, "up", "s");
    receive_count(&mut m, "up", "t");
    receive_bytes_count(&mut m, "up", "s", 40);
    receive_bytes_count(&mut m, "up", "s", 2);
    receive_status_count(&mut m, "up", "ok");
    let out = text(&reg);
    assert!(out.contains("upstream_data_receive_total_total{upstream=\"up\",sample=\"s\"} 2"), "{out}");
    assert!(out.contains("upstream_data_receive_total_total{upstream=\"up\",sample=\"t\"} 1"), "{out}");
    assert!(out.contains("upstream_data_receive_bytes_total{upstream=\"up\",sample=\"s\"} 42"), "{out}");
    assert!(out.contains("upstream_data_receive_status_total{upstream=\"up\",sample=\"ok\"} 1"), "{out}");
}

#[test]
fn send_counters_count() {
    let mut m = SendMetrics::new();
    let mut reg = Registry::default();
    quote_link::metrics::send::register(&m, &mut reg);
    send_count(&mut m, "c", "x");
    send_bytes_count(&mut m, "c", "x", 7);
    send_status_count(&mut m, "c", "y");
    let out = text(&reg);
    assert!(out.contains("downstream_data_send_total_total{upstream=\"c\",sample=\"x\"} 1"), "{out}");
    assert!(out.contains("downstream_data_send_status_total{upstream=\"c\",sample=\"x\"} 7"), "{out}");
    assert!(out.contains("downstream_data_send_bytes_total{upstream=\"c\",sample=\"y\"} 1"), "{out}");
}

#[test]
fn general_and_process_counters() {
    let mut g = GeneralMetrics::new();
    let mut p = ProcessMetrics::new();
    let mut reg = Registry::default();
    quote_link::metrics::general::register(&g, &mut reg);
    quote_link::metrics::process::register(&p, &mut reg);
    info_msg_count(&mut g, "boot");
    warning_msg_count(&mut g, "slow");
    fatal_msg_count(&mut g, "dead");
    msg_gauge(&mut g, "quic-clients", 5);
    msg_gauge(&mut g, "quic-clients", -2);
    operation_count(&mut p, "u", "op");
    exception_count(&mut p, "u", "link_connection", "reconnect");
    let out = text(&reg);
    assert!(out.contains("info_msg_count_total{msg=\"boot\"} 1"), "{out}");
    assert!(out.contains("# HELP info_msg_count How many info msg.\n"), "{out}");
    assert!(out.contains("# TYPE info_msg_count counter\n"), "{out}");
    assert!(out.contains("# HELP gauge_msg_count How many gauge msg.\n"), "{out}");
    assert!(out.contains("# TYPE gauge_msg_count gauge\n"), "{out}");
    assert!(out.contains("# HELP data_handle_operation Operation in data handle process.\n"), "{out}");
    assert!(out.contains("warning_msg_count_total{msg=\"slow\"} 1"), "{out}");
    assert!(out.contains("fatal_msg_count_total{msg=\"dead\"} 1"), "{out}");
    assert!(out.contains("gauge_msg_count{msg=\"quic-clients\"} -2"), "{out}");
    assert!(out.contains("data_handle_operation_total{upstream=\"u\",sample=\"op\"} 1"), "{out}");
    assert!(out.contains(
        "data_handle_exception_total{upstream=\"u\",sample=\"link_connection\",msg=\"reconnect\"} 1"
    ), "{out}");
}

#[test]
fn dconf_counters() {
    let mut m = DconfMetrics::new();
    let mut reg = Registry::default();
    quote_link::metrics::dconf::register(&m, &mut reg);
    dconf_client_config_count(&mut m, "app", "ns", "prod", "v1", "7");
    dconf_client_reconnect_conut(&mut m, "app", "ns", "prod", "v1", "7", "lost");
    let out = text(&reg);
    assert!(out.contains(
        "dconf_client_rs_config_count_total{app_name=\"app\",namespace=\"ns\",env=\"prod\",version=\"v1\",id=\"7\",msg=\"\"} 1"
    ), "{out}");
    assert!(out.contains(
        "dconf_client_rs_reconnect_total{app_name=\"app\",namespace=\"ns\",env=\"prod\",version=\"v1\",id=\"7\",msg=\"lost\"} 1"
    ), "{out}");
}

#[test]
fn state_metric_samples() {
    let mut s = StateMetric::new("feed", "idle");
    s.state_to("connecting");
    let a = s.metric_to("connected");
    assert_eq!(a.upstream, "feed");
    assert_eq!(a.sample, "connecting_2_connected");
    let b = s.metric_to("closed");
    assert_eq!(b.sample, "connected_2_closed");
    let c = s.state_reset();
    assert_eq!(c.sample, "idle_2_idle");
    let d = s.metric_to("x");
    assert_eq!(d.sample, "idle_2_x");
}

#[test]
fn families_carry_their_exported_names() {
    let s = SendMetrics::new();
    assert_eq!(s.send_counter.name, "downstream_data_send_total");
    assert_eq!(s.send_bytes_counter.name, "downstream_data_send_status");
    assert_eq!(s.send_status_counter.name, "downstream_data_send_bytes");
    let r = ReceiveMetrics::new();
    assert_eq!(r.receive_bytes_counter.name, "upstream_data_receive_bytes");
    assert_eq!(r.receive_status_counter.help, "Status of upstream receive process");
    let g = GeneralMetrics::new();
    assert_eq!(g.msg_gauge.name, "gauge_msg_count");
}

#[test]
fn endpoint_fallbacks() {
    assert_eq!(route_path_or_default(""), "/metrics");
    assert_eq!(route_path_or_default("/m"), "/m");
    assert_eq!(server_addr_or_default(""), "0.0.0.0:9102");
    assert_eq!(server_addr_or_default("127.0.0.1:1"), "127.0.0.1:1");
}
