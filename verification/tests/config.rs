use std::time::Duration;

use quote_link::config::{
    default_auth_timeout, default_failover_threshold, default_handshake_timeout,
    default_heartbeat_interval, default_heartbeat_timeout, default_idle_interval,
    default_max_stream_read_size, default_max_stream_send_size, default_max_udp_read_size,
    default_max_udp_write_size, default_peer_conn_init_size, default_process_chan_size,
    default_recv_chan_size, default_request_timeout, default_response_timeout,
    default_retry_interval, default_send_chan_size, default_signal_chan_size, BufferConfig,
    ChannelConfig, HealthyConfig, LinkClientConfig, LinkServerConfig, MultiAddrMode, QuicheConfig,
    TimeoutConfig, Transport,
};

#[test]
fn duration_defaults() {
    assert_eq!(default_heartbeat_interval(), Duration::from_millis(500));
    assert_eq!(default_heartbeat_timeout(), Duration::from_secs(3));
    assert_eq!(default_auth_timeout(), Duration::from_secs(10));
    assert_eq!(default_retry_interval(), Duration::from_secs(3));
    assert_eq!(default_request_timeout(), Duration::from_secs(3));
    assert_eq!(default_response_timeout(), Duration::from_secs(5));
    assert_eq!(default_idle_interval(), Duration::from_millis(10000));
    assert_eq!(default_handshake_timeout(), Duration::from_secs(3));
}

#[test]
fn size_defaults() {
    assert_eq!(default_failover_threshold(), 3);
    assert_eq!(default_max_udp_read_size(), 65535);
    assert_eq!(default_max_udp_write_size(), 65535);
    assert_eq!(default_max_stream_read_size(), (1 << 23) + 8);
    assert_eq!(default_max_stream_send_size(), (1 << 23) + 8);
    assert_eq!(default_peer_conn_init_size(), 64);
    assert_eq!(default_recv_chan_size(), 8192);
    assert_eq!(default_send_chan_size(), 8192);
    assert_eq!(default_signal_chan_size(), 1024);
    assert_eq!(default_process_chan_size(), 8192);
}

#[test]
fn struct_defaults() {
    let h = HealthyConfig::default();
    assert_eq!(h.heartbeat_interval, Duration::from_millis(500));
    assert_eq!(h.retry_times, 0);
    let b = BufferConfig::default();
    assert_eq!(b.max_stream_send_size, 8_388_616);
    let c = ChannelConfig::default();
    assert_eq!(c.signal_chan_size, 1024);
    let t = TimeoutConfig::default();
    assert_eq!(t.response, Duration::from_secs(5));
    let q = QuicheConfig::default();
    assert_eq!(q.application_protos, Some(vec!["quic-echo-example".to_string()]));
    assert_eq!(q.max_send_udp_payload_size, Some(1200));
    assert_eq!(q.initial_max_data, Some(64 << 20));
    assert_eq!(q.active_connection_id_limit, Some(8));
    assert_eq!(MultiAddrMode::default(), MultiAddrMode::OnlyOne);
}

#[test]
fn transport_keeps_link_settings() {
    let mut client = LinkClientConfig::default();
    client.buffer_config.max_udp_read_size = 1500;
    client.timeout_config.idle_interval = Duration::from_millis(200);
    let t = Transport::from_client_config(client);
    assert_eq!(t.buffer_config.max_udp_read_size, 1500);
    assert_eq!(t.timeout_config.idle_interval, Duration::from_millis(200));
    let mut server = LinkServerConfig::default();
    server.channel_config.send_chan_size = 3;
    let t = Transport::from_server_config(server);
    assert_eq!(t.channel_config.send_chan_size, 3);
    assert_eq!(t.quiche_config.max_ack_delay, Some(25));
}
