//! Configuration of link clients and servers and its defaults.
use vstd::prelude::*;
use std::time::Duration;
use crate::clock::{duration_from_millis, duration_from_secs, duration_nanos};
use crate::packets::Command;

verus! {

/// Largest packet the stream buffers are sized for: an 8 MiB body plus an 8-byte header.
pub const DEFAULT_MAX_PACKET_SIZE: usize = 8_388_616;

/// Stream flow-control window, 64 MiB.
pub const DEFAULT_MAX_STREAM_WINDOW: u64 = 67_108_864;

/// Connection flow-control window, 64 MiB.
pub const DEFAULT_MAX_CONNECTION_WINDOW: u64 = 67_108_864;

/// Idle timeout of a connection, in milliseconds.
pub const DEFAULT_MAX_IDLE_TIMEOUT: u64 = 10000;

/// Initial data limits, 64 MiB.
pub const DEFAULT_MAX_DATA_BUF_SIZE: u64 = 67_108_864;

/// Initial number of streams allowed.
pub const DEFAULT_MAX_STREAM_CONN: u64 = 100;

/// Largest UDP datagram.
pub const DEFAULT_MAX_UDP_PACKET_SIZE: usize = 65_535;

/// Active connection ids a link may hold.
pub const DEFAULT_ACTIVE_CONNECTION_ID_LIMIT: u64 = 8;

/// Largest acknowledgement delay, in milliseconds.
pub const DEFAULT_MAX_ACK_DELAY: u64 = 25;

/// Largest UDP payload sent, below the usual path MTU.
pub const DEFAULT_MAX_SEND_UDP_PAYLOAD_SIZE: usize = 1200;

/// Failures of the master address before switching to the backup one.
pub fn default_failover_threshold() -> (r: u32)
    ensures
        r == 3,
{
    3
}

/// 500 ms.
pub fn default_heartbeat_interval() -> (d: Duration)
    ensures
        duration_nanos(d) == 500 * 1_000_000,
{
    duration_from_millis(500)
}

/// 3 s.
pub fn default_heartbeat_timeout() -> (d: Duration)
    ensures
        duration_nanos(d) == 3 * 1_000_000_000,
{
    duration_from_secs(3)
}

/// 10 s.
pub fn default_auth_timeout() -> (d: Duration)
    ensures
        duration_nanos(d) == 10 * 1_000_000_000,
{
    duration_from_secs(10)
}

/// 3 s.
pub fn default_retry_interval() -> (d: Duration)
    ensures
        duration_nanos(d) == 3 * 1_000_000_000,
{
    duration_from_secs(3)
}

/// One UDP datagram.
pub fn default_max_udp_read_size() -> (r: usize)
    ensures
        r == DEFAULT_MAX_UDP_PACKET_SIZE,
{
    DEFAULT_MAX_UDP_PACKET_SIZE
}

/// One UDP datagram.
pub fn default_max_udp_write_size() -> (r: usize)
    ensures
        r == DEFAULT_MAX_UDP_PACKET_SIZE,
{
    DEFAULT_MAX_UDP_PACKET_SIZE
}

/// One largest packet.
pub fn default_max_stream_read_size() -> (r: usize)
    ensures
        r == DEFAULT_MAX_PACKET_SIZE,
{
    DEFAULT_MAX_PACKET_SIZE
}

/// One largest packet.
pub fn default_max_stream_send_size() -> (r: usize)
    ensures
        r == DEFAULT_MAX_PACKET_SIZE,
{
    DEFAULT_MAX_PACKET_SIZE
}

/// 64 peer connections.
pub fn default_peer_conn_init_size() -> (r: usize)
    ensures
        r == 64,
{
    64
}

/// 8192 entries.
pub fn default_recv_chan_size() -> (r: usize)
    ensures
        r == 8192,
{
    8192
}

/// 8192 entries.
pub fn default_send_chan_size() -> (r: usize)
    ensures
        r == 8192,
{
    8192
}

/// 1024 entries.
pub fn default_signal_chan_size() -> (r: usize)
    ensures
        r == 1024,
{
    1024
}

/// 8192 entries.
pub fn default_process_chan_size() -> (r: usize)
    ensures
        r == 8192,
{
    8192
}

/// 3 s.
pub fn default_request_timeout() -> (d: Duration)
    ensures
        duration_nanos(d) == 3 * 1_000_000_000,
{
    duration_from_secs(3)
}

/// 5 s.
pub fn default_response_timeout() -> (d: Duration)
    ensures
        duration_nanos(d) == 5 * 1_000_000_000,
{
    duration_from_secs(5)
}

/// The connection idle timeout, 10 000 ms.
pub fn default_idle_interval() -> (d: Duration)
    ensures
        duration_nanos(d) == DEFAULT_MAX_IDLE_TIMEOUT * 1_000_000,
{
    duration_from_millis(DEFAULT_MAX_IDLE_TIMEOUT)
}

/// 3 s.
pub fn default_handshake_timeout() -> (d: Duration)
    ensures
        duration_nanos(d) == 3 * 1_000_000_000,
{
    duration_from_secs(3)
}

/// Liveness settings of a link. `retry_times` 0 means reconnecting without limit.
#[derive(Clone, Copy, Debug)]
pub struct HealthyConfig {
    pub heartbeat_interval: Duration,
    pub heartbeat_timeout: Duration,
    pub auth_timeout: Duration,
    pub retry_times: u32,
    pub retry_interval: Duration,
}

impl Default for HealthyConfig {
    fn default() -> (r: Self)
        ensures
            duration_nanos(r.heartbeat_interval) == 500 * 1_000_000,
            duration_nanos(r.heartbeat_timeout) == 3 * 1_000_000_000,
            duration_nanos(r.auth_timeout) == 10 * 1_000_000_000,
            r.retry_times == 0,
            duration_nanos(r.retry_interval) == 3 * 1_000_000_000,
    {
        HealthyConfig {
            heartbeat_interval: default_heartbeat_interval(),
            heartbeat_timeout: default_heartbeat_timeout(),
            auth_timeout: default_auth_timeout(),
            retry_times: 0,
            retry_interval: default_retry_interval(),
        }
    }
}

/// Backup address used after `failover_threshold` failures of the master address.
#[derive(Clone, Debug)]
pub struct BackupConfig {
    pub addr: String,
    pub failover_threshold: u32,
}

/// One subscription sent after authentication.
#[derive(Clone, Debug)]
pub struct Subscribe {
    pub cmd: Command,
    pub sub_all: bool,
    pub span_index: i64,
}

/// How several resolved addresses are used.
#[derive(Clone, Copy, Debug, PartialEq, Eq, Structural)]
pub enum MultiAddrMode {
    /// Use a single one of the resolved addresses.
    OnlyOne,
    ColdBackup,
    HotBackup,
}

impl Default for MultiAddrMode {
    fn default() -> (r: Self)
        ensures
            r == MultiAddrMode::OnlyOne,
    {
        MultiAddrMode::OnlyOne
    }
}

/// QUIC transport settings; `None` leaves the transport's own default.
#[derive(Clone, Debug)]
pub struct QuicheConfig {
    pub application_protos: Option<Vec<String>>,
    pub enable_pacing: Option<bool>,
    pub discover_pmtu: Option<bool>,
    pub enable_early_data: Option<bool>,
    pub verify_peer: Option<bool>,
    pub disable_active_migration: Option<bool>,
    pub max_stream_window: Option<u64>,
    pub max_connection_window: Option<u64>,
    pub max_idle_timeout: Option<u64>,
    pub max_recv_udp_payload_size: Option<usize>,
    pub max_send_udp_payload_size: Option<usize>,
    pub initial_max_data: Option<u64>,
    pub initial_max_stream_data_uni: Option<u64>,
    pub initial_max_stream_data_bidi_local: Option<u64>,
    pub initial_max_stream_data_bidi_remote: Option<u64>,
    pub initial_max_streams_bidi: Option<u64>,
    pub initial_max_streams_uni: Option<u64>,
    pub active_connection_id_limit: Option<u64>,
    pub max_ack_delay: Option<u64>,
}

impl Default for QuicheConfig {
    fn default() -> (r: Self)
        ensures
            r.application_protos matches Some(protos) && protos@.len() == 1 && protos@[0]@
                == "quic-echo-example"@,
            r.enable_pacing == Some(true),
            r.discover_pmtu == Some(false),
            r.enable_early_data == Some(false),
            r.verify_peer == Some(false),
            r.disable_active_migration == Some(true),
            r.max_stream_window == Some(DEFAULT_MAX_STREAM_WINDOW),
            r.max_connection_window == Some(DEFAULT_MAX_CONNECTION_WINDOW),
            r.max_idle_timeout == Some(DEFAULT_MAX_IDLE_TIMEOUT),
            r.max_recv_udp_payload_size == Some(DEFAULT_MAX_UDP_PACKET_SIZE),
            r.max_send_udp_payload_size == Some(DEFAULT_MAX_SEND_UDP_PAYLOAD_SIZE),
            r.initial_max_data == Some(DEFAULT_MAX_DATA_BUF_SIZE),
            r.initial_max_stream_data_uni == Some(DEFAULT_MAX_DATA_BUF_SIZE),
            r.initial_max_stream_data_bidi_local == Some(DEFAULT_MAX_DATA_BUF_SIZE),
            r.initial_max_stream_data_bidi_remote == Some(DEFAULT_MAX_DATA_BUF_SIZE),
            r.initial_max_streams_bidi == Some(DEFAULT_MAX_STREAM_CONN),
            r.initial_max_streams_uni == Some(DEFAULT_MAX_STREAM_CONN),
            r.active_connection_id_limit == Some(DEFAULT_ACTIVE_CONNECTION_ID_LIMIT),
            r.max_ack_delay == Some(DEFAULT_MAX_ACK_DELAY),
    {
        let mut protos: Vec<String> = Vec::new();
        protos.push(String::from_str("quic-echo-example"));
        QuicheConfig {
            application_protos: Some(protos),
            enable_pacing: Some(true),
            discover_pmtu: Some(false),
            enable_early_data: Some(false),
            verify_peer: Some(false),
            disable_active_migration: Some(true),
            max_stream_window: Some(DEFAULT_MAX_STREAM_WINDOW),
            max_connection_window: Some(DEFAULT_MAX_CONNECTION_WINDOW),
            max_idle_timeout: Some(DEFAULT_MAX_IDLE_TIMEOUT),
            max_recv_udp_payload_size: Some(DEFAULT_MAX_UDP_PACKET_SIZE),
            max_send_udp_payload_size: Some(DEFAULT_MAX_SEND_UDP_PAYLOAD_SIZE),
            initial_max_data: Some(DEFAULT_MAX_DATA_BUF_SIZE),
            initial_max_stream_data_uni: Some(DEFAULT_MAX_DATA_BUF_SIZE),
            initial_max_stream_data_bidi_local: Some(DEFAULT_MAX_DATA_BUF_SIZE),
            initial_max_stream_data_bidi_remote: Some(DEFAULT_MAX_DATA_BUF_SIZE),
            initial_max_streams_bidi: Some(DEFAULT_MAX_STREAM_CONN),
            initial_max_streams_uni: Some(DEFAULT_MAX_STREAM_CONN),
            active_connection_id_limit: Some(DEFAULT_ACTIVE_CONNECTION_ID_LIMIT),
            max_ack_delay: Some(DEFAULT_MAX_ACK_DELAY),
        }
    }
}

/// Buffer sizes of a link.
#[derive(Clone, Copy, Debug)]
pub struct BufferConfig {
    /// UDP datagrams read.
    pub max_udp_read_size: usize,
    /// UDP datagrams written.
    pub max_udp_write_size: usize,
    /// Stream bytes read from the peer.
    pub max_stream_read_size: usize,
    /// Stream bytes waiting to be sent to the peer.
    pub max_stream_send_size: usize,
    /// Initial room for peer connections.
    pub peer_conn_init_size: usize,
}

impl Default for BufferConfig {
    fn default() -> (r: Self)
        ensures
            r.max_udp_read_size == DEFAULT_MAX_UDP_PACKET_SIZE,
            r.max_udp_write_size == DEFAULT_MAX_UDP_PACKET_SIZE,
            r.max_stream_read_size == DEFAULT_MAX_PACKET_SIZE,
            r.max_stream_send_size == DEFAULT_MAX_PACKET_SIZE,
            r.peer_conn_init_size == 64,
    {
        BufferConfig {
            max_udp_read_size: default_max_udp_read_size(),
            max_udp_write_size: default_max_udp_write_size(),
            max_stream_read_size: default_max_stream_read_size(),
            max_stream_send_size: default_max_stream_send_size(),
            peer_conn_init_size: default_peer_conn_init_size(),
        }
    }
}

/// Channel capacities of a link.
#[derive(Clone, Copy, Debug)]
pub struct ChannelConfig {
    /// Received data.
    pub recv_chan_size: usize,
    /// Data to send.
    pub send_chan_size: usize,
    /// Connection state signals.
    pub signal_chan_size: usize,
    /// Data handed to the consumer.
    pub process_chan_size: usize,
}

impl Default for ChannelConfig {
    fn default() -> (r: Self)
        ensures
            r.recv_chan_size == 8192,
            r.send_chan_size == 8192,
            r.signal_chan_size == 1024,
            r.process_chan_size == 8192,
    {
        ChannelConfig {
            recv_chan_size: default_recv_chan_size(),
            send_chan_size: default_send_chan_size(),
            signal_chan_size: default_signal_chan_size(),
            process_chan_size: default_process_chan_size(),
        }
    }
}

/// Timeouts of a link.
#[derive(Clone, Copy, Debug)]
pub struct TimeoutConfig {
    pub request: Duration,
    pub response: Duration,
    pub idle_interval: Duration,
    pub handshake_timeout: Duration,
}

impl Default for TimeoutConfig {
    fn default() -> (r: Self)
        ensures
            duration_nanos(r.request) == 3 * 1_000_000_000,
            duration_nanos(r.response) == 5 * 1_000_000_000,
            duration_nanos(r.idle_interval) == DEFAULT_MAX_IDLE_TIMEOUT * 1_000_000,
            duration_nanos(r.handshake_timeout) == 3 * 1_000_000_000,
    {
        TimeoutConfig {
            request: default_request_timeout(),
            response: default_response_timeout(),
            idle_interval: default_idle_interval(),
            handshake_timeout: default_handshake_timeout(),
        }
    }
}

/// Settings of a link client.
#[derive(Clone, Debug)]
pub struct LinkClientConfig {
    pub addr: String,
    pub username: String,
    pub password: String,
    pub client_name: String,
    pub subscribes: Vec<Subscribe>,
    pub backup_config: Option<BackupConfig>,
    pub healthy_config: HealthyConfig,
    pub channel_config: ChannelConfig,
    pub buffer_config: BufferConfig,
    pub quiche_config: QuicheConfig,
    pub timeout_config: TimeoutConfig,
}

impl Default for LinkClientConfig {
    fn default() -> (r: Self)
        ensures
            r.addr@ == Seq::<char>::empty(),
            r.username@ == Seq::<char>::empty(),
            r.password@ == Seq::<char>::empty(),
            r.client_name@ == Seq::<char>::empty(),
            r.subscribes@.len() == 0,
            r.backup_config is None,
            r.healthy_config.retry_times == 0,
            duration_nanos(r.healthy_config.heartbeat_interval) == 500 * 1_000_000,
            duration_nanos(r.healthy_config.heartbeat_timeout) == 3 * 1_000_000_000,
            duration_nanos(r.healthy_config.auth_timeout) == 10 * 1_000_000_000,
            duration_nanos(r.healthy_config.retry_interval) == 3 * 1_000_000_000,
            r.channel_config.recv_chan_size == 8192,
            r.channel_config.send_chan_size == 8192,
            r.channel_config.signal_chan_size == 1024,
            r.channel_config.process_chan_size == 8192,
            r.buffer_config.max_udp_read_size == DEFAULT_MAX_UDP_PACKET_SIZE,
            r.buffer_config.max_udp_write_size == DEFAULT_MAX_UDP_PACKET_SIZE,
            r.buffer_config.max_stream_read_size == DEFAULT_MAX_PACKET_SIZE,
            r.buffer_config.max_stream_send_size == DEFAULT_MAX_PACKET_SIZE,
            r.buffer_config.peer_conn_init_size == 64,
            r.quiche_config.max_idle_timeout == Some(DEFAULT_MAX_IDLE_TIMEOUT),
            duration_nanos(r.timeout_config.request) == 3 * 1_000_000_000,
            duration_nanos(r.timeout_config.response) == 5 * 1_000_000_000,
            duration_nanos(r.timeout_config.idle_interval) == DEFAULT_MAX_IDLE_TIMEOUT * 1_000_000,
            duration_nanos(r.timeout_config.handshake_timeout) == 3 * 1_000_000_000,
    {
        LinkClientConfig {
            addr: String::new(),
            username: String::new(),
            password: String::new(),
            client_name: String::new(),
            subscribes: Vec::new(),
            backup_config: None,
            healthy_config: HealthyConfig::default(),
            channel_config: ChannelConfig::default(),
            buffer_config: BufferConfig::default(),
            quiche_config: QuicheConfig::default(),
            timeout_config: TimeoutConfig::default(),
        }
    }
}

/// Settings of a link server.
#[derive(Clone, Debug)]
pub struct LinkServerConfig {
    pub listen_addr: String,
    pub healthy_config: HealthyConfig,
    pub channel_config: ChannelConfig,
    pub buffer_config: BufferConfig,
    pub quiche_config: QuicheConfig,
    pub timeout_config: TimeoutConfig,
}

impl Default for LinkServerConfig {
    fn default() -> (r: Self)
        ensures
            r.listen_addr@ == Seq::<char>::empty(),
            r.healthy_config.retry_times == 0,
            duration_nanos(r.healthy_config.heartbeat_interval) == 500 * 1_000_000,
            duration_nanos(r.healthy_config.heartbeat_timeout) == 3 * 1_000_000_000,
            duration_nanos(r.healthy_config.auth_timeout) == 10 * 1_000_000_000,
            duration_nanos(r.healthy_config.retry_interval) == 3 * 1_000_000_000,
            r.channel_config.recv_chan_size == 8192,
            r.channel_config.send_chan_size == 8192,
            r.channel_config.signal_chan_size == 1024,
            r.channel_config.process_chan_size == 8192,
            r.buffer_config.max_udp_read_size == DEFAULT_MAX_UDP_PACKET_SIZE,
            r.buffer_config.max_udp_write_size == DEFAULT_MAX_UDP_PACKET_SIZE,
            r.buffer_config.max_stream_read_size == DEFAULT_MAX_PACKET_SIZE,
            r.buffer_config.max_stream_send_size == DEFAULT_MAX_PACKET_SIZE,
            r.buffer_config.peer_conn_init_size == 64,
            r.quiche_config.max_idle_timeout == Some(DEFAULT_MAX_IDLE_TIMEOUT),
            duration_nanos(r.timeout_config.request) == 3 * 1_000_000_000,
            duration_nanos(r.timeout_config.response) == 5 * 1_000_000_000,
            duration_nanos(r.timeout_config.idle_interval) == DEFAULT_MAX_IDLE_TIMEOUT * 1_000_000,
            duration_nanos(r.timeout_config.handshake_timeout) == 3 * 1_000_000_000,
    {
        LinkServerConfig {
            listen_addr: String::new(),
            healthy_config: HealthyConfig::default(),
            channel_config: ChannelConfig::default(),
            buffer_config: BufferConfig::default(),
            quiche_config: QuicheConfig::default(),
            timeout_config: TimeoutConfig::default(),
        }
    }
}

/// The transport settings taken from a client or server configuration.
#[derive(Clone, Debug)]
pub struct Transport {
    pub buffer_config: BufferConfig,
    pub channel_config: ChannelConfig,
    pub quiche_config: QuicheConfig,
    pub timeout_config: TimeoutConfig,
}

impl Transport {
    /// Keeps the buffer, channel, QUIC and timeout settings of a client configuration.
    pub fn from_client_config(cfg: LinkClientConfig) -> (t: Self)
        ensures
            t.buffer_config == cfg.buffer_config,
            t.channel_config == cfg.channel_config,
            t.quiche_config == cfg.quiche_config,
            t.timeout_config == cfg.timeout_config,
    {
        Transport {
            buffer_config: cfg.buffer_config,
            channel_config: cfg.channel_config,
            quiche_config: cfg.quiche_config,
            timeout_config: cfg.timeout_config,
        }
    }

    /// Keeps the buffer, channel, QUIC and timeout settings of a server configuration.
    pub fn from_server_config(cfg: LinkServerConfig) -> (t: Self)
        ensures
            t.buffer_config == cfg.buffer_config,
            t.channel_config == cfg.channel_config,
            t.quiche_config == cfg.quiche_config,
            t.timeout_config == cfg.timeout_config,
    {
        Transport {
            buffer_config: cfg.buffer_config,
            channel_config: cfg.channel_config,
            quiche_config: cfg.quiche_config,
            timeout_config: cfg.timeout_config,
        }
    }
}

} // verus!
