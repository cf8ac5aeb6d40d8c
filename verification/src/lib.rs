pub mod clock;
pub mod codec;
pub mod config;
pub mod convert;
pub mod framing;
pub mod metrics;
pub mod packet_utils;
pub mod packets;
pub mod session;
pub mod simple_buf;
pub mod stream_send;
pub mod tokens;
