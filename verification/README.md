# quote_link

A client/server link for real-time quotation data over QUIC streams.

`src/` is the library, verified with Verus:

- `packets`, `codec`: the packet types and their wire format, with exact encode and
  decode contracts and the laws that decoding gives back what encoding wrote.
- `simple_buf`, `framing`, `stream_send`: the stream buffers, cutting received bytes into
  packets and keeping outgoing bytes the stream did not take yet.
- `session`, `convert`, `packet_utils`: the decisions of the client and server loops
  (heartbeat and authentication timeouts, retries, routing of received packets).
- `config`: settings and their defaults.
- `tokens`: stateless retry tokens.
- `metrics`: counters and gauges keyed by label sets, and state timing.
- `clock`: the `std::time` values the library carries.

`app/` is the asynchronous runtime around it: sockets, QUIC connections, TLS, protobuf
bodies, YAML configuration files and the metrics HTTP endpoint.
