//! Decisions taken by the client and server loops of a link, on plain values.
use vstd::prelude::*;
use std::time::{Duration, Instant};
use crate::clock::{duration_as_nanos, duration_nanos};
use crate::config::{HealthyConfig, Subscribe};
use crate::packets::{Command, Packet, PacketView, Response, ResponseStatus};

verus! {

/// Connection events reported to the consumer of a client.
#[derive(Clone, Debug)]
pub enum ClientConnEvent {
    /// The connection failed and will be retried.
    Error(String),
    /// The connection is given up for good.
    DisconnectedForever(String),
}

/// Signals a user sends to a running client.
#[derive(Clone, Debug)]
pub enum ClientSignal {
    /// Stop the client, with the reason.
    Exit(String),
}

/// Signals a user sends to a running server.
#[derive(Clone, Debug)]
pub enum ServerSignal {
    /// Close the connection of the named client.
    CloseClient(String),
    /// Stop the server.
    Shutdown,
}

/// What a heartbeat tick finds.
#[derive(Clone, Copy, Debug, PartialEq, Eq, Structural)]
pub enum TickVerdict {
    /// Keep the connection.
    Alive,
    /// Authentication did not complete in time.
    AuthTimeout,
    /// The peer went silent for too long.
    HeartbeatTimeout,
}

/// The heartbeat tick check on nanosecond counts: a timeout is met only when strictly exceeded.
pub open spec fn tick_outcome(is_authed: bool, waited: int, auth_timeout: int, heartbeat_timeout: int) -> TickVerdict {
    if is_authed {
        if waited > heartbeat_timeout {
            TickVerdict::HeartbeatTimeout
        } else {
            TickVerdict::Alive
        }
    } else {
        if waited > auth_timeout {
            TickVerdict::AuthTimeout
        } else {
            TickVerdict::Alive
        }
    }
}

/// A timeout is met only when strictly exceeded: waiting exactly the timeout keeps the link
/// alive, one nanosecond more does not; which timeout applies depends only on whether the
/// link is authenticated.
pub proof fn law_timeouts_are_strict(wait: int, other: int)
    ensures
        tick_outcome(true, wait, other, wait) == TickVerdict::Alive,
        tick_outcome(true, wait + 1, other, wait) == TickVerdict::HeartbeatTimeout,
        tick_outcome(false, wait, wait, other) == TickVerdict::Alive,
        tick_outcome(false, wait + 1, wait, other) == TickVerdict::AuthTimeout,
        tick_outcome(true, wait, other, wait) == tick_outcome(true, wait, other + 1, wait),
        tick_outcome(false, wait, wait, other) == tick_outcome(false, wait, wait, other + 1),
{
}

/// Waiting longer never revives a link: once a tick finds a timeout, every tick that has
/// waited at least as long finds the same timeout.
pub proof fn law_timeout_persists(
    is_authed: bool,
    waited: int,
    longer: int,
    auth_timeout: int,
    heartbeat_timeout: int,
)
    requires
        waited <= longer,
        tick_outcome(is_authed, waited, auth_timeout, heartbeat_timeout) != TickVerdict::Alive,
    ensures
        tick_outcome(is_authed, longer, auth_timeout, heartbeat_timeout) == tick_outcome(
            is_authed,
            waited,
            auth_timeout,
            heartbeat_timeout,
        ),
{
}

/// The heartbeat tick check. `waited_nanos` is the time waited for the peer: since the
/// connection was created (client) or the last packet (server) while not authenticated,
/// since the last packet once authenticated. A timeout is met only when strictly exceeded.
pub fn tick_verdict(
    is_authed: bool,
    waited_nanos: u128,
    auth_timeout_nanos: u128,
    heartbeat_timeout_nanos: u128,
) -> (v: TickVerdict)
    ensures
        v == tick_outcome(
            is_authed,
            waited_nanos as int,
            auth_timeout_nanos as int,
            heartbeat_timeout_nanos as int,
        ),
{
    if is_authed {
        if waited_nanos > heartbeat_timeout_nanos {
            return TickVerdict::HeartbeatTimeout;
        }
    } else {
        if waited_nanos > auth_timeout_nanos {
            return TickVerdict::AuthTimeout;
        }
    }
    TickVerdict::Alive
}

/// The heartbeat tick check of a link, against the authentication and heartbeat timeouts
/// of its health settings; `waited` is as for [`tick_verdict`].
pub fn check_tick(healthy: &HealthyConfig, is_authed: bool, waited: &Duration) -> (v: TickVerdict)
    ensures
        v == tick_outcome(
            is_authed,
            duration_nanos(*waited) as int,
            duration_nanos(healthy.auth_timeout) as int,
            duration_nanos(healthy.heartbeat_timeout) as int,
        ),
{
    tick_verdict(
        is_authed,
        duration_as_nanos(waited),
        duration_as_nanos(&healthy.auth_timeout),
        duration_as_nanos(&healthy.heartbeat_timeout),
    )
}

/// The instant the client's heartbeat tick measures the wait from: the connection's creation
/// while not authenticated, the last packet from the peer once authenticated.
pub fn waiting_since<'a>(
    is_authed: bool,
    created_at: &'a Instant,
    last_packet_at: &'a Instant,
) -> (at: &'a Instant)
    ensures
        *at == if is_authed {
            *last_packet_at
        } else {
            *created_at
        },
{
    if is_authed {
        last_packet_at
    } else {
        created_at
    }
}

/// What an authentication response means for the client.
#[derive(Clone, Copy, Debug, PartialEq, Eq, Structural)]
pub enum AuthOutcome {
    /// The peer accepted the credentials: the link is authenticated and subscribes.
    Accepted,
    /// The peer refused them: the connection is given up and retried.
    Refused,
}

/// Reads an authentication response: accepted exactly when its status is `Success`.
pub fn auth_outcome(response: &Response) -> (o: AuthOutcome)
    ensures
        o == if response.status == ResponseStatus::Success {
            AuthOutcome::Accepted
        } else {
            AuthOutcome::Refused
        },
{
    if response.status == ResponseStatus::Success {
        AuthOutcome::Accepted
    } else {
        AuthOutcome::Refused
    }
}

/// A subscription request the client sends: command, request counter and body fields.
#[derive(Clone, Copy, Debug, PartialEq, Eq, Structural)]
pub struct SubscribeStep {
    pub cmd: Command,
    pub counter: u32,
    pub sub_all: bool,
    pub span_index: i64,
}

/// The subscription requests a client sends once authenticated: one per configured
/// subscription, in the configured order, with consecutive request counters from
/// `first_counter` (wrapping at 2^32).
pub fn subscribe_plan(subs: &Vec<Subscribe>, first_counter: u32) -> (plan: Vec<SubscribeStep>)
    ensures
        plan@.len() == subs@.len(),
        forall|i: int|
            0 <= i < subs@.len() ==> #[trigger] plan@[i] == (SubscribeStep {
                cmd: subs@[i].cmd,
                counter: ((first_counter + i) % 0x1_0000_0000) as u32,
                sub_all: subs@[i].sub_all,
                span_index: subs@[i].span_index,
            }),
{
    let mut plan: Vec<SubscribeStep> = Vec::new();
    let mut counter = first_counter;
    let mut i: usize = 0;
    while i < subs.len()
        invariant
            0 <= i <= subs@.len(),
            plan@.len() == i,
            counter == (first_counter + i) % 0x1_0000_0000,
            forall|k: int|
                0 <= k < i ==> #[trigger] plan@[k] == (SubscribeStep {
                    cmd: subs@[k].cmd,
                    counter: ((first_counter + k) % 0x1_0000_0000) as u32,
                    sub_all: subs@[k].sub_all,
                    span_index: subs@[k].span_index,
                }),
        decreases subs@.len() - i,
    {
        let sub = &subs[i];
        plan.push(
            SubscribeStep { cmd: sub.cmd, counter, sub_all: sub.sub_all, span_index: sub.span_index },
        );
        proof {
            vstd::arithmetic::div_mod::lemma_add_mod_noop(first_counter + i, 1, 0x1_0000_0000);
            vstd::arithmetic::div_mod::lemma_small_mod(1, 0x1_0000_0000);
        }
        counter = counter.wrapping_add(1);
        i = i + 1;
    }
    plan
}

/// Whether a client of the server has passed authentication.
pub struct ClientAuth {
    authed: bool,
}

impl ClientAuth {
    /// True once some authentication request of the client was accepted.
    pub closed spec fn is_authed(&self) -> bool {
        self.authed
    }

    /// A client that has not authenticated.
    pub fn new() -> (a: Self)
        ensures
            !a.is_authed(),
    {
        ClientAuth { authed: false }
    }

    /// Records the handler's verdict on an authentication request. Gives whether the client is
    /// to be announced as connected: exactly when the request was accepted. A refusal after an
    /// acceptance does not undo it.
    pub fn on_auth(&mut self, accepted: bool) -> (announce: bool)
        ensures
            announce == accepted,
            final(self).is_authed() == (old(self).is_authed() || accepted),
    {
        if accepted {
            self.authed = true;
        }
        accepted
    }

    /// Whether the client has authenticated, as the heartbeat tick needs to know.
    pub fn authenticated(&self) -> (r: bool)
        ensures
            r == self.is_authed(),
    {
        self.authed
    }

    /// Whether the handler is told that the client disconnected: only when it authenticated.
    pub fn notify_disconnect(&self) -> (r: bool)
        ensures
            r == self.is_authed(),
    {
        self.authed
    }
}

/// Over the authentication verdicts of a client's session, from a fresh client: the handler
/// is told of its disconnection exactly when some verdict accepted it.
pub proof fn law_disconnect_only_after_auth(states: Seq<ClientAuth>, verdicts: Seq<bool>)
    requires
        states.len() == verdicts.len() + 1,
        !states[0].is_authed(),
        forall|i: int|
            0 <= i < verdicts.len() ==> #[trigger] states[i + 1].is_authed() == (
            states[i].is_authed() || verdicts[i]),
    ensures
        states.last().is_authed() == verdicts.contains(true),
    decreases verdicts.len(),
{
    if verdicts.len() > 0 {
        let k = verdicts.len() - 1;
        let ss = states.take(k + 1);
        let vs = verdicts.take(k);
        assert forall|i: int| 0 <= i < vs.len() implies #[trigger] ss[i + 1].is_authed() == (
        ss[i].is_authed() || vs[i]) by {
            assert(ss[i + 1] == states[i + 1]);
            assert(ss[i] == states[i]);
            assert(vs[i] == verdicts[i]);
        }
        law_disconnect_only_after_auth(ss, vs);
        assert(ss.last() == states[k]);
        assert(states[k + 1].is_authed() == (states[k].is_authed() || verdicts[k]));
        if verdicts.contains(true) {
            let j = choose|j: int| 0 <= j < verdicts.len() && verdicts[j] == true;
            if j < k {
                assert(vs[j] == true);
            }
        }
        if vs.contains(true) {
            let j = choose|j: int| 0 <= j < vs.len() && vs[j] == true;
            assert(verdicts[j] == true);
        }
        if verdicts[k] {
            assert(verdicts.contains(true));
        }
    }
}

/// After a failed connection: the new retry count and whether to give up for good
/// (a limit of 0 means retrying forever).
pub fn retry_verdict(retry_times: u32, max_retry_times: u32) -> (r: (u32, bool))
    requires
        retry_times < u32::MAX,
    ensures
        r.0 == retry_times + 1,
        r.1 == (max_retry_times > 0 && r.0 >= max_retry_times),
{
    let retry_times = retry_times + 1;
    let give_up = max_retry_times > 0 && retry_times >= max_retry_times;
    (retry_times, give_up)
}

/// Whether a request with `cmd` may be sent by a user of the client: heartbeats and
/// authentication are sent by the link itself.
pub fn request_cmd_allowed(cmd: Command) -> (ok: bool)
    ensures
        ok == !(cmd == Command::Heartbeat || cmd == Command::Auth),
{
    !(cmd == Command::Heartbeat || cmd == Command::Auth)
}

/// Where the client's main loop sends a packet received from the peer.
#[derive(Clone, Copy, Debug, PartialEq, Eq, Structural)]
pub enum InboundRoute {
    /// A heartbeat response: measure the round trip.
    HeartbeatResponse,
    /// An authentication response: finish connecting, or fail.
    AuthResponse,
    /// Anything else: hand it to the consumer.
    Forward,
}

/// Routes a packet received by the client's main loop.
pub fn classify_inbound(packet: &Packet) -> (route: InboundRoute)
    ensures
        route == match packet@ {
            PacketView::Response(r) => if r.command == Command::Heartbeat {
                InboundRoute::HeartbeatResponse
            } else if r.command == Command::Auth {
                InboundRoute::AuthResponse
            } else {
                InboundRoute::Forward
            },
            _ => InboundRoute::Forward,
        },
{
    match packet {
        Packet::Response(response) => {
            if response.command == Command::Heartbeat {
                InboundRoute::HeartbeatResponse
            } else if response.command == Command::Auth {
                InboundRoute::AuthResponse
            } else {
                InboundRoute::Forward
            }
        },
        _ => InboundRoute::Forward,
    }
}

/// Where the client's consumer routine sends a response.
#[derive(Clone, Copy, Debug, PartialEq, Eq, Structural)]
pub enum ResponseRoute {
    /// Answer to a request that waits for it.
    Pending,
    /// Successful authentication: the link is connected.
    Connected,
    /// Any other response: the consumer's response handler.
    Consumer,
}

/// Routes a response in the client's consumer routine; `has_pending` tells whether a request
/// with the response's id waits for it.
pub fn route_response(has_pending: bool, response: &Response) -> (route: ResponseRoute)
    ensures
        route == if has_pending {
            ResponseRoute::Pending
        } else if response.command == Command::Auth && response.status == ResponseStatus::Success {
            ResponseRoute::Connected
        } else {
            ResponseRoute::Consumer
        },
{
    if has_pending {
        ResponseRoute::Pending
    } else if response.command == Command::Auth && response.status == ResponseStatus::Success {
        ResponseRoute::Connected
    } else {
        ResponseRoute::Consumer
    }
}

/// Where the server's client loop sends a packet received from a client.
#[derive(Clone, Copy, Debug, PartialEq, Eq, Structural)]
pub enum ServerInbound {
    /// A heartbeat request: answer it.
    HeartbeatRequest,
    /// An authentication request: ask the handler.
    AuthRequest,
    /// Anything else: hand it to the handler routine.
    Forward,
}

/// Routes a packet received by the server's client loop.
pub fn classify_server_inbound(packet: &Packet) -> (route: ServerInbound)
    ensures
        route == match packet@ {
            PacketView::Request(r) => if r.command == Command::Heartbeat {
                ServerInbound::HeartbeatRequest
            } else if r.command == Command::Auth {
                ServerInbound::AuthRequest
            } else {
                ServerInbound::Forward
            },
            _ => ServerInbound::Forward,
        },
{
    match packet {
        Packet::Request(request) => {
            if request.command == Command::Heartbeat {
                ServerInbound::HeartbeatRequest
            } else if request.command == Command::Auth {
                ServerInbound::AuthRequest
            } else {
                ServerInbound::Forward
            }
        },
        _ => ServerInbound::Forward,
    }
}

} // verus!
