use quote_link::convert::{quotation_kind, split_pushes, QuotationKind};
use quote_link::packet_utils::{auth_response_body, subscribe_response_body, unsubscribe_response_body};
use quote_link::packets::{Command, MsgType, Packet, Response, ResponseStatus};
use quote_link::config::{HealthyConfig, Subscribe};
use quote_link::session::{
    auth_outcome, subscribe_plan, waiting_since, AuthOutcome, ClientAuth, SubscribeStep,
    check_tick, classify_inbound, classify_server_inbound, request_cmd_allowed, retry_verdict,
    route_response, tick_verdict, InboundRoute, ResponseRoute, ServerInbound, TickVerdict,
};
use std::time::{Duration, Instant};

fn response(command: Command, status: ResponseStatus, body: Vec<u8>) -> Response {
    Response { reserved: 0, command, id: 1, status, body_len: body.len() as u32, body }
}

#[test]
fn tick_verdicts() {
    assert_eq!(tick_verdict(false, 11, 10, 3), TickVerdict::AuthTimeout);
    assert_eq!(tick_verdict(false, 10, 10, 3), TickVerdict::Alive);
    assert_eq!(tick_verdict(true, 4, 10, 3), TickVerdict::HeartbeatTimeout);
    assert_eq!(tick_verdict(true, 3, 10, 3), TickVerdict::Alive);
}

#[test]
fn timeouts_persist() {
    for waited in [4u128, 5, 1_000, u128::MAX] {
        assert_eq!(tick_verdict(true, waited, 10, 3), TickVerdict::HeartbeatTimeout);
    }
    for waited in [11u128, 12, 1_000, u128::MAX] {
        assert_eq!(tick_verdict(false, waited, 10, 3), TickVerdict::AuthTimeout);
    }
}

#[test]
fn default_health_timeouts() {
    let healthy = HealthyConfig::default();
    let ms = Duration::from_millis;
    assert_eq!(check_tick(&healthy, true, &ms(3000)), TickVerdict::Alive);
    assert_eq!(check_tick(&healthy, true, &ms(3001)), TickVerdict::HeartbeatTimeout);
    assert_eq!(check_tick(&healthy, false, &ms(9000)), TickVerdict::Alive);
    assert_eq!(check_tick(&healthy, false, &Duration::new(10, 0)), TickVerdict::Alive);
    assert_eq!(check_tick(&healthy, false, &Duration::new(10, 1)), TickVerdict::AuthTimeout);
}

#[test]
fn retry_verdicts() {
    assert_eq!(retry_verdict(0, 0), (1, false));
    assert_eq!(retry_verdict(1, 3), (2, false));
    assert_eq!(retry_verdict(2, 3), (3, true));
    assert_eq!(retry_verdict(100, 0), (101, false));
}

#[test]
fn user_requests() {
    assert!(!request_cmd_allowed(Command::Heartbeat));
    assert!(!request_cmd_allowed(Command::Auth));
    assert!(request_cmd_allowed(Command::CmdSubDepth));
}

#[test]
fn client_routing() {
    let hb = Packet::Response(response(Command::Heartbeat, ResponseStatus::Success, vec![]));
    let auth = Packet::Response(response(Command::Auth, ResponseStatus::BadRequest, vec![]));
    let other = Packet::Response(response(Command::CmdSubTrades, ResponseStatus::Success, vec![]));
    let req = Packet::new_request(Command::Heartbeat, 1, vec![]);
    assert_eq!(classify_inbound(&hb), InboundRoute::HeartbeatResponse);
    assert_eq!(classify_inbound(&auth), InboundRoute::AuthResponse);
    assert_eq!(classify_inbound(&other), InboundRoute::Forward);
    assert_eq!(classify_inbound(&req), InboundRoute::Forward);
    let ok_auth = response(Command::Auth, ResponseStatus::Success, vec![]);
    let bad_auth = response(Command::Auth, ResponseStatus::Unauthenticated, vec![]);
    assert_eq!(route_response(true, &ok_auth), ResponseRoute::Pending);
    assert_eq!(route_response(false, &ok_auth), ResponseRoute::Connected);
    assert_eq!(route_response(false, &bad_auth), ResponseRoute::Consumer);
}

#[test]
fn server_routing() {
    assert_eq!(
        classify_server_inbound(&Packet::new_heartbeat(1, vec![])),
        ServerInbound::HeartbeatRequest
    );
    assert_eq!(classify_server_inbound(&Packet::new_auth(2, vec![])), ServerInbound::AuthRequest);
    assert_eq!(
        classify_server_inbound(&Packet::new_request(Command::CmdSubDepth, 3, vec![])),
        ServerInbound::Forward
    );
    assert_eq!(
        classify_server_inbound(&Packet::new_push(Command::Heartbeat, MsgType::Trade, vec![])),
        ServerInbound::Forward
    );
}

#[test]
fn response_bodies() {
    let sub = response(Command::CmdSubMarketInfo, ResponseStatus::Success, vec![1]);
    assert_eq!(subscribe_response_body(sub), Ok(vec![1]));
    let unsub = response(Command::CmdUnSubDepth, ResponseStatus::Success, vec![2]);
    assert_eq!(subscribe_response_body(unsub.clone()), Err(Command::CmdUnSubDepth));
    assert_eq!(unsubscribe_response_body(unsub), Ok(vec![2]));
    let auth = response(Command::Auth, ResponseStatus::Success, vec![3]);
    assert_eq!(unsubscribe_response_body(auth.clone()), Err(Command::Auth));
    assert_eq!(auth_response_body(auth), Ok(vec![3]));
    let hb = response(Command::Heartbeat, ResponseStatus::Success, vec![]);
    assert_eq!(auth_response_body(hb), Err(Command::Heartbeat));
}

#[test]
fn quotation_kinds() {
    assert_eq!(quotation_kind(&MsgType::Unknown), None);
    assert_eq!(quotation_kind(&MsgType::MarketInfo), None);
    assert_eq!(quotation_kind(&MsgType::Snapshot), Some(QuotationKind::Price));
    assert_eq!(quotation_kind(&MsgType::Kline), Some(QuotationKind::KLine));
    assert_eq!(quotation_kind(&MsgType::OrderBookV2), Some(QuotationKind::OrderBook));
}

#[test]
fn pushes_are_split_from_the_rest() {
    let p1 = Packet::new_push(Command::CmdSubTrades, MsgType::Trade, vec![1]);
    let p2 = Packet::new_push(Command::CmdSubDepth, MsgType::Depths, vec![2]);
    let notice = response(Command::StatusNotify, ResponseStatus::Success, vec![7]);
    let plain = response(Command::Heartbeat, ResponseStatus::Success, vec![]);
    let batch = vec![
        p1.clone(),
        Packet::new_request(Command::Close, 1, vec![]),
        Packet::Response(notice.clone()),
        Packet::Response(plain),
        p2.clone(),
    ];
    let (pushes, notices) = split_pushes(batch);
    let expected: Vec<Packet> = pushes.into_iter().map(Packet::Push).collect();
    assert_eq!(expected, vec![p1, p2]);
    assert_eq!(notices, vec![notice]);
}

#[test]
fn client_wait_clock_and_auth_outcome() {
    let created = Instant::now();
    let last = created + Duration::from_millis(5);
    assert_eq!(*waiting_since(false, &created, &last), created);
    assert_eq!(*waiting_since(true, &created, &last), last);
    assert_eq!(auth_outcome(&response(Command::Auth, ResponseStatus::Success, vec![])), AuthOutcome::Accepted);
    assert_eq!(auth_outcome(&response(Command::Auth, ResponseStatus::BadRequest, vec![])), AuthOutcome::Refused);
}

#[test]
fn subscriptions_follow_the_configuration() {
    let subs = vec![
        Subscribe { cmd: Command::CmdSubTrades, sub_all: true, span_index: 0 },
        Subscribe { cmd: Command::CmdSubDepth, sub_all: false, span_index: 3 },
    ];
    let plan = subscribe_plan(&subs, u32::MAX);
    assert_eq!(
        plan,
        vec![
            SubscribeStep { cmd: Command::CmdSubTrades, counter: u32::MAX, sub_all: true, span_index: 0 },
            SubscribeStep { cmd: Command::CmdSubDepth, counter: 0, sub_all: false, span_index: 3 },
        ]
    );
    assert!(subscribe_plan(&vec![], 7).is_empty());
}

#[test]
fn disconnect_is_reported_only_after_authentication() {
    let mut auth = ClientAuth::new();
    assert!(!auth.notify_disconnect());
    assert!(!auth.on_auth(false));
    assert!(!auth.notify_disconnect());
    assert!(auth.on_auth(true));
    assert!(auth.authenticated());
    assert!(!auth.on_auth(false));
    assert!(auth.notify_disconnect());
}
