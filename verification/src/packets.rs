use vstd::prelude::*;

verus! {

/// Timeout byte that every locally built request carries.
pub const DEFAULT_REQUEST_TIMEOUT: u8 = 5;

/// Header bytes in front of a request body.
pub const REQUEST_HEADER_SIZE: usize = 8;

/// Header bytes in front of a response body.
pub const RESPONSE_HEADER_SIZE: usize = 8;

/// Header bytes in front of a push body.
pub const PUSH_HEADER_SIZE: usize = 5;

/// The shortest header of any packet kind.
pub const MIN_PACKET_HEADER_SIZE: usize = 5;

/// Largest value of a 24-bit field plus one.
pub const FIELD24_LIMIT: u32 = 0x100_0000;

/// Command carried in the 4-bit command field of every packet.
#[derive(Clone, Copy, Debug, PartialEq, Eq, Structural)]
pub enum Command {
    Auth,
    Heartbeat,
    Close,
    Reconnect,
    CmdSubAllType,
    CmdUnSubAllType,
    CmdSubOrderBook,
    CmdUnSubOrderBook,
    CmdSubTrades,
    CmdSubBrokers,
    CmdSubDepth,
    CmdUnSubDepth,
    CmdSubMarketInfo,
    CmdUnSubBrokers,
    /// Local status notices; its code does not fit the 4-bit wire field.
    StatusNotify,
}

impl Command {
    /// The numeric code of each command.
    pub open spec fn spec_code(self) -> u8 {
        match self {
            Command::Auth => 0,
            Command::Heartbeat => 1,
            Command::Close => 2,
            Command::Reconnect => 3,
            Command::CmdSubAllType => 4,
            Command::CmdUnSubAllType => 5,
            Command::CmdSubOrderBook => 6,
            Command::CmdUnSubOrderBook => 7,
            Command::CmdSubTrades => 8,
            Command::CmdSubBrokers => 9,
            Command::CmdSubDepth => 10,
            Command::CmdUnSubDepth => 11,
            Command::CmdSubMarketInfo => 12,
            Command::CmdUnSubBrokers => 13,
            Command::StatusNotify => 101,
        }
    }

    /// The command with a given numeric code, if any.
    pub open spec fn spec_from_code(c: u8) -> Option<Command> {
        if c == 0 {
            Some(Command::Auth)
        } else if c == 1 {
            Some(Command::Heartbeat)
        } else if c == 2 {
            Some(Command::Close)
        } else if c == 3 {
            Some(Command::Reconnect)
        } else if c == 4 {
            Some(Command::CmdSubAllType)
        } else if c == 5 {
            Some(Command::CmdUnSubAllType)
        } else if c == 6 {
            Some(Command::CmdSubOrderBook)
        } else if c == 7 {
            Some(Command::CmdUnSubOrderBook)
        } else if c == 8 {
            Some(Command::CmdSubTrades)
        } else if c == 9 {
            Some(Command::CmdSubBrokers)
        } else if c == 10 {
            Some(Command::CmdSubDepth)
        } else if c == 11 {
            Some(Command::CmdUnSubDepth)
        } else if c == 12 {
            Some(Command::CmdSubMarketInfo)
        } else if c == 13 {
            Some(Command::CmdUnSubBrokers)
        } else if c == 101 {
            Some(Command::StatusNotify)
        } else {
            None
        }
    }

    /// Numeric code of the command.
    pub fn code(&self) -> (c: u8)
        ensures
            c == self.spec_code(),
    {
        match self {
            Command::Auth => 0,
            Command::Heartbeat => 1,
            Command::Close => 2,
            Command::Reconnect => 3,
            Command::CmdSubAllType => 4,
            Command::CmdUnSubAllType => 5,
            Command::CmdSubOrderBook => 6,
            Command::CmdUnSubOrderBook => 7,
            Command::CmdSubTrades => 8,
            Command::CmdSubBrokers => 9,
            Command::CmdSubDepth => 10,
            Command::CmdUnSubDepth => 11,
            Command::CmdSubMarketInfo => 12,
            Command::CmdUnSubBrokers => 13,
            Command::StatusNotify => 101,
        }
    }

    /// The command whose code is `c`, if any.
    pub fn from_code(c: u8) -> (r: Option<Command>)
        ensures
            r == Command::spec_from_code(c),
    {
        if c == 0 {
            Some(Command::Auth)
        } else if c == 1 {
            Some(Command::Heartbeat)
        } else if c == 2 {
            Some(Command::Close)
        } else if c == 3 {
            Some(Command::Reconnect)
        } else if c == 4 {
            Some(Command::CmdSubAllType)
        } else if c == 5 {
            Some(Command::CmdUnSubAllType)
        } else if c == 6 {
            Some(Command::CmdSubOrderBook)
        } else if c == 7 {
            Some(Command::CmdUnSubOrderBook)
        } else if c == 8 {
            Some(Command::CmdSubTrades)
        } else if c == 9 {
            Some(Command::CmdSubBrokers)
        } else if c == 10 {
            Some(Command::CmdSubDepth)
        } else if c == 11 {
            Some(Command::CmdUnSubDepth)
        } else if c == 12 {
            Some(Command::CmdSubMarketInfo)
        } else if c == 13 {
            Some(Command::CmdUnSubBrokers)
        } else if c == 101 {
            Some(Command::StatusNotify)
        } else {
            None
        }
    }
}

/// Kind of quotation carried by a push (same numbering as the quotation type of the feed).
#[derive(Clone, Copy, Debug, PartialEq, Eq, Structural)]
pub enum MsgType {
    Unknown,
    Snapshot,
    Trade,
    Depths,
    Brokers,
    MarketInfo,
    OrderBookV2,
    Kline,
}

impl MsgType {
    /// The numeric code of each message type.
    pub open spec fn spec_code(self) -> u8 {
        match self {
            MsgType::Unknown => 0,
            MsgType::Snapshot => 1,
            MsgType::Trade => 2,
            MsgType::Depths => 3,
            MsgType::Brokers => 4,
            MsgType::MarketInfo => 5,
            MsgType::OrderBookV2 => 6,
            MsgType::Kline => 7,
        }
    }

    /// The message type with a given code, if any.
    pub open spec fn spec_from_code(c: u8) -> Option<MsgType> {
        if c == 0 {
            Some(MsgType::Unknown)
        } else if c == 1 {
            Some(MsgType::Snapshot)
        } else if c == 2 {
            Some(MsgType::Trade)
        } else if c == 3 {
            Some(MsgType::Depths)
        } else if c == 4 {
            Some(MsgType::Brokers)
        } else if c == 5 {
            Some(MsgType::MarketInfo)
        } else if c == 6 {
            Some(MsgType::OrderBookV2)
        } else if c == 7 {
            Some(MsgType::Kline)
        } else {
            None
        }
    }

    /// Numeric code of the message type.
    pub fn code(&self) -> (c: u8)
        ensures
            c == self.spec_code(),
    {
        match self {
            MsgType::Unknown => 0,
            MsgType::Snapshot => 1,
            MsgType::Trade => 2,
            MsgType::Depths => 3,
            MsgType::Brokers => 4,
            MsgType::MarketInfo => 5,
            MsgType::OrderBookV2 => 6,
            MsgType::Kline => 7,
        }
    }

    /// The message type whose code is `c`, if any.
    pub fn from_code(c: u8) -> (r: Option<MsgType>)
        ensures
            r == MsgType::spec_from_code(c),
    {
        if c == 0 {
            Some(MsgType::Unknown)
        } else if c == 1 {
            Some(MsgType::Snapshot)
        } else if c == 2 {
            Some(MsgType::Trade)
        } else if c == 3 {
            Some(MsgType::Depths)
        } else if c == 4 {
            Some(MsgType::Brokers)
        } else if c == 5 {
            Some(MsgType::MarketInfo)
        } else if c == 6 {
            Some(MsgType::OrderBookV2)
        } else if c == 7 {
            Some(MsgType::Kline)
        } else {
            None
        }
    }
}

/// Status byte of a response.
#[derive(Clone, Copy, Debug, PartialEq, Eq, Structural)]
pub enum ResponseStatus {
    Success,
    ServerTimeout,
    ClientTimeout,
    BadRequest,
    BadResponse,
    Unauthenticated,
    PermissionDenied,
    ServerInternalError,
    ClientInternalError,
}

impl ResponseStatus {
    /// The numeric code of each status.
    pub open spec fn spec_code(self) -> u8 {
        match self {
            ResponseStatus::Success => 0,
            ResponseStatus::ServerTimeout => 1,
            ResponseStatus::ClientTimeout => 2,
            ResponseStatus::BadRequest => 3,
            ResponseStatus::BadResponse => 4,
            ResponseStatus::Unauthenticated => 5,
            ResponseStatus::PermissionDenied => 6,
            ResponseStatus::ServerInternalError => 7,
            ResponseStatus::ClientInternalError => 8,
        }
    }

    /// The status with a given code, if any.
    pub open spec fn spec_from_code(c: u8) -> Option<ResponseStatus> {
        if c == 0 {
            Some(ResponseStatus::Success)
        } else if c == 1 {
            Some(ResponseStatus::ServerTimeout)
        } else if c == 2 {
            Some(ResponseStatus::ClientTimeout)
        } else if c == 3 {
            Some(ResponseStatus::BadRequest)
        } else if c == 4 {
            Some(ResponseStatus::BadResponse)
        } else if c == 5 {
            Some(ResponseStatus::Unauthenticated)
        } else if c == 6 {
            Some(ResponseStatus::PermissionDenied)
        } else if c == 7 {
            Some(ResponseStatus::ServerInternalError)
        } else if c == 8 {
            Some(ResponseStatus::ClientInternalError)
        } else {
            None
        }
    }

    /// Numeric code of the status.
    pub fn code(&self) -> (c: u8)
        ensures
            c == self.spec_code(),
    {
        match self {
            ResponseStatus::Success => 0,
            ResponseStatus::ServerTimeout => 1,
            ResponseStatus::ClientTimeout => 2,
            ResponseStatus::BadRequest => 3,
            ResponseStatus::BadResponse => 4,
            ResponseStatus::Unauthenticated => 5,
            ResponseStatus::PermissionDenied => 6,
            ResponseStatus::ServerInternalError => 7,
            ResponseStatus::ClientInternalError => 8,
        }
    }

    /// The status whose code is `c`, if any.
    pub fn from_code(c: u8) -> (r: Option<ResponseStatus>)
        ensures
            r == ResponseStatus::spec_from_code(c),
    {
        if c == 0 {
            Some(ResponseStatus::Success)
        } else if c == 1 {
            Some(ResponseStatus::ServerTimeout)
        } else if c == 2 {
            Some(ResponseStatus::ClientTimeout)
        } else if c == 3 {
            Some(ResponseStatus::BadRequest)
        } else if c == 4 {
            Some(ResponseStatus::BadResponse)
        } else if c == 5 {
            Some(ResponseStatus::Unauthenticated)
        } else if c == 6 {
            Some(ResponseStatus::PermissionDenied)
        } else if c == 7 {
            Some(ResponseStatus::ServerInternalError)
        } else if c == 8 {
            Some(ResponseStatus::ClientInternalError)
        } else {
            None
        }
    }
}

/// Codes and commands determine each other.
pub proof fn law_codes_roundtrip()
    ensures
        forall|c: Command| #[trigger] Command::spec_from_code(c.spec_code()) == Some(c),
        forall|x: u8|
            #[trigger] Command::spec_from_code(x) matches Some(c) ==> c.spec_code() == x,
        forall|m: MsgType| #[trigger] MsgType::spec_from_code(m.spec_code()) == Some(m),
        forall|x: u8|
            #[trigger] MsgType::spec_from_code(x) matches Some(m) ==> m.spec_code() == x,
        forall|s: ResponseStatus| #[trigger] ResponseStatus::spec_from_code(s.spec_code()) == Some(s),
        forall|x: u8|
            #[trigger] ResponseStatus::spec_from_code(x) matches Some(s) ==> s.spec_code() == x,
{
}

/// The protocol's command numbering: each command's wire code is a fixed number, and exactly
/// those numbers name a command.
pub proof fn law_command_codes()
    ensures
        Command::Auth.spec_code() == 0,
        Command::Heartbeat.spec_code() == 1,
        Command::Close.spec_code() == 2,
        Command::Reconnect.spec_code() == 3,
        Command::CmdSubAllType.spec_code() == 4,
        Command::CmdUnSubAllType.spec_code() == 5,
        Command::CmdSubOrderBook.spec_code() == 6,
        Command::CmdUnSubOrderBook.spec_code() == 7,
        Command::CmdSubTrades.spec_code() == 8,
        Command::CmdSubBrokers.spec_code() == 9,
        Command::CmdSubDepth.spec_code() == 10,
        Command::CmdUnSubDepth.spec_code() == 11,
        Command::CmdSubMarketInfo.spec_code() == 12,
        Command::CmdUnSubBrokers.spec_code() == 13,
        Command::StatusNotify.spec_code() == 101,
        Command::spec_from_code(10) == Some(Command::CmdSubDepth),
        Command::spec_from_code(11) == Some(Command::CmdUnSubDepth),
        forall|x: u8| #[trigger] Command::spec_from_code(x) is Some <==> (x <= 13 || x == 101),
{
    law_codes_roundtrip();
}

/// The protocol's message type numbering: 0 Unknown, 1 Snapshot, 2 Trade, 3 Depths,
/// 4 Brokers, 5 MarketInfo, 6 OrderBookV2, 7 Kline, and no other byte names a message type.
pub proof fn law_msg_type_codes()
    ensures
        MsgType::Unknown.spec_code() == 0,
        MsgType::Snapshot.spec_code() == 1,
        MsgType::Trade.spec_code() == 2,
        MsgType::Depths.spec_code() == 3,
        MsgType::Brokers.spec_code() == 4,
        MsgType::MarketInfo.spec_code() == 5,
        MsgType::OrderBookV2.spec_code() == 6,
        MsgType::Kline.spec_code() == 7,
        MsgType::spec_from_code(3) == Some(MsgType::Depths),
        MsgType::spec_from_code(4) == Some(MsgType::Brokers),
        forall|x: u8| #[trigger] MsgType::spec_from_code(x) is Some <==> x <= 7,
{
    law_codes_roundtrip();
}

/// The protocol's status numbering: 0 Success, 1 ServerTimeout, 2 ClientTimeout,
/// 3 BadRequest, 4 BadResponse, 5 Unauthenticated, 6 PermissionDenied,
/// 7 ServerInternalError, 8 ClientInternalError, and no other byte names a status.
pub proof fn law_status_codes()
    ensures
        ResponseStatus::Success.spec_code() == 0,
        ResponseStatus::ServerTimeout.spec_code() == 1,
        ResponseStatus::ClientTimeout.spec_code() == 2,
        ResponseStatus::BadRequest.spec_code() == 3,
        ResponseStatus::BadResponse.spec_code() == 4,
        ResponseStatus::Unauthenticated.spec_code() == 5,
        ResponseStatus::PermissionDenied.spec_code() == 6,
        ResponseStatus::ServerInternalError.spec_code() == 7,
        ResponseStatus::ClientInternalError.spec_code() == 8,
        forall|x: u8| #[trigger] ResponseStatus::spec_from_code(x) is Some <==> x <= 8,
{
    law_codes_roundtrip();
}

/// A request from one end of the link to the other.
#[derive(Clone, Debug, PartialEq, Eq)]
pub struct Request {
    pub reserved: u8,
    pub command: Command,
    pub id: u32,
    pub timeout: u8,
    pub body_len: u32,
    pub body: Vec<u8>,
}

/// The answer to a request, or a status notice.
#[derive(Clone, Debug, PartialEq, Eq)]
pub struct Response {
    pub reserved: u8,
    pub command: Command,
    pub id: u32,
    pub status: ResponseStatus,
    pub body_len: u32,
    pub body: Vec<u8>,
}

/// Data pushed without a request.
#[derive(Clone, Debug, PartialEq, Eq)]
pub struct Push {
    pub reserved: u8,
    pub command: Command,
    pub msg_type: MsgType,
    pub body_len: u32,
    pub body: Vec<u8>,
}

/// Any packet of the link protocol.
#[derive(Clone, Debug, PartialEq, Eq)]
pub enum Packet {
    Request(Request),
    Response(Response),
    Push(Push),
}

/// Mathematical value of a [`Request`].
pub struct RequestView {
    pub reserved: u8,
    pub command: Command,
    pub id: u32,
    pub timeout: u8,
    pub body_len: u32,
    pub body: Seq<u8>,
}

/// Mathematical value of a [`Response`].
pub struct ResponseView {
    pub reserved: u8,
    pub command: Command,
    pub id: u32,
    pub status: ResponseStatus,
    pub body_len: u32,
    pub body: Seq<u8>,
}

/// Mathematical value of a [`Push`].
pub struct PushView {
    pub reserved: u8,
    pub command: Command,
    pub msg_type: MsgType,
    pub body_len: u32,
    pub body: Seq<u8>,
}

/// Mathematical value of a [`Packet`].
pub enum PacketView {
    Request(RequestView),
    Response(ResponseView),
    Push(PushView),
}

impl View for Request {
    type V = RequestView;

    open spec fn view(&self) -> RequestView {
        RequestView {
            reserved: self.reserved,
            command: self.command,
            id: self.id,
            timeout: self.timeout,
            body_len: self.body_len,
            body: self.body@,
        }
    }
}

impl View for Response {
    type V = ResponseView;

    open spec fn view(&self) -> ResponseView {
        ResponseView {
            reserved: self.reserved,
            command: self.command,
            id: self.id,
            status: self.status,
            body_len: self.body_len,
            body: self.body@,
        }
    }
}

impl View for Push {
    type V = PushView;

    open spec fn view(&self) -> PushView {
        PushView {
            reserved: self.reserved,
            command: self.command,
            msg_type: self.msg_type,
            body_len: self.body_len,
            body: self.body@,
        }
    }
}

impl View for Packet {
    type V = PacketView;

    open spec fn view(&self) -> PacketView {
        match self {
            Packet::Request(r) => PacketView::Request(r@),
            Packet::Response(r) => PacketView::Response(r@),
            Packet::Push(p) => PacketView::Push(p@),
        }
    }
}

/// Header of a request: every field but the body.
#[derive(Clone, Copy, Debug, PartialEq, Eq, Structural)]
pub struct RequestHeader {
    pub reserved: u8,
    pub command: Command,
    pub id: u32,
    pub timeout: u8,
    pub body_len: u32,
}

/// Header of a response: every field but the body.
#[derive(Clone, Copy, Debug, PartialEq, Eq, Structural)]
pub struct ResponseHeader {
    pub reserved: u8,
    pub command: Command,
    pub id: u32,
    pub status: ResponseStatus,
    pub body_len: u32,
}

/// Header of a push: every field but the body.
#[derive(Clone, Copy, Debug, PartialEq, Eq, Structural)]
pub struct PushHeader {
    pub reserved: u8,
    pub command: Command,
    pub msg_type: MsgType,
    pub body_len: u32,
}

/// Header of any packet, read before the body to learn how many bytes the packet needs.
#[derive(Clone, Copy, Debug, PartialEq, Eq, Structural)]
pub enum PacketHeader {
    Request(RequestHeader),
    Response(ResponseHeader),
    Push(PushHeader),
}

impl PacketView {
    /// The body length field.
    pub open spec fn body_len(self) -> u32 {
        match self {
            PacketView::Request(r) => r.body_len,
            PacketView::Response(r) => r.body_len,
            PacketView::Push(p) => p.body_len,
        }
    }

    /// The body bytes.
    pub open spec fn body(self) -> Seq<u8> {
        match self {
            PacketView::Request(r) => r.body,
            PacketView::Response(r) => r.body,
            PacketView::Push(p) => p.body,
        }
    }

    /// Header size of the packet's kind.
    pub open spec fn header_size(self) -> nat {
        match self {
            PacketView::Request(_) => REQUEST_HEADER_SIZE as nat,
            PacketView::Response(_) => RESPONSE_HEADER_SIZE as nat,
            PacketView::Push(_) => PUSH_HEADER_SIZE as nat,
        }
    }

    /// Bytes the packet takes on the wire according to its body length field.
    pub open spec fn total_bytes(self) -> nat {
        self.body_len() as nat + self.header_size()
    }

    /// The header of the packet.
    pub open spec fn header(self) -> PacketHeader {
        match self {
            PacketView::Request(r) => PacketHeader::Request(
                RequestHeader {
                    reserved: r.reserved,
                    command: r.command,
                    id: r.id,
                    timeout: r.timeout,
                    body_len: r.body_len,
                },
            ),
            PacketView::Response(r) => PacketHeader::Response(
                ResponseHeader {
                    reserved: r.reserved,
                    command: r.command,
                    id: r.id,
                    status: r.status,
                    body_len: r.body_len,
                },
            ),
            PacketView::Push(p) => PacketHeader::Push(
                PushHeader {
                    reserved: p.reserved,
                    command: p.command,
                    msg_type: p.msg_type,
                    body_len: p.body_len,
                },
            ),
        }
    }
}

impl PacketHeader {
    /// Header size of the header's kind.
    pub open spec fn header_size(self) -> nat {
        match self {
            PacketHeader::Request(_) => REQUEST_HEADER_SIZE as nat,
            PacketHeader::Response(_) => RESPONSE_HEADER_SIZE as nat,
            PacketHeader::Push(_) => PUSH_HEADER_SIZE as nat,
        }
    }

    /// The body length field.
    pub open spec fn body_len(self) -> u32 {
        match self {
            PacketHeader::Request(r) => r.body_len,
            PacketHeader::Response(r) => r.body_len,
            PacketHeader::Push(p) => p.body_len,
        }
    }

    /// Bytes a whole packet with this header takes.
    pub open spec fn spec_need_bytes(self) -> nat {
        self.body_len() as nat + self.header_size()
    }

    /// The packet made of this header and `body`.
    pub open spec fn with_body(self, body: Seq<u8>) -> PacketView {
        match self {
            PacketHeader::Request(h) => PacketView::Request(
                RequestView {
                    reserved: h.reserved,
                    command: h.command,
                    id: h.id,
                    timeout: h.timeout,
                    body_len: h.body_len,
                    body,
                },
            ),
            PacketHeader::Response(h) => PacketView::Response(
                ResponseView {
                    reserved: h.reserved,
                    command: h.command,
                    id: h.id,
                    status: h.status,
                    body_len: h.body_len,
                    body,
                },
            ),
            PacketHeader::Push(h) => PacketView::Push(
                PushView {
                    reserved: h.reserved,
                    command: h.command,
                    msg_type: h.msg_type,
                    body_len: h.body_len,
                    body,
                },
            ),
        }
    }

    /// Bytes a whole packet with this header takes: body length plus header size.
    pub fn need_bytes(&self) -> (n: usize)
        requires
            self.spec_need_bytes() <= usize::MAX,
        ensures
            n == self.spec_need_bytes(),
    {
        match self {
            PacketHeader::Request(r) => (r.body_len as usize) + REQUEST_HEADER_SIZE,
            PacketHeader::Response(r) => (r.body_len as usize) + RESPONSE_HEADER_SIZE,
            PacketHeader::Push(r) => (r.body_len as usize) + PUSH_HEADER_SIZE,
        }
    }
}

impl Packet {
    /// Request id of a request or response; 0 for a push.
    pub fn get_request_id(&self) -> (id: u32)
        ensures
            id == match self@ {
                PacketView::Request(r) => r.id,
                PacketView::Response(r) => r.id,
                PacketView::Push(_) => 0,
            },
    {
        match self {
            Packet::Request(v) => v.id,
            Packet::Response(v) => v.id,
            Packet::Push(_) => 0,
        }
    }

    /// Bytes the packet takes on the wire according to its body length field.
    pub fn total_bytes(&self) -> (n: usize)
        requires
            self@.total_bytes() <= usize::MAX,
        ensures
            n == self@.total_bytes(),
    {
        match self {
            Packet::Request(r) => (r.body_len as usize) + REQUEST_HEADER_SIZE,
            Packet::Response(r) => (r.body_len as usize) + RESPONSE_HEADER_SIZE,
            Packet::Push(r) => (r.body_len as usize) + PUSH_HEADER_SIZE,
        }
    }

    /// A request with the given command and body, the default timeout, the body's length, and
    /// as id the low 24 bits of the running request counter `counter`.
    pub fn new_request(cmd: Command, counter: u32, body: Vec<u8>) -> (p: Packet)
        ensures
            p@ == PacketView::Request(
                RequestView {
                    reserved: 0,
                    command: cmd,
                    id: (counter % 0x100_0000) as u32,
                    timeout: DEFAULT_REQUEST_TIMEOUT,
                    body_len: body@.len() as u32,
                    body: body@,
                },
            ),
    {
        let id = request_id_from_counter(counter);
        let body_len = body.len() as u32;
        Packet::Request(
            Request {
                reserved: 0,
                command: cmd,
                id,
                timeout: DEFAULT_REQUEST_TIMEOUT,
                body_len,
                body,
            },
        )
    }

    /// An authentication request carrying the encoded credentials `body`; its id is the low
    /// 24 bits of `counter`.
    pub fn new_auth(counter: u32, body: Vec<u8>) -> (p: Packet)
        ensures
            p@ == PacketView::Request(
                RequestView {
                    reserved: 0,
                    command: Command::Auth,
                    id: (counter % 0x100_0000) as u32,
                    timeout: DEFAULT_REQUEST_TIMEOUT,
                    body_len: body@.len() as u32,
                    body: body@,
                },
            ),
    {
        Packet::new_request(Command::Auth, counter, body)
    }

    /// A subscription request for `cmd` carrying the encoded subscription `body`; its id is the
    /// low 24 bits of `counter`.
    pub fn new_subscribe(cmd: Command, counter: u32, body: Vec<u8>) -> (p: Packet)
        ensures
            p@ == PacketView::Request(
                RequestView {
                    reserved: 0,
                    command: cmd,
                    id: (counter % 0x100_0000) as u32,
                    timeout: DEFAULT_REQUEST_TIMEOUT,
                    body_len: body@.len() as u32,
                    body: body@,
                },
            ),
    {
        Packet::new_request(cmd, counter, body)
    }

    /// A heartbeat request carrying the encoded heartbeat `body`; its id is the low 24 bits of
    /// `counter`.
    pub fn new_heartbeat(counter: u32, body: Vec<u8>) -> (p: Packet)
        ensures
            p@ == PacketView::Request(
                RequestView {
                    reserved: 0,
                    command: Command::Heartbeat,
                    id: (counter % 0x100_0000) as u32,
                    timeout: DEFAULT_REQUEST_TIMEOUT,
                    body_len: body@.len() as u32,
                    body: body@,
                },
            ),
    {
        Packet::new_request(Command::Heartbeat, counter, body)
    }

    /// A push of `msg_type` data for `cmd`, carrying the encoded quotation `body`.
    pub fn new_push(cmd: Command, msg_type: MsgType, body: Vec<u8>) -> (p: Packet)
        ensures
            p@ == PacketView::Push(
                PushView {
                    reserved: 0,
                    command: cmd,
                    msg_type,
                    body_len: body@.len() as u32,
                    body: body@,
                },
            ),
    {
        let body_len = body.len() as u32;
        Packet::Push(Push { reserved: 0, command: cmd, msg_type, body_len, body })
    }

    /// The successful answer to a heartbeat request: same id, the request's body echoed back.
    pub fn new_heartbeat_response(request: Request) -> (p: Packet)
        ensures
            p@ == PacketView::Response(
                ResponseView {
                    reserved: 0,
                    command: Command::Heartbeat,
                    id: request.id,
                    status: ResponseStatus::Success,
                    body_len: request.body@.len() as u32,
                    body: request.body@,
                },
            ),
    {
        let body_len = request.body.len() as u32;
        Packet::Response(
            Response {
                reserved: 0,
                command: Command::Heartbeat,
                id: request.id,
                status: ResponseStatus::Success,
                body_len,
                body: request.body,
            },
        )
    }
}

/// The 24-bit request id taken from a running counter: its low 24 bits.
pub fn request_id_from_counter(counter: u32) -> (id: u32)
    ensures
        id == counter % 0x100_0000,
        id < FIELD24_LIMIT,
{
    let id = counter & 0x00ff_ffff;
    assert(counter & 0x00ff_ffff == counter % 0x100_0000) by (bit_vector);
    id
}

} // verus!
