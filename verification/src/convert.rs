//! Sorting received packets for the quotation consumers.
use vstd::prelude::*;
use crate::framing::views;
use crate::packets::{Command, MsgType, Packet, PacketView, Push, PushView, Response, ResponseView};

verus! {

/// The kind of quotation a push body decodes to.
#[derive(Clone, Copy, Debug, PartialEq, Eq, Structural)]
pub enum QuotationKind {
    Trade,
    Price,
    Depth,
    Broker,
    KLine,
    OrderBook,
}

/// Which quotation a push of `msg_type` carries; unknown and market-info pushes carry none.
pub fn quotation_kind(msg_type: &MsgType) -> (k: Option<QuotationKind>)
    ensures
        k == match *msg_type {
            MsgType::Unknown => None,
            MsgType::Snapshot => Some(QuotationKind::Price),
            MsgType::Trade => Some(QuotationKind::Trade),
            MsgType::Depths => Some(QuotationKind::Depth),
            MsgType::Brokers => Some(QuotationKind::Broker),
            MsgType::MarketInfo => None,
            MsgType::OrderBookV2 => Some(QuotationKind::OrderBook),
            MsgType::Kline => Some(QuotationKind::KLine),
        },
{
    match msg_type {
        MsgType::Unknown => None,
        MsgType::Snapshot => Some(QuotationKind::Price),
        MsgType::Trade => Some(QuotationKind::Trade),
        MsgType::Depths => Some(QuotationKind::Depth),
        MsgType::Brokers => Some(QuotationKind::Broker),
        MsgType::MarketInfo => None,
        MsgType::OrderBookV2 => Some(QuotationKind::OrderBook),
        MsgType::Kline => Some(QuotationKind::KLine),
    }
}

/// The pushes among `ps`, in order.
pub open spec fn pushes_of(ps: Seq<PacketView>) -> Seq<PushView>
    decreases ps.len(),
{
    if ps.len() == 0 {
        seq![]
    } else {
        let rest = pushes_of(ps.drop_last());
        match ps.last() {
            PacketView::Push(p) => rest.push(p),
            _ => rest,
        }
    }
}

/// The status-notice responses among `ps`, in order.
pub open spec fn notices_of(ps: Seq<PacketView>) -> Seq<ResponseView>
    decreases ps.len(),
{
    if ps.len() == 0 {
        seq![]
    } else {
        let rest = notices_of(ps.drop_last());
        match ps.last() {
            PacketView::Response(r) => if r.command == Command::StatusNotify {
                rest.push(r)
            } else {
                rest
            },
            _ => rest,
        }
    }
}

/// The notices kept of a batch are exactly its `StatusNotify` responses, each once, in the
/// batch's order; every other packet is left out.
pub proof fn law_notices_are_the_status_notifies(ps: Seq<PacketView>)
    ensures
        notices_of(ps) == ps.filter(|p: PacketView| p matches PacketView::Response(r) && r.command == Command::StatusNotify).map_values(
            |p: PacketView| p->Response_0,
        ),
        forall|j: int|
            0 <= j < notices_of(ps).len() ==> #[trigger] notices_of(ps)[j].command
                == Command::StatusNotify,
    decreases ps.len(),
{
    reveal(Seq::filter);
    let f = |p: PacketView| p matches PacketView::Response(r) && r.command == Command::StatusNotify;
    let g = |p: PacketView| p->Response_0;
    if ps.len() == 0 {
        assert(ps.filter(f).map_values(g) =~= Seq::<ResponseView>::empty());
    } else {
        law_notices_are_the_status_notifies(ps.drop_last());
        let sub = ps.drop_last().filter(f);
        assert(ps.filter(f) == if f(ps.last()) {
            sub.push(ps.last())
        } else {
            sub
        });
        if f(ps.last()) {
            assert(sub.push(ps.last()).map_values(g) =~= sub.map_values(g).push(g(ps.last())));
        }
        assert(notices_of(ps) =~= ps.filter(f).map_values(g));
    }
}

/// The pushes kept of a batch are exactly its pushes, each once, in the batch's order.
pub proof fn law_pushes_are_the_pushes(ps: Seq<PacketView>)
    ensures
        pushes_of(ps) == ps.filter(|p: PacketView| p is Push).map_values(
            |p: PacketView| p->Push_0,
        ),
    decreases ps.len(),
{
    reveal(Seq::filter);
    let f = |p: PacketView| p is Push;
    let g = |p: PacketView| p->Push_0;
    if ps.len() == 0 {
        assert(ps.filter(f).map_values(g) =~= Seq::<PushView>::empty());
    } else {
        law_pushes_are_the_pushes(ps.drop_last());
        let sub = ps.drop_last().filter(f);
        assert(ps.filter(f) == if f(ps.last()) {
            sub.push(ps.last())
        } else {
            sub
        });
        if f(ps.last()) {
            assert(sub.push(ps.last()).map_values(g) =~= sub.map_values(g).push(g(ps.last())));
        }
        assert(pushes_of(ps) =~= ps.filter(f).map_values(g));
    }
}

/// Views of a sequence of pushes.
pub open spec fn push_views(ps: Seq<Push>) -> Seq<PushView> {
    ps.map_values(|p: Push| p@)
}

/// Views of a sequence of responses.
pub open spec fn response_views(rs: Seq<Response>) -> Seq<ResponseView> {
    rs.map_values(|r: Response| r@)
}

/// Sorts a batch of received packets: the pushes go on to the quotation consumers; of the
/// responses only status notices are kept, to be reported; requests are dropped.
pub fn split_pushes(packets: Vec<Packet>) -> (r: (Vec<Push>, Vec<Response>))
    ensures
        push_views(r.0@) == pushes_of(views(packets@)),
        response_views(r.1@) == notices_of(views(packets@)),
{
    let ghost input = views(packets@);
    let mut pushes: Vec<Push> = Vec::new();
    let mut notices: Vec<Response> = Vec::new();
    for packet in it: packets.into_iter()
        invariant
            views(it.seq()) == input,
            push_views(pushes@) == pushes_of(input.take(it.index())),
            response_views(notices@) == notices_of(input.take(it.index())),
    {
        let ghost i = it.index();
        let ghost pv = packet@;
        proof {
            assert(input.take(i + 1).drop_last() =~= input.take(i));
            assert(input.take(i + 1).last() == pv);
        }
        match packet {
            Packet::Request(_) => {},
            Packet::Response(response) => {
                if response.command == Command::StatusNotify {
                    notices.push(response);
                }
            },
            Packet::Push(push) => {
                pushes.push(push);
            },
        }
        proof {
            assert(push_views(pushes@) =~= pushes_of(input.take(i + 1)));
            assert(response_views(notices@) =~= notices_of(input.take(i + 1)));
        }
    }
    proof {
        assert(input.take(input.len() as int) =~= input);
    }
    (pushes, notices)
}

} // verus!
