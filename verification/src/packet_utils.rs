//! Picking the body of a response that answers a given kind of request.
use vstd::prelude::*;
use crate::packets::{Command, Response};

verus! {

/// Commands answered by a subscription response.
pub open spec fn is_subscribe_command(c: Command) -> bool {
    c == Command::CmdSubAllType || c == Command::CmdSubOrderBook || c == Command::CmdSubTrades
        || c == Command::CmdSubBrokers || c == Command::CmdSubDepth || c == Command::CmdSubMarketInfo
}

/// Commands answered by an unsubscription response.
pub open spec fn is_unsubscribe_command(c: Command) -> bool {
    c == Command::CmdUnSubAllType || c == Command::CmdUnSubOrderBook || c == Command::CmdUnSubDepth
        || c == Command::CmdUnSubBrokers
}

/// The subscription commands are exactly `CmdSubAllType`, `CmdSubOrderBook`, `CmdSubTrades`,
/// `CmdSubBrokers`, `CmdSubDepth` and `CmdSubMarketInfo`; the unsubscription commands are
/// exactly `CmdUnSubAllType`, `CmdUnSubOrderBook`, `CmdUnSubDepth` and `CmdUnSubBrokers`.
/// No command is both, and none of the link's own commands is either.
pub proof fn law_subscription_commands()
    ensures
        is_subscribe_command(Command::CmdSubAllType),
        is_subscribe_command(Command::CmdSubOrderBook),
        is_subscribe_command(Command::CmdSubTrades),
        is_subscribe_command(Command::CmdSubBrokers),
        is_subscribe_command(Command::CmdSubDepth),
        is_subscribe_command(Command::CmdSubMarketInfo),
        is_unsubscribe_command(Command::CmdUnSubAllType),
        is_unsubscribe_command(Command::CmdUnSubOrderBook),
        is_unsubscribe_command(Command::CmdUnSubDepth),
        is_unsubscribe_command(Command::CmdUnSubBrokers),
        forall|c: Command|
            #[trigger] is_subscribe_command(c) ==> !is_unsubscribe_command(c),
        forall|c: Command|
            (c == Command::Auth || c == Command::Heartbeat || c == Command::Close || c
                == Command::Reconnect || c == Command::StatusNotify) ==> !is_subscribe_command(c)
                && !is_unsubscribe_command(c),
{
}

/// The body of a subscription response; the response's command when it is no subscription.
pub fn subscribe_response_body(response: Response) -> (r: Result<Vec<u8>, Command>)
    ensures
        is_subscribe_command(response.command) ==> (r matches Ok(b) && b@ == response.body@),
        !is_subscribe_command(response.command) ==> r == Err::<Vec<u8>, Command>(response.command),
{
    match response.command {
        Command::CmdSubAllType | Command::CmdSubOrderBook | Command::CmdSubTrades
        | Command::CmdSubBrokers | Command::CmdSubDepth | Command::CmdSubMarketInfo => Ok(response.body),
        _ => Err(response.command),
    }
}

/// The body of an authentication response; the response's command when it is not `Auth`.
pub fn auth_response_body(response: Response) -> (r: Result<Vec<u8>, Command>)
    ensures
        response.command == Command::Auth ==> (r matches Ok(b) && b@ == response.body@),
        response.command != Command::Auth ==> r == Err::<Vec<u8>, Command>(response.command),
{
    match response.command {
        Command::Auth => Ok(response.body),
        _ => Err(response.command),
    }
}

/// The body of an unsubscription response; the response's command when it is no unsubscription.
pub fn unsubscribe_response_body(response: Response) -> (r: Result<Vec<u8>, Command>)
    ensures
        is_unsubscribe_command(response.command) ==> (r matches Ok(b) && b@ == response.body@),
        !is_unsubscribe_command(response.command) ==> r == Err::<Vec<u8>, Command>(response.command),
{
    match response.command {
        Command::CmdUnSubAllType | Command::CmdUnSubOrderBook | Command::CmdUnSubDepth
        | Command::CmdUnSubBrokers => Ok(response.body),
        _ => Err(response.command),
    }
}

} // verus!
