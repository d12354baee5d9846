//! The life of a channel and the packets that travel over it.

use vstd::prelude::*;
use cosmwasm_std::CosmosMsg;
use crate::chain::Env;
use crate::chain::IbcChannelCloseMsg;
use crate::chain::IbcChannelConnectMsg;
use crate::chain::IbcChannelOpenMsg;
use crate::chain::IbcPacketAckMsg;
use crate::chain::IbcPacketReceiveMsg;
use crate::chain::IbcPacketTimeoutMsg;
use crate::chain::MessageInfo;
use crate::coin::Coin;
use crate::coin::CoinView;
use crate::contract::cosmos_msgs_result;
use crate::contract::execute_cosmos_msgs;
use crate::cosmwasm::bank_send;
use crate::cosmwasm::bank_send_msg;
use crate::error::outcome;
use crate::error::ContractError;
use crate::error::ContractErrorView;
use crate::error::SimpleIcaErrorView;
use crate::order::same_text;
use crate::packet::check_order;
use crate::packet::check_version;
use crate::packet::BalancesResponse;
use crate::packet::StdAck;
use crate::packet::APP_ORDER;
use crate::packet::IBC_APP_VERSION;
use crate::response::action;
use crate::response::Attribute;
use crate::response::AttributeView;
use crate::response::IbcBasicResponse;
use crate::response::IbcBasicResponseView;
use crate::response::IbcReceiveResponse;
use crate::response::IbcReceiveResponseView;
use crate::response::IbcTimeout;
use crate::response::OutboundMsg;
use crate::response::OutboundMsgView;
use crate::response::PacketMsg;
use crate::response::PacketMsgView;
use crate::response::Response;
use crate::response::ResponseView;
use crate::state::empty_account;
use crate::state::AccountData;
use crate::state::AccountDataView;
use crate::state::ControllerState;
use crate::state::ControllerStateView;
use crate::state::Timestamp;
use crate::state::NANOS_PER_SECOND;

verus! {

/// Packets live one hour.
pub const PACKET_LIFETIME: u64 = 60 * 60;

/// Whether a packet sent at `now` gets a timeout that a timestamp can hold.
pub open spec fn timeout_fits(now: Timestamp) -> bool {
    now.nanos + PACKET_LIFETIME * NANOS_PER_SECOND <= u64::MAX
}

/// The timeout of a packet sent at `now`: [`PACKET_LIFETIME`] later, at no height.
pub open spec fn packet_timeout(now: Timestamp) -> IbcTimeout {
    IbcTimeout {
        block: None,
        timestamp: Some(Timestamp { nanos: (now.nanos + PACKET_LIFETIME * NANOS_PER_SECOND) as u64 }),
    }
}

/// The answer to a step that logs that `name` was done, sends nothing and
/// forwards nothing.
pub open spec fn logged(name: Seq<char>) -> IbcBasicResponseView {
    IbcBasicResponseView {
        messages: Seq::empty(),
        attributes: Seq::empty().push(action(name)),
        forwarded: None,
    }
}

/// What is answered to a channel that is accepted: the version is left as proposed.
#[derive(Clone, Debug, PartialEq, Eq)]
pub struct Ibc3ChannelOpenResponse {
    pub version: String,
}

/// Why [`ibc_channel_open`] turns a channel down, if it does.
pub open spec fn channel_open_refusal(msg: IbcChannelOpenMsg) -> Option<SimpleIcaErrorView> {
    let channel = msg.spec_channel();
    if channel.order != APP_ORDER {
        Some(SimpleIcaErrorView::InvalidChannelOrder)
    } else if channel.version@ != IBC_APP_VERSION@ {
        Some(SimpleIcaErrorView::InvalidChannelVersion(IBC_APP_VERSION@))
    } else if msg.spec_counterparty_version() matches Some(version) && version != IBC_APP_VERSION@ {
        Some(SimpleIcaErrorView::InvalidChannelVersion(IBC_APP_VERSION@))
    } else {
        None
    }
}

/// Accepts a channel of the order and the version of the protocol, whose
/// counterparty, where it has named a version, has named that one. Changes nothing.
pub fn ibc_channel_open(_env: &Env, msg: IbcChannelOpenMsg) -> (r: Result<
    Option<Ibc3ChannelOpenResponse>,
    ContractError,
>)
    ensures
        match r {
            Ok(response) => response is None && channel_open_refusal(msg) is None,
            Err(e) => channel_open_refusal(msg) matches Some(reason) && e@ == ContractErrorView::SimpleIca(
                reason,
            ),
        },
{
    let channel = msg.channel();
    match check_order(&channel.order) {
        Ok(()) => {},
        Err(e) => {
            return Err(ContractError::SimpleIca(e));
        },
    }
    match check_version(channel.version.as_str()) {
        Ok(()) => {},
        Err(e) => {
            return Err(ContractError::SimpleIca(e));
        },
    }
    if let Some(counter_version) = msg.counterparty_version() {
        match check_version(counter_version) {
            Ok(()) => {},
            Err(e) => {
                return Err(ContractError::SimpleIca(e));
            },
        }
    }
    Ok(None)
}

/// What [`ibc_channel_connect`] answers.
pub open spec fn channel_connect_result(state: ControllerStateView, env: Env, channel_id: Seq<char>) -> Result<
    IbcBasicResponseView,
    ContractErrorView,
> {
    if state.accounts.dom().contains(channel_id) {
        Err(ContractErrorView::ChannelAlreadyBound(channel_id))
    } else {
        Ok(
            IbcBasicResponseView {
                messages: Seq::empty().push(
                    OutboundMsgView::SendPacket {
                        channel_id,
                        data: PacketMsgView::WhoAmI,
                        timeout: packet_timeout(env.block.time),
                    },
                ),
                attributes: Seq::empty().push(action("ibc_connect"@)).push(
                    AttributeView { key: "channel_id"@, value: channel_id },
                ),
                forwarded: None,
            },
        )
    }
}

/// The state that [`ibc_channel_connect`] leaves.
pub open spec fn channel_connect_state(state: ControllerStateView, channel_id: Seq<char>) -> ControllerStateView {
    if state.accounts.dom().contains(channel_id) {
        state
    } else {
        ControllerStateView {
            admin: state.admin,
            accounts: state.accounts.insert(channel_id, empty_account()),
        }
    }
}

/// Binds a channel that is now open: gives it an empty account and asks the remote
/// side, in a packet that lives for [`PACKET_LIFETIME`], which account it has set
/// up. Fails for a channel that has an account already, and then changes nothing.
pub fn ibc_channel_connect(state: &mut ControllerState, env: &Env, msg: IbcChannelConnectMsg) -> (r: Result<
    IbcBasicResponse,
    ContractError,
>)
    requires
        !old(state)@.accounts.dom().contains(msg.spec_channel().endpoint.channel_id@) ==> timeout_fits(
            env.block.time,
        ),
    ensures
        outcome(r) == channel_connect_result(old(state)@, *env, msg.spec_channel().endpoint.channel_id@),
        final(state)@ == channel_connect_state(old(state)@, msg.spec_channel().endpoint.channel_id@),
{
    let channel = msg.channel();
    let channel_id = &channel.endpoint.channel_id;
    if state.accounts.has(channel_id.as_str()) {
        return Err(ContractError::ChannelAlreadyBound(channel_id.clone()));
    }
    let data = AccountData::default();
    state.accounts.save(channel_id.clone(), data);

    let packet = PacketMsg::WhoAmI {  };
    let msg = OutboundMsg::SendPacket {
        channel_id: channel_id.clone(),
        data: packet,
        timeout: IbcTimeout::with_timestamp(env.block.time.plus_seconds(PACKET_LIFETIME)),
    };
    Ok(
        IbcBasicResponse::new().add_message(msg).add_attribute("action", "ibc_connect").add_attribute(
            "channel_id",
            channel_id.as_str(),
        ),
    )
}

/// What [`ibc_channel_close`] answers.
pub open spec fn channel_close_response(channel_id: Seq<char>) -> IbcBasicResponseView {
    IbcBasicResponseView {
        messages: Seq::empty(),
        attributes: Seq::empty().push(action("ibc_close"@)).push(
            AttributeView { key: "channel_id"@, value: channel_id },
        ),
        forwarded: None,
    }
}

/// Drops the account of a channel that is closed. A channel without an account
/// is closed all the same.
pub fn ibc_channel_close(state: &mut ControllerState, _env: &Env, msg: IbcChannelCloseMsg) -> (r: Result<
    IbcBasicResponse,
    ContractError,
>)
    ensures
        outcome(r) == Ok::<IbcBasicResponseView, ContractErrorView>(
            channel_close_response(msg.spec_channel().endpoint.channel_id@),
        ),
        final(state)@ == (ControllerStateView {
            admin: old(state)@.admin,
            accounts: old(state)@.accounts.remove(msg.spec_channel().endpoint.channel_id@),
        }),
{
    let channel = msg.channel();
    let channel_id = &channel.endpoint.channel_id;
    state.accounts.remove(channel_id.as_str());
    Ok(
        IbcBasicResponse::new().add_attribute("action", "ibc_close").add_attribute(
            "channel_id",
            channel_id.as_str(),
        ),
    )
}

/// Acknowledges a packet from the other side with an empty object. The other side
/// sends none: this is never called between two controllers of this protocol.
pub fn ibc_packet_receive(_env: &Env, _msg: IbcPacketReceiveMsg) -> (r: Result<IbcReceiveResponse, ContractError>)
    ensures
        r matches Ok(response) && response@ == (IbcReceiveResponseView {
            acknowledgement: seq![0x7bu8, 0x7du8],
            attributes: Seq::empty().push(action("ibc_packet_ack"@)),
        }),
{
    let mut acknowledgement: Vec<u8> = Vec::new();
    acknowledgement.push(0x7bu8);
    acknowledgement.push(0x7du8);
    let mut attributes: Vec<Attribute> = Vec::new();
    attributes.push(Attribute { key: "action".to_owned(), value: "ibc_packet_ack".to_owned() });
    assert(acknowledgement@ =~= seq![0x7bu8, 0x7du8]);
    assert(attributes.deep_view() =~= Seq::empty().push(action("ibc_packet_ack"@)));
    Ok(IbcReceiveResponse { acknowledgement, attributes })
}

/// The answer that logs a failure on the remote side and changes nothing.
pub open spec fn remote_failure(name: Seq<char>, reason: Seq<char>) -> IbcBasicResponseView {
    IbcBasicResponseView {
        messages: Seq::empty(),
        attributes: Seq::empty().push(action(name)).push(AttributeView { key: "error"@, value: reason }),
        forwarded: None,
    }
}

/// What [`acknowledge_who_am_i`] answers.
pub open spec fn who_am_i_result(state: ControllerStateView, caller: Seq<char>, ack: StdAck) -> Result<
    IbcBasicResponseView,
    ContractErrorView,
> {
    match ack {
        StdAck::Error(reason) => Ok(remote_failure("acknowledge_who_am_i"@, reason@)),
        StdAck::Result(data) => match data.who_am_i {
            Err(e) => Err(ContractErrorView::Std(e)),
            Ok(_) => if state.accounts.dom().contains(caller) {
                Ok(logged("acknowledge_who_am_i"@))
            } else {
                Err(ContractErrorView::UnregisteredChannel(caller))
            },
        },
    }
}

/// An account once the remote side has said that its address is `account`: the
/// first address that is told stays.
pub open spec fn with_first_addr(acct: AccountDataView, account: Seq<char>) -> AccountDataView {
    if acct.remote_addr is None {
        AccountDataView {
            last_update_time: acct.last_update_time,
            remote_addr: Some(account),
            remote_balance: acct.remote_balance,
        }
    } else {
        acct
    }
}

/// The state that [`acknowledge_who_am_i`] leaves.
pub open spec fn who_am_i_state(state: ControllerStateView, caller: Seq<char>, ack: StdAck) -> ControllerStateView {
    match ack {
        StdAck::Result(data) => match data.who_am_i {
            Ok(response) if state.accounts.dom().contains(caller) => ControllerStateView {
                admin: state.admin,
                accounts: state.accounts.insert(
                    caller,
                    with_first_addr(state.accounts[caller], response.account@),
                ),
            },
            _ => state,
        },
        StdAck::Error(_) => state,
    }
}

/// What the acknowledgement of any dispatch answers.
pub open spec fn dispatch_ack_response() -> IbcBasicResponseView {
    logged("acknowledge_dispatch"@)
}

/// Takes the acknowledgement of a dispatch: logs it, whatever the remote side
/// made of the commands.
pub fn acknowledge_dispatch(_caller: String, _ack: StdAck) -> (r: Result<IbcBasicResponse, ContractError>)
    ensures
        outcome(r) == Ok::<IbcBasicResponseView, ContractErrorView>(dispatch_ack_response()),
{
    Ok(IbcBasicResponse::new().add_attribute("action", "acknowledge_dispatch"))
}

/// Takes the answer to the question who the remote account is. An address is
/// stored for a channel that has none yet; one that is stored stays. A failure
/// on the remote side is logged. Fails where the answer could not be read and,
/// after that, for a channel without an account; the state is then as it was.
pub fn acknowledge_who_am_i(state: &mut ControllerState, caller: String, ack: StdAck) -> (r: Result<
    IbcBasicResponse,
    ContractError,
>)
    ensures
        outcome(r) == who_am_i_result(old(state)@, caller@, ack),
        final(state)@ == who_am_i_state(old(state)@, caller@, ack),
{
    let account = match ack {
        StdAck::Result(data) => match data.who_am_i {
            Ok(response) => response.account,
            Err(e) => {
                return Err(ContractError::Std(e));
            },
        },
        StdAck::Error(e) => {
            return Ok(
                IbcBasicResponse::new().add_attribute("action", "acknowledge_who_am_i").add_attribute(
                    "error",
                    e.as_str(),
                ),
            );
        },
    };
    match state.accounts.may_load(caller.as_str()) {
        Some(acct) => {
            let mut acct = acct;
            if acct.remote_addr.is_none() {
                acct.remote_addr = Some(account);
            }
            state.accounts.save(caller, acct);
        },
        None => {
            return Err(ContractError::UnregisteredChannel(caller));
        },
    }
    Ok(IbcBasicResponse::new().add_attribute("action", "acknowledge_who_am_i"))
}

/// Whether an account is known under another address than `account`.
pub open spec fn account_changed(acct: AccountDataView, account: Seq<char>) -> bool {
    acct.remote_addr matches Some(old) && old != account
}

/// The account that an answer on balances describes, taken at `now`.
pub open spec fn reported_account(now: Timestamp, response: BalancesResponse) -> AccountDataView {
    AccountDataView {
        last_update_time: now,
        remote_addr: Some(response.account@),
        remote_balance: response.balances.deep_view(),
    }
}

/// What [`forward_balances`] answers.
pub open spec fn forward_result(state: ControllerStateView, env: Env, balances: Seq<CoinView>) -> Result<
    ResponseView,
    ContractErrorView,
> {
    cosmos_msgs_result(
        state,
        env,
        env.contract.address@,
        Seq::empty().push(bank_send(env.contract.address@, balances)),
    )
}

/// Forwards to the controller itself, in the controller's own name and without
/// funds, the one command that pays `balances` to the controller's own address.
/// Fails where the controller is none of its own admins and where the command has
/// no JSON.
pub fn forward_balances(state: &ControllerState, env: &Env, balances: &Vec<Coin>) -> (r: Result<
    Response,
    ContractError,
>)
    ensures
        outcome(r) == forward_result(state@, *env, balances.deep_view()),
{
    let mut msgs: Vec<CosmosMsg> = Vec::new();
    msgs.push(bank_send_msg(env.contract.address.clone(), balances));
    let info = MessageInfo { sender: env.contract.address.clone(), funds: Vec::new() };
    assert(msgs@ =~= Seq::empty().push(bank_send(env.contract.address@, balances.deep_view())));
    execute_cosmos_msgs(state, env, info, msgs)
}

/// Why an answer on balances is turned down, if it is.
pub open spec fn balances_refusal(
    state: ControllerStateView,
    env: Env,
    caller: Seq<char>,
    response: BalancesResponse,
) -> Option<ContractErrorView> {
    if !state.accounts.dom().contains(caller) {
        Some(ContractErrorView::UnregisteredChannel(caller))
    } else if account_changed(state.accounts[caller], response.account@) {
        Some(
            ContractErrorView::RemoteAccountChanged {
                addr: response.account@,
                old: state.accounts[caller].remote_addr->0,
            },
        )
    } else if response.execute_callback && forward_result(state, env, response.balances.deep_view()) is Err {
        Some(forward_result(state, env, response.balances.deep_view())->Err_0)
    } else {
        None
    }
}

/// What [`acknowledge_balances`] answers.
pub open spec fn balances_result(state: ControllerStateView, env: Env, caller: Seq<char>, ack: StdAck) -> Result<
    IbcBasicResponseView,
    ContractErrorView,
> {
    match ack {
        StdAck::Error(reason) => Ok(remote_failure("acknowledge_balances"@, reason@)),
        StdAck::Result(data) => match data.balances {
            Err(e) => Err(ContractErrorView::Std(e)),
            Ok(response) => match balances_refusal(state, env, caller, response) {
                Some(e) => Err(e),
                None => Ok(
                    IbcBasicResponseView {
                        messages: Seq::empty(),
                        attributes: Seq::empty().push(action("acknowledge_balances"@)),
                        forwarded: if response.execute_callback {
                            Some(forward_result(state, env, response.balances.deep_view())->Ok_0)
                        } else {
                            None
                        },
                    },
                ),
            },
        },
    }
}

/// The state that [`acknowledge_balances`] leaves.
pub open spec fn balances_state(state: ControllerStateView, env: Env, caller: Seq<char>, ack: StdAck) -> ControllerStateView {
    match ack {
        StdAck::Result(data) => match data.balances {
            Ok(response) if balances_refusal(state, env, caller, response) is None => ControllerStateView {
                admin: state.admin,
                accounts: state.accounts.insert(caller, reported_account(env.block.time, response)),
            },
            _ => state,
        },
        StdAck::Error(_) => state,
    }
}

/// Takes the answer to the question what the remote account holds. The account
/// of the channel becomes what the answer says, as of the time of this block.
/// Where the answer asks for it, the controller forwards the balances to itself,
/// as [`forward_balances`] does, and tells what that call answered. A failure on
/// the remote side is logged.
///
/// Fails where the answer could not be read; for a channel without an account;
/// for an account known under another address; and where the forwarding fails,
/// in this order. The state is then as it was.
pub fn acknowledge_balances(state: &mut ControllerState, env: &Env, caller: String, ack: StdAck) -> (r: Result<
    IbcBasicResponse,
    ContractError,
>)
    ensures
        outcome(r) == balances_result(old(state)@, *env, caller@, ack),
        final(state)@ == balances_state(old(state)@, *env, caller@, ack),
{
    let response = match ack {
        StdAck::Result(data) => match data.balances {
            Ok(response) => response,
            Err(e) => {
                return Err(ContractError::Std(e));
            },
        },
        StdAck::Error(e) => {
            return Ok(
                IbcBasicResponse::new().add_attribute("action", "acknowledge_balances").add_attribute(
                    "error",
                    e.as_str(),
                ),
            );
        },
    };
    let BalancesResponse { account, balances, execute_callback } = response;
    match state.accounts.may_load(caller.as_str()) {
        Some(acct) => {
            if let Some(old) = acct.remote_addr {
                if !same_text(old.as_str(), account.as_str()) {
                    return Err(ContractError::RemoteAccountChanged { old, addr: account });
                }
            }
        },
        None => {
            return Err(ContractError::UnregisteredChannel(caller));
        },
    }
    let forwarded = if execute_callback {
        match forward_balances(state, env, &balances) {
            Ok(response) => Some(response),
            Err(e) => {
                return Err(e);
            },
        }
    } else {
        None
    };
    state.accounts.save(
        caller,
        AccountData { last_update_time: env.block.time, remote_addr: Some(account), remote_balance: balances },
    );
    Ok(IbcBasicResponse::new().add_attribute("action", "acknowledge_balances").set_forwarded(forwarded))
}

/// What [`ibc_packet_ack`] answers.
pub open spec fn packet_ack_result(state: ControllerStateView, env: Env, msg: IbcPacketAckMsg) -> Result<
    IbcBasicResponseView,
    ContractErrorView,
> {
    let caller = msg.original_packet.src.channel_id@;
    match msg.original_packet.data {
        Err(e) => Err(ContractErrorView::Std(e)),
        Ok(packet) => match msg.acknowledgement {
            Err(e) => Err(ContractErrorView::Std(e)),
            Ok(ack) => match packet {
                PacketMsg::Dispatch { .. } => Ok(dispatch_ack_response()),
                PacketMsg::WhoAmI {  } => who_am_i_result(state, caller, ack),
                PacketMsg::Balances {  } => balances_result(state, env, caller, ack),
            },
        },
    }
}

/// The state that [`ibc_packet_ack`] leaves.
pub open spec fn packet_ack_state(state: ControllerStateView, env: Env, msg: IbcPacketAckMsg) -> ControllerStateView {
    let caller = msg.original_packet.src.channel_id@;
    match (msg.original_packet.data, msg.acknowledgement) {
        (Ok(PacketMsg::WhoAmI {  }), Ok(ack)) => who_am_i_state(state, caller, ack),
        (Ok(PacketMsg::Balances {  }), Ok(ack)) => balances_state(state, env, caller, ack),
        _ => state,
    }
}

/// Takes the acknowledgement of a packet. The packet that it answers tells what
/// was asked, and so how the answer is to be taken; the channel that the packet
/// left from tells whose account it is about. Fails where the packet could not
/// be read and, after that, where the acknowledgement could not; the state is
/// then as it was.
pub fn ibc_packet_ack(state: &mut ControllerState, env: &Env, msg: IbcPacketAckMsg) -> (r: Result<
    IbcBasicResponse,
    ContractError,
>)
    ensures
        outcome(r) == packet_ack_result(old(state)@, *env, msg),
        final(state)@ == packet_ack_state(old(state)@, *env, msg),
{
    let caller = msg.original_packet.src.channel_id;
    let packet = match msg.original_packet.data {
        Ok(packet) => packet,
        Err(e) => {
            return Err(ContractError::Std(e));
        },
    };
    let ack = match msg.acknowledgement {
        Ok(ack) => ack,
        Err(e) => {
            return Err(ContractError::Std(e));
        },
    };
    match packet {
        PacketMsg::Dispatch { .. } => acknowledge_dispatch(caller, ack),
        PacketMsg::WhoAmI {  } => acknowledge_who_am_i(state, caller, ack),
        PacketMsg::Balances {  } => acknowledge_balances(state, env, caller, ack),
    }
}

/// Takes note that a packet was given up. Nothing is stored of it.
pub fn ibc_packet_timeout(_env: &Env, _msg: IbcPacketTimeoutMsg) -> (r: Result<IbcBasicResponse, ContractError>)
    ensures
        outcome(r) == Ok::<IbcBasicResponseView, ContractErrorView>(logged("ibc_packet_timeout"@)),
{
    Ok(IbcBasicResponse::new().add_attribute("action", "ibc_packet_timeout"))
}

} // verus!
