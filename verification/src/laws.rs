//! What holds of the controller across calls.

use vstd::prelude::*;
use cosmwasm_std::CosmosMsg;
use crate::chain::Env;
use crate::chain::IbcPacketAckMsg;
use crate::chain::MessageInfo;
use crate::coin::CoinView;
use crate::contract::execute_result;
use crate::contract::execute_state;
use crate::contract::query_result;
use crate::contract::send_funds_result;
use crate::contract::send_packet_result;
use crate::contract::sent;
use crate::error::ContractErrorView;
use crate::ibc::balances_result;
use crate::ibc::balances_state;
use crate::ibc::channel_connect_result;
use crate::ibc::channel_connect_state;
use crate::ibc::forward_result;
use crate::ibc::packet_ack_result;
use crate::ibc::packet_ack_state;
use crate::ibc::packet_timeout;
use crate::ibc::who_am_i_result;
use crate::ibc::who_am_i_state;
use crate::msg::ExecuteMsg;
use crate::msg::QueryMsg;
use crate::msg::QueryResponseView;
use crate::packet::StdAck;
use crate::registry::ascending;
use crate::registry::is_listing_of;
use crate::registry::lemma_listing_unique;
use crate::registry::Listing;
use crate::response::action;
use crate::response::IbcBasicResponseView;
use crate::response::OutboundMsgView;
use crate::response::PacketMsg;
use crate::response::PacketMsgView;
use crate::response::ResponseView;
use crate::state::AccountDataView;
use crate::state::ControllerStateView;
use crate::state::Timestamp;

verus! {

/// A channel that is bound has, right after, an account without an address,
/// without a balance, and that was never updated.
pub proof fn law_bound_channel_has_empty_account(state: ControllerStateView, env: Env, channel_id: String)
    requires
        !state.accounts.dom().contains(channel_id@),
    ensures
        channel_connect_result(state, env, channel_id@) is Ok,
        query_result(channel_connect_state(state, channel_id@), QueryMsg::Account { channel_id }) == Ok::<
            QueryResponseView,
            ContractErrorView,
        >(
            QueryResponseView::Account(
                AccountDataView {
                    last_update_time: Timestamp { nanos: 0 },
                    remote_addr: None,
                    remote_balance: Seq::empty(),
                },
            ),
        ),
{
}

/// Of two answers to the question who the remote account is, the second changes
/// nothing: for a channel that had no address, the address of the first stays.
pub proof fn law_first_address_stays(state: ControllerStateView, caller: Seq<char>, first: StdAck, second: StdAck)
    requires
        state.accounts.dom().contains(caller),
        first matches StdAck::Result(data) && data.who_am_i is Ok,
        second matches StdAck::Result(data) && data.who_am_i is Ok,
    ensures
        who_am_i_result(state, caller, first) is Ok,
        who_am_i_result(who_am_i_state(state, caller, first), caller, second) is Ok,
        who_am_i_state(who_am_i_state(state, caller, first), caller, second) == who_am_i_state(
            state,
            caller,
            first,
        ),
        state.accounts[caller].remote_addr is None ==> who_am_i_state(
            who_am_i_state(state, caller, first),
            caller,
            second,
        ).accounts[caller].remote_addr == Some(first->Result_0.who_am_i->Ok_0.account@),
{
    let once = who_am_i_state(state, caller, first);
    let twice = who_am_i_state(once, caller, second);
    assert(twice.accounts =~= once.accounts);
}

/// An answer on balances for an account that is known under another address is
/// turned down, and the account stays as it was.
pub proof fn law_changed_account_is_refused(state: ControllerStateView, env: Env, caller: Seq<char>, ack: StdAck)
    requires
        state.accounts.dom().contains(caller),
        ack matches StdAck::Result(data) && data.balances matches Ok(response)
            && state.accounts[caller].remote_addr matches Some(old) && old != response.account@,
    ensures
        balances_result(state, env, caller, ack) == Err::<IbcBasicResponseView, ContractErrorView>(
            ContractErrorView::RemoteAccountChanged {
                addr: ack->Result_0.balances->Ok_0.account@,
                old: state.accounts[caller].remote_addr->0,
            },
        ),
        balances_state(state, env, caller, ack) == state,
{
}

/// The commands of an admin for a bound channel leave in one packet, and the
/// acknowledgement of that packet changes nothing and logs that it came.
pub proof fn law_dispatch_round_trip(
    state: ControllerStateView,
    env: Env,
    sender: Seq<char>,
    channel_id: Seq<char>,
    msgs: Seq<CosmosMsg>,
    ack: IbcPacketAckMsg,
)
    requires
        state.admin.admins.contains(sender),
        state.accounts.dom().contains(channel_id),
        ack.original_packet.data matches Ok(packet) && packet@ == (PacketMsgView::Dispatch { msgs }),
        ack.acknowledgement is Ok,
    ensures
        send_packet_result(
            state,
            env,
            sender,
            channel_id,
            PacketMsgView::Dispatch { msgs },
            "handle_send_msgs"@,
        ) == Ok::<ResponseView, ContractErrorView>(
            sent(
                OutboundMsgView::SendPacket {
                    channel_id,
                    data: PacketMsgView::Dispatch { msgs },
                    timeout: packet_timeout(env.block.time),
                },
                "handle_send_msgs"@,
            ),
        ),
        packet_ack_result(state, env, ack) == Ok::<IbcBasicResponseView, ContractErrorView>(
            IbcBasicResponseView {
                messages: Seq::empty(),
                attributes: Seq::empty().push(action("acknowledge_dispatch"@)),
                forwarded: None,
            },
        ),
        packet_ack_state(state, env, ack) == state,
{
}

/// Funds are sent only where exactly one coin comes with the call, to a channel
/// whose account has an address: no coin, more than one, a channel without an
/// account and an account without an address are each turned down for that reason.
pub proof fn law_send_funds(
    state: ControllerStateView,
    env: Env,
    funds: Seq<CoinView>,
    reflect_channel_id: Seq<char>,
    transfer_channel_id: Seq<char>,
)
    ensures
        funds.len() == 0 ==> send_funds_result(state, env, funds, reflect_channel_id, transfer_channel_id)
            == Err::<ResponseView, ContractErrorView>(ContractErrorView::EmptyFund),
        funds.len() >= 2 ==> send_funds_result(state, env, funds, reflect_channel_id, transfer_channel_id)
            is Err && send_funds_result(
            state,
            env,
            funds,
            reflect_channel_id,
            transfer_channel_id,
        )->Err_0 is TooManyCoins,
        funds.len() == 1 && !state.accounts.dom().contains(reflect_channel_id) ==> send_funds_result(
            state,
            env,
            funds,
            reflect_channel_id,
            transfer_channel_id,
        ) == Err::<ResponseView, ContractErrorView>(ContractErrorView::UnregisteredChannel(reflect_channel_id)),
        funds.len() == 1 && state.accounts.dom().contains(reflect_channel_id)
            && state.accounts[reflect_channel_id].remote_addr is Some ==> send_funds_result(
            state,
            env,
            funds,
            reflect_channel_id,
            transfer_channel_id,
        ) == Ok::<ResponseView, ContractErrorView>(
            sent(
                OutboundMsgView::Transfer {
                    channel_id: transfer_channel_id,
                    to_address: state.accounts[reflect_channel_id].remote_addr->0,
                    amount: funds[0],
                    timeout: packet_timeout(env.block.time),
                },
                "handle_send_funds"@,
            ),
        ),
        send_funds_result(state, env, funds, reflect_channel_id, transfer_channel_id) is Ok ==> funds.len() == 1
            && state.accounts.dom().contains(reflect_channel_id)
            && state.accounts[reflect_channel_id].remote_addr is Some,
{
}

/// The accounts are listed in the order of their channel ids, whatever the order
/// in which the channels were bound.
pub proof fn law_listing_ignores_order_of_binding(
    state: ControllerStateView,
    first: Seq<char>,
    second: Seq<char>,
    one: Listing,
    other: Listing,
)
    requires
        is_listing_of(one, channel_connect_state(channel_connect_state(state, first), second).accounts),
        is_listing_of(other, channel_connect_state(channel_connect_state(state, second), first).accounts),
    ensures
        one == other,
        ascending(one),
{
    let a = channel_connect_state(channel_connect_state(state, first), second).accounts;
    let b = channel_connect_state(channel_connect_state(state, second), first).accounts;
    assert(a =~= b);
    lemma_listing_unique(a, one, other);
}

/// An acknowledgement neither binds nor drops a channel, and never changes an
/// address that is known: it stays for as long as the channel has its account.
pub proof fn law_known_address_stays(state: ControllerStateView, env: Env, ack: IbcPacketAckMsg, channel_id: Seq<char>)
    ensures
        packet_ack_state(state, env, ack).accounts.dom() == state.accounts.dom(),
        packet_ack_state(state, env, ack).admin == state.admin,
        state.accounts.dom().contains(channel_id) && state.accounts[channel_id].remote_addr is Some
            ==> packet_ack_state(state, env, ack).accounts[channel_id].remote_addr
            == state.accounts[channel_id].remote_addr,
        channel_id != ack.original_packet.src.channel_id@ && state.accounts.dom().contains(channel_id)
            ==> packet_ack_state(state, env, ack).accounts[channel_id] == state.accounts[channel_id],
{
    assert(packet_ack_state(state, env, ack).accounts.dom() =~= state.accounts.dom());
}

/// A call that fails changes nothing.
pub proof fn law_failure_changes_nothing(
    state: ControllerStateView,
    env: Env,
    info: MessageInfo,
    order: ExecuteMsg,
    ack: IbcPacketAckMsg,
    channel_id: Seq<char>,
)
    ensures
        execute_result(state, env, info, order) is Err ==> execute_state(state, info, order) == state,
        packet_ack_result(state, env, ack) is Err ==> packet_ack_state(state, env, ack) == state,
        channel_connect_result(state, env, channel_id) is Err ==> channel_connect_state(state, channel_id)
            == state,
{
}

/// No order touches the accounts: they change with the channels and with the
/// acknowledgements alone.
pub proof fn law_orders_leave_accounts(state: ControllerStateView, info: MessageInfo, order: ExecuteMsg)
    ensures
        execute_state(state, info, order).accounts == state.accounts,
{
}

/// Whether a message asks the remote side of some channel which account it has set up.
pub open spec fn asks_who_am_i(msg: OutboundMsgView) -> bool {
    msg matches OutboundMsgView::SendPacket { data, .. } && data is WhoAmI
}

/// The question which account the remote side has set up is asked once for each
/// binding of a channel: when the channel is bound, and by nothing else. For as
/// long as the channel keeps its account, it cannot be bound again.
pub proof fn law_identity_is_asked_once(
    state: ControllerStateView,
    env: Env,
    later: Env,
    info: MessageInfo,
    order: ExecuteMsg,
    ack: IbcPacketAckMsg,
    channel_id: Seq<char>,
)
    ensures
        channel_connect_result(state, env, channel_id) matches Ok(response) ==> response.messages
            == Seq::empty().push(
            OutboundMsgView::SendPacket {
                channel_id,
                data: PacketMsgView::WhoAmI,
                timeout: packet_timeout(env.block.time),
            },
        ) && channel_connect_result(channel_connect_state(state, channel_id), later, channel_id) is Err,
        execute_result(state, env, info, order) matches Ok(response) ==> forall|i: int|
            0 <= i < response.messages.len() ==> !asks_who_am_i(#[trigger] response.messages[i]),
        packet_ack_result(state, env, ack) matches Ok(response) ==> response.messages.len() == 0,
{
}

/// Whether an acknowledgement reports a balance with the wish that it be forwarded.
pub open spec fn asks_to_forward(ack: IbcPacketAckMsg) -> bool {
    &&& ack.original_packet.data matches Ok(PacketMsg::Balances {  })
    &&& ack.acknowledgement matches Ok(StdAck::Result(data))
    &&& data.balances matches Ok(response)
    &&& response.execute_callback
}

/// The controller forwards to itself for one reason alone: a balance was reported
/// with the wish that it be forwarded. It then forwards that balance, once.
pub proof fn law_forwarding_is_asked_for(state: ControllerStateView, env: Env, ack: IbcPacketAckMsg)
    requires
        packet_ack_result(state, env, ack) is Ok,
    ensures
        packet_ack_result(state, env, ack)->Ok_0.forwarded is Some <==> asks_to_forward(ack),
        packet_ack_result(state, env, ack)->Ok_0.forwarded matches Some(answer) ==> Ok::<
            ResponseView,
            ContractErrorView,
        >(answer) == forward_result(
            state,
            env,
            ack.acknowledgement->Ok_0->Result_0.balances->Ok_0.balances.deep_view(),
        ),
{
}

} // verus!
