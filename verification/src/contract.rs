//! The orders and the questions that the controller takes.

use vstd::prelude::*;
use cosmwasm_std::CosmosMsg;
use cosmwasm_std::StdError;
use crate::chain::Env;
use crate::chain::MessageInfo;
use crate::coin::Coin;
use crate::coin::CoinView;
use crate::cosmwasm::execute_json;
use crate::cosmwasm::generic_err;
use crate::cosmwasm::generic_error;
use crate::cosmwasm::whitelist_execute_json;
use crate::error::outcome;
use crate::error::ContractError;
use crate::error::ContractErrorView;
use crate::ibc::packet_timeout;
use crate::ibc::timeout_fits;
use crate::ibc::PACKET_LIFETIME;
use crate::msg::AccountInfo;
use crate::msg::AccountResponse;
use crate::msg::AdminResponse;
use crate::msg::ExecuteMsg;
use crate::msg::InstantiateMsg;
use crate::msg::ListAccountsResponse;
use crate::msg::QueryMsg;
use crate::msg::QueryResponse;
use crate::msg::QueryResponseView;
use crate::registry::is_listing_of;
use crate::registry::lemma_listing_unique;
use crate::registry::Listing;
use crate::registry::Registry;
use crate::response::action;
use crate::response::IbcTimeout;
use crate::response::OutboundMsg;
use crate::response::OutboundMsgView;
use crate::response::PacketMsg;
use crate::response::PacketMsgView;
use crate::response::Response;
use crate::response::ResponseView;
use crate::state::AccountDataView;
use crate::state::AdminList;
use crate::state::AdminListView;
use crate::state::ControllerState;
use crate::state::ControllerStateView;

verus! {

/// The answer that sends `msg` and logs that `name` was done.
pub open spec fn sent(msg: OutboundMsgView, name: Seq<char>) -> ResponseView {
    ResponseView { messages: Seq::empty().push(msg), attributes: Seq::empty().push(action(name)) }
}

/// The answer that sends nothing and logs that `name` was done.
pub open spec fn done(name: Seq<char>) -> ResponseView {
    ResponseView { messages: Seq::empty(), attributes: Seq::empty().push(action(name)) }
}

/// The error for a caller who is no admin.
pub open spec fn only_admin() -> ContractErrorView {
    ContractErrorView::Std(generic_error("Only admin may send messages"@))
}

/// A copy of a list of addresses.
pub fn clone_addrs(addrs: &Vec<String>) -> (v: Vec<String>)
    ensures
        v.deep_view() == addrs.deep_view(),
{
    let mut v: Vec<String> = Vec::new();
    let mut i: usize = 0;
    while i < addrs.len()
        invariant
            i <= addrs.len(),
            v.len() == i,
            forall|j: int| 0 <= j < i ==> v[j]@ == addrs[j]@,
        decreases addrs.len() - i,
    {
        v.push(addrs[i].clone());
        i = i + 1;
    }
    assert(v.deep_view() =~= addrs.deep_view());
    v
}

/// The state that [`instantiate`] sets up.
pub open spec fn instantiate_state(sender: Seq<char>, admins: Seq<Seq<char>>, mutable: bool) -> ControllerStateView {
    ControllerStateView {
        admin: AdminListView { admins: admins.insert(0, sender), mutable },
        accounts: Map::empty(),
    }
}

/// Sets the controller up: the caller becomes the first admin, before those that
/// the message names, and there are no accounts. Fails where the chain turned an
/// address down.
pub fn instantiate(_env: &Env, info: MessageInfo, msg: InstantiateMsg) -> (r: Result<
    (ControllerState, Response),
    ContractError,
>)
    ensures
        match r {
            Ok((state, response)) => msg.admins matches Ok(admins) && state@ == instantiate_state(
                info.sender@,
                admins.deep_view(),
                msg.mutable,
            ) && response@ == done("instantiate"@),
            Err(e) => msg.admins matches Err(reason) && e@ == ContractErrorView::Std(reason),
        },
{
    let mut admins = match msg.admins {
        Ok(admins) => admins,
        Err(e) => {
            return Err(ContractError::Std(e));
        },
    };
    let ghost named = admins.deep_view();
    admins.insert(0, info.sender);
    assert(admins.deep_view() =~= named.insert(0, info.sender@));
    let state = ControllerState {
        admin: AdminList { admins, mutable: msg.mutable },
        accounts: Registry::new(),
    };
    Ok((state, Response::new().add_attribute("action", "instantiate")))
}

/// What [`self_call`] answers.
pub open spec fn self_call_result(env: Env, payload: Result<Seq<u8>, StdError>) -> Result<
    ResponseView,
    ContractErrorView,
> {
    match payload {
        Err(e) => Err(ContractErrorView::Std(e)),
        Ok(msg) => Ok(
            sent(
                OutboundMsgView::WasmExecute {
                    contract_addr: env.contract.address@,
                    msg,
                    funds: Seq::empty(),
                },
                "execute_cosmos_msg"@,
            ),
        ),
    }
}

/// The answer that calls the controller's own address with `payload` as the
/// message and without funds. Where the message could not be written, `payload`
/// holds the error, and the answer is that error.
pub fn self_call(env: &Env, payload: Result<Vec<u8>, StdError>) -> (r: Result<Response, ContractError>)
    ensures
        outcome(r) == self_call_result(
            *env,
            match payload {
                Ok(msg) => Ok(msg@),
                Err(e) => Err(e),
            },
        ),
{
    let msg = match payload {
        Ok(msg) => msg,
        Err(e) => {
            return Err(ContractError::Std(e));
        },
    };
    let funds: Vec<Coin> = Vec::new();
    assert(funds.deep_view() =~= Seq::<CoinView>::empty());
    let wasm_msg = OutboundMsg::WasmExecute { contract_addr: env.contract.address.clone(), msg, funds };
    Ok(Response::new().add_message(wasm_msg).add_attribute("action", "execute_cosmos_msg"))
}

/// What [`execute_cosmos_msgs`] answers.
pub open spec fn cosmos_msgs_result(
    state: ControllerStateView,
    env: Env,
    sender: Seq<char>,
    msgs: Seq<CosmosMsg>,
) -> Result<ResponseView, ContractErrorView> {
    if !state.admin.admins.contains(sender) {
        Err(only_admin())
    } else {
        self_call_result(env, execute_json(msgs))
    }
}

/// Forwards commands of an admin: the answer calls the controller's own address
/// with the commands wrapped in the order to execute of a whitelist, as
/// [`self_call`] does. Fails for a caller who is no admin and where the commands
/// have no JSON.
pub fn execute_cosmos_msgs(state: &ControllerState, env: &Env, info: MessageInfo, msgs: Vec<CosmosMsg>) -> (r:
    Result<Response, ContractError>)
    ensures
        outcome(r) == cosmos_msgs_result(state@, *env, info.sender@, msgs@),
{
    if !state.admin.is_admin(info.sender.as_str()) {
        return Err(ContractError::Std(generic_err("Only admin may send messages")));
    }
    self_call(env, whitelist_execute_json(msgs))
}

/// What [`execute_add_admins`] answers.
pub open spec fn add_admins_result(
    state: ControllerStateView,
    sender: Seq<char>,
    new_admins: Result<Vec<String>, StdError>,
) -> Result<ResponseView, ContractErrorView> {
    if !state.admin.admins.contains(sender) {
        Err(only_admin())
    } else {
        match new_admins {
            Err(e) => Err(ContractErrorView::Std(e)),
            Ok(_) => Ok(done("handle_update_admin"@)),
        }
    }
}

/// The state that [`execute_add_admins`] leaves.
pub open spec fn add_admins_state(
    state: ControllerStateView,
    sender: Seq<char>,
    new_admins: Result<Vec<String>, StdError>,
) -> ControllerStateView {
    match new_admins {
        Ok(addrs) if state.admin.admins.contains(sender) => ControllerStateView {
            admin: AdminListView {
                admins: state.admin.admins + addrs.deep_view(),
                mutable: state.admin.mutable,
            },
            accounts: state.accounts,
        },
        _ => state,
    }
}

/// Makes more addresses admins, behind those that are. Fails for a caller who is
/// no admin and, after that, where the chain turned an address down; the state is
/// then as it was.
pub fn execute_add_admins(
    state: &mut ControllerState,
    _env: &Env,
    info: MessageInfo,
    new_admins: Result<Vec<String>, StdError>,
) -> (r: Result<Response, ContractError>)
    ensures
        outcome(r) == add_admins_result(old(state)@, info.sender@, new_admins),
        final(state)@ == add_admins_state(old(state)@, info.sender@, new_admins),
{
    if !state.admin.is_admin(info.sender.as_str()) {
        return Err(ContractError::Std(generic_err("Only admin may send messages")));
    }
    let mut new_addrs = match new_admins {
        Ok(addrs) => addrs,
        Err(e) => {
            return Err(ContractError::Std(e));
        },
    };
    let ghost before = state.admin.admins.deep_view();
    let ghost added = new_addrs.deep_view();
    state.admin.admins.append(&mut new_addrs);
    assert(state.admin.admins.deep_view() =~= before + added);
    Ok(Response::new().add_attribute("action", "handle_update_admin"))
}

/// Whether `sender` may send a packet over `channel_id`: an admin may, over a
/// channel that has an account.
pub open spec fn may_send_packet(state: ControllerStateView, sender: Seq<char>, channel_id: Seq<char>) -> bool {
    state.admin.admins.contains(sender) && state.accounts.dom().contains(channel_id)
}

/// What an order to send a packet answers: [`execute_send_msgs`] with the
/// commands as `data`, [`execute_check_remote_balance`] with the question.
pub open spec fn send_packet_result(
    state: ControllerStateView,
    env: Env,
    sender: Seq<char>,
    channel_id: Seq<char>,
    data: PacketMsgView,
    name: Seq<char>,
) -> Result<ResponseView, ContractErrorView> {
    if !state.admin.admins.contains(sender) {
        Err(only_admin())
    } else if !state.accounts.dom().contains(channel_id) {
        Err(ContractErrorView::UnregisteredChannel(channel_id))
    } else {
        Ok(
            sent(
                OutboundMsgView::SendPacket { channel_id, data, timeout: packet_timeout(env.block.time) },
                name,
            ),
        )
    }
}

/// Has the account behind a channel run the commands of an admin: the answer
/// sends them in one packet that lives for [`PACKET_LIFETIME`]. Fails for a caller
/// who is no admin and, after that, for a channel without an account.
pub fn execute_send_msgs(
    state: &ControllerState,
    env: &Env,
    info: MessageInfo,
    channel_id: String,
    msgs: Vec<CosmosMsg>,
) -> (r: Result<Response, ContractError>)
    requires
        may_send_packet(state@, info.sender@, channel_id@) ==> timeout_fits(env.block.time),
    ensures
        r is Ok <==> may_send_packet(state@, info.sender@, channel_id@),
        outcome(r) == send_packet_result(
            state@,
            *env,
            info.sender@,
            channel_id@,
            PacketMsgView::Dispatch { msgs: msgs@ },
            "handle_send_msgs"@,
        ),
{
    if !state.admin.is_admin(info.sender.as_str()) {
        return Err(ContractError::Std(generic_err("Only admin may send messages")));
    }
    if !state.accounts.has(channel_id.as_str()) {
        return Err(ContractError::UnregisteredChannel(channel_id));
    }
    let packet = PacketMsg::Dispatch { msgs };
    let msg = OutboundMsg::SendPacket {
        channel_id,
        data: packet,
        timeout: IbcTimeout::with_timestamp(env.block.time.plus_seconds(PACKET_LIFETIME)),
    };
    Ok(Response::new().add_message(msg).add_attribute("action", "handle_send_msgs"))
}

/// Asks the account behind a channel what it holds: the answer sends the question
/// in a packet that lives for [`PACKET_LIFETIME`]. Fails for a caller who is no
/// admin and, after that, for a channel without an account.
pub fn execute_check_remote_balance(
    state: &ControllerState,
    env: &Env,
    info: MessageInfo,
    channel_id: String,
) -> (r: Result<Response, ContractError>)
    requires
        may_send_packet(state@, info.sender@, channel_id@) ==> timeout_fits(env.block.time),
    ensures
        r is Ok <==> may_send_packet(state@, info.sender@, channel_id@),
        outcome(r) == send_packet_result(
            state@,
            *env,
            info.sender@,
            channel_id@,
            PacketMsgView::Balances,
            "handle_check_remote_balance"@,
        ),
{
    if !state.admin.is_admin(info.sender.as_str()) {
        return Err(ContractError::Std(generic_err("Only admin may send messages")));
    }
    if !state.accounts.has(channel_id.as_str()) {
        return Err(ContractError::UnregisteredChannel(channel_id));
    }
    let packet = PacketMsg::Balances {  };
    let msg = OutboundMsg::SendPacket {
        channel_id,
        data: packet,
        timeout: IbcTimeout::with_timestamp(env.block.time.plus_seconds(PACKET_LIFETIME)),
    };
    Ok(Response::new().add_message(msg).add_attribute("action", "handle_check_remote_balance"))
}

/// Whether `funds` can be sent to the account behind `reflect_channel_id`: they
/// are one coin, and the account is there and has an address.
pub open spec fn may_send_funds(state: ControllerStateView, funds: Seq<CoinView>, reflect_channel_id: Seq<char>) -> bool {
    funds.len() == 1 && state.accounts.dom().contains(reflect_channel_id)
        && state.accounts[reflect_channel_id].remote_addr is Some
}

/// What [`execute_send_funds`] answers.
pub open spec fn send_funds_result(
    state: ControllerStateView,
    env: Env,
    funds: Seq<CoinView>,
    reflect_channel_id: Seq<char>,
    transfer_channel_id: Seq<char>,
) -> Result<ResponseView, ContractErrorView> {
    if funds.len() == 0 {
        Err(ContractErrorView::EmptyFund)
    } else if funds.len() > 1 {
        Err(ContractErrorView::TooManyCoins { coins: funds.drop_last() })
    } else if !state.accounts.dom().contains(reflect_channel_id) {
        Err(ContractErrorView::UnregisteredChannel(reflect_channel_id))
    } else {
        match state.accounts[reflect_channel_id].remote_addr {
            None => Err(ContractErrorView::RemoteAddrNotKnown(reflect_channel_id)),
            Some(remote_addr) => Ok(
                sent(
                    OutboundMsgView::Transfer {
                        channel_id: transfer_channel_id,
                        to_address: remote_addr,
                        amount: funds[0],
                        timeout: packet_timeout(env.block.time),
                    },
                    "handle_send_funds"@,
                ),
            ),
        }
    }
}

/// Sends the one coin that comes with the call to the account behind
/// `reflect_channel_id`, over `transfer_channel_id`. Any caller may do so. Fails
/// without a coin, with more than one, for a channel without an account, and for
/// an account whose address is not known yet, in this order.
pub fn execute_send_funds(
    state: &ControllerState,
    env: &Env,
    info: MessageInfo,
    reflect_channel_id: String,
    transfer_channel_id: String,
) -> (r: Result<Response, ContractError>)
    requires
        may_send_funds(state@, info.funds.deep_view(), reflect_channel_id@) ==> timeout_fits(env.block.time),
    ensures
        r is Ok <==> may_send_funds(state@, info.funds.deep_view(), reflect_channel_id@),
        outcome(r) == send_funds_result(
            state@,
            *env,
            info.funds.deep_view(),
            reflect_channel_id@,
            transfer_channel_id@,
        ),
{
    let mut funds = info.funds;
    let ghost all = funds.deep_view();
    let amount = match funds.pop() {
        Some(coin) => coin,
        None => {
            return Err(ContractError::EmptyFund {  });
        },
    };
    assert(funds.deep_view() =~= all.drop_last());
    assert(amount@ == all[all.len() - 1]);
    if !funds.is_empty() {
        return Err(ContractError::TooManyCoins { coins: funds });
    }
    let data = match state.accounts.may_load(reflect_channel_id.as_str()) {
        Some(data) => data,
        None => {
            return Err(ContractError::UnregisteredChannel(reflect_channel_id));
        },
    };
    let remote_addr = match data.remote_addr {
        Some(addr) => addr,
        None => {
            return Err(ContractError::RemoteAddrNotKnown(reflect_channel_id));
        },
    };
    let msg = OutboundMsg::Transfer {
        channel_id: transfer_channel_id,
        to_address: remote_addr,
        amount,
        timeout: IbcTimeout::with_timestamp(env.block.time.plus_seconds(PACKET_LIFETIME)),
    };
    Ok(Response::new().add_message(msg).add_attribute("action", "handle_send_funds"))
}

/// What [`execute`] answers.
pub open spec fn execute_result(state: ControllerStateView, env: Env, info: MessageInfo, msg: ExecuteMsg) -> Result<
    ResponseView,
    ContractErrorView,
> {
    match msg {
        ExecuteMsg::AddAdmins { new_admins } => add_admins_result(state, info.sender@, new_admins),
        ExecuteMsg::SendMsgs { channel_id, msgs } => send_packet_result(
            state,
            env,
            info.sender@,
            channel_id@,
            PacketMsgView::Dispatch { msgs: msgs@ },
            "handle_send_msgs"@,
        ),
        ExecuteMsg::CheckRemoteBalance { channel_id } => send_packet_result(
            state,
            env,
            info.sender@,
            channel_id@,
            PacketMsgView::Balances,
            "handle_check_remote_balance"@,
        ),
        ExecuteMsg::SendFunds { reflect_channel_id, transfer_channel_id } => send_funds_result(
            state,
            env,
            info.funds.deep_view(),
            reflect_channel_id@,
            transfer_channel_id@,
        ),
        ExecuteMsg::ExecuteCosmosMsg { msgs } => cosmos_msgs_result(state, env, info.sender@, msgs@),
    }
}

/// The state that [`execute`] leaves.
pub open spec fn execute_state(state: ControllerStateView, info: MessageInfo, msg: ExecuteMsg) -> ControllerStateView {
    match msg {
        ExecuteMsg::AddAdmins { new_admins } => add_admins_state(state, info.sender@, new_admins),
        _ => state,
    }
}

/// Whether an order sends something that lives for [`PACKET_LIFETIME`]: a packet
/// or funds, where the order is not turned down.
pub open spec fn sets_timeout(state: ControllerStateView, info: MessageInfo, msg: ExecuteMsg) -> bool {
    match msg {
        ExecuteMsg::SendMsgs { channel_id, .. } => may_send_packet(state, info.sender@, channel_id@),
        ExecuteMsg::CheckRemoteBalance { channel_id } => may_send_packet(state, info.sender@, channel_id@),
        ExecuteMsg::SendFunds { reflect_channel_id, .. } => may_send_funds(
            state,
            info.funds.deep_view(),
            reflect_channel_id@,
        ),
        _ => false,
    }
}

/// Tells whether an order sets a timeout, so that a caller can see beforehand
/// whether the time of the block matters to [`execute`].
pub fn will_set_timeout(state: &ControllerState, info: &MessageInfo, msg: &ExecuteMsg) -> (b: bool)
    ensures
        b == sets_timeout(state@, *info, *msg),
{
    match msg {
        ExecuteMsg::SendMsgs { channel_id, .. } => state.admin.is_admin(info.sender.as_str())
            && state.accounts.has(channel_id.as_str()),
        ExecuteMsg::CheckRemoteBalance { channel_id } => state.admin.is_admin(info.sender.as_str())
            && state.accounts.has(channel_id.as_str()),
        ExecuteMsg::SendFunds { reflect_channel_id, .. } => {
            assert(info.funds.deep_view().len() == info.funds.len());
            info.funds.len() == 1 && match state.accounts.may_load(reflect_channel_id.as_str()) {
                Some(account) => account.remote_addr.is_some(),
                None => false,
            }
        },
        _ => false,
    }
}

/// Carries an order out, by its kind. Only the order to add admins changes the state.
pub fn execute(state: &mut ControllerState, env: &Env, info: MessageInfo, msg: ExecuteMsg) -> (r: Result<
    Response,
    ContractError,
>)
    requires
        sets_timeout(old(state)@, info, msg) ==> timeout_fits(env.block.time),
    ensures
        outcome(r) == execute_result(old(state)@, *env, info, msg),
        final(state)@ == execute_state(old(state)@, info, msg),
{
    match msg {
        ExecuteMsg::AddAdmins { new_admins } => execute_add_admins(state, env, info, new_admins),
        ExecuteMsg::SendMsgs { channel_id, msgs } => execute_send_msgs(state, env, info, channel_id, msgs),
        ExecuteMsg::CheckRemoteBalance { channel_id } => execute_check_remote_balance(
            state,
            env,
            info,
            channel_id,
        ),
        ExecuteMsg::SendFunds { reflect_channel_id, transfer_channel_id } => execute_send_funds(
            state,
            env,
            info,
            reflect_channel_id,
            transfer_channel_id,
        ),
        ExecuteMsg::ExecuteCosmosMsg { msgs } => execute_cosmos_msgs(state, env, info, msgs),
    }
}

/// The one list of the accounts of `accounts` in the order of their channel ids.
pub open spec fn listing_of(accounts: Map<Seq<char>, AccountDataView>) -> Listing {
    choose|l: Listing| is_listing_of(l, accounts)
}

/// What [`query`] answers.
pub open spec fn query_result(state: ControllerStateView, msg: QueryMsg) -> Result<
    QueryResponseView,
    ContractErrorView,
> {
    match msg {
        QueryMsg::Admins {  } => Ok(QueryResponseView::Admins(state.admin.admins)),
        QueryMsg::Account { channel_id } => if state.accounts.dom().contains(channel_id@) {
            Ok(QueryResponseView::Account(state.accounts[channel_id@]))
        } else {
            Err(ContractErrorView::UnregisteredChannel(channel_id@))
        },
        QueryMsg::ListAccounts {  } => Ok(QueryResponseView::ListAccounts(listing_of(state.accounts))),
    }
}

/// Answers a question, by its kind.
pub fn query(state: &ControllerState, _env: &Env, msg: QueryMsg) -> (r: Result<QueryResponse, ContractError>)
    ensures
        outcome(r) == query_result(state@, msg),
{
    match msg {
        QueryMsg::Admins {  } => match query_admins(state) {
            Ok(response) => Ok(QueryResponse::Admins(response)),
            Err(e) => Err(e),
        },
        QueryMsg::Account { channel_id } => match query_account(state, channel_id) {
            Ok(response) => Ok(QueryResponse::Account(response)),
            Err(e) => Err(e),
        },
        QueryMsg::ListAccounts {  } => match query_list_accounts(state) {
            Ok(response) => Ok(QueryResponse::ListAccounts(response)),
            Err(e) => Err(e),
        },
    }
}

/// All that is known of the account behind a channel. Fails for a channel
/// without an account.
pub fn query_account(state: &ControllerState, channel_id: String) -> (r: Result<AccountResponse, ContractError>)
    ensures
        match r {
            Ok(response) => state@.accounts.dom().contains(channel_id@) && response@
                == state@.accounts[channel_id@],
            Err(e) => !state@.accounts.dom().contains(channel_id@) && e@
                == ContractErrorView::UnregisteredChannel(channel_id@),
        },
{
    match state.accounts.may_load(channel_id.as_str()) {
        Some(account) => Ok(AccountResponse::from(account)),
        None => Err(ContractError::UnregisteredChannel(channel_id)),
    }
}

/// All accounts with their channels, in the order of the channel ids.
pub fn query_list_accounts(state: &ControllerState) -> (r: Result<ListAccountsResponse, ContractError>)
    ensures
        r matches Ok(response) && is_listing_of(response.accounts.deep_view(), state@.accounts)
            && response.accounts.deep_view() == listing_of(state@.accounts),
{
    let entries = state.accounts.range();
    let mut accounts: Vec<AccountInfo> = Vec::new();
    let mut i: usize = 0;
    while i < entries.len()
        invariant
            i <= entries.len(),
            accounts.len() == i,
            forall|j: int| 0 <= j < i ==> (#[trigger] accounts[j])@ == entries[j].deep_view(),
        decreases entries.len() - i,
    {
        accounts.push(AccountInfo::convert(entries[i].0.clone(), entries[i].1.clone()));
        i = i + 1;
    }
    proof {
        assert(accounts.deep_view() =~= entries.deep_view());
        lemma_listing_unique(state@.accounts, accounts.deep_view(), listing_of(state@.accounts));
    }
    Ok(ListAccountsResponse { accounts })
}

/// The admins, the first of them first.
pub fn query_admins(state: &ControllerState) -> (r: Result<AdminResponse, ContractError>)
    ensures
        r matches Ok(response) && response.admins.deep_view() == state@.admin.admins,
{
    Ok(AdminResponse { admins: clone_addrs(&state.admin.admins) })
}

} // verus!
