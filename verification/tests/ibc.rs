use cosmwasm_std::{BankMsg, CosmosMsg, StdError};
use simple_ica_controller::chain::{
    BlockInfo, ContractInfo, Env, IbcChannel, IbcChannelCloseMsg, IbcChannelConnectMsg,
    IbcChannelOpenMsg, IbcEndpoint, IbcPacket, IbcPacketAckMsg, IbcPacketReceiveMsg,
    IbcPacketTimeoutMsg, MessageInfo,
};
use simple_ica_controller::coin::{coin, coins, Coin};
use simple_ica_controller::contract::{execute, instantiate, query};
use simple_ica_controller::error::{ContractError, SimpleIcaError};
use simple_ica_controller::ibc::{
    acknowledge_balances, acknowledge_dispatch, acknowledge_who_am_i, forward_balances,
    ibc_channel_close, ibc_channel_connect, ibc_channel_open, ibc_packet_ack, ibc_packet_receive,
    ibc_packet_timeout, PACKET_LIFETIME,
};
use simple_ica_controller::msg::{AccountResponse, ExecuteMsg, InstantiateMsg, QueryMsg, QueryResponse};
use simple_ica_controller::packet::{
    AckData, BalancesResponse, IbcOrder, StdAck, WhoAmIResponse, APP_ORDER, BAD_APP_ORDER,
    IBC_APP_VERSION,
};
use simple_ica_controller::response::{
    Attribute, IbcTimeout, IbcTimeoutBlock, OutboundMsg, PacketMsg, Response,
};
use simple_ica_controller::state::{ControllerState, Timestamp};

const CREATOR: &str = "creator";
const MOCK_CONTRACT_ADDR: &str = "cosmos2contract";

fn mock_env() -> Env {
    Env {
        block: BlockInfo {
            height: 12_345,
            time: Timestamp::from_nanos(1_571_797_419_879_305_533),
            chain_id: "cosmos-testnet-14002".to_string(),
        },
        contract: ContractInfo { address: MOCK_CONTRACT_ADDR.to_string() },
    }
}

fn mock_info(sender: &str, funds: &[Coin]) -> MessageInfo {
    MessageInfo { sender: sender.to_string(), funds: funds.to_vec() }
}

fn mock_ibc_channel(my_channel_id: &str, order: IbcOrder, version: &str) -> IbcChannel {
    IbcChannel {
        endpoint: IbcEndpoint { port_id: "my_port".to_string(), channel_id: my_channel_id.to_string() },
        counterparty_endpoint: IbcEndpoint {
            port_id: "their_port".to_string(),
            channel_id: "channel-7".to_string(),
        },
        order,
        version: version.to_string(),
        connection_id: "connection-2".to_string(),
    }
}

fn mock_ibc_channel_open_init(my_channel_id: &str, order: IbcOrder, version: &str) -> IbcChannelOpenMsg {
    IbcChannelOpenMsg::OpenInit { channel: mock_ibc_channel(my_channel_id, order, version) }
}

fn mock_ibc_channel_open_try(my_channel_id: &str, order: IbcOrder, version: &str) -> IbcChannelOpenMsg {
    IbcChannelOpenMsg::OpenTry {
        channel: mock_ibc_channel(my_channel_id, order, version),
        counterparty_version: version.to_string(),
    }
}

fn mock_ibc_channel_connect_ack(my_channel_id: &str, order: IbcOrder, version: &str) -> IbcChannelConnectMsg {
    IbcChannelConnectMsg::OpenAck {
        channel: mock_ibc_channel(my_channel_id, order, version),
        counterparty_version: version.to_string(),
    }
}

fn mock_ibc_packet(my_channel_id: &str, data: Result<PacketMsg, StdError>) -> IbcPacket {
    IbcPacket {
        data,
        src: IbcEndpoint { port_id: "their-port".to_string(), channel_id: my_channel_id.to_string() },
        dest: IbcEndpoint { port_id: "our-port".to_string(), channel_id: "channel-1234".to_string() },
        sequence: 29,
        timeout: IbcTimeout {
            block: Some(IbcTimeoutBlock { revision: 1, height: 432332552 }),
            timestamp: None,
        },
    }
}

fn mock_ibc_packet_ack(
    my_channel_id: &str,
    data: Result<PacketMsg, StdError>,
    ack: Result<StdAck, StdError>,
) -> IbcPacketAckMsg {
    IbcPacketAckMsg { acknowledgement: ack, original_packet: mock_ibc_packet(my_channel_id, data) }
}

fn unreadable(target: &str) -> StdError {
    StdError::parse_err(target, "missing field")
}

/// A success acknowledgement whose payload reads as an answer to `WhoAmI` only.
fn who_am_i_success(account: &str) -> StdAck {
    StdAck::Result(AckData {
        who_am_i: Ok(WhoAmIResponse { account: account.to_string() }),
        balances: Err(unreadable("BalancesResponse")),
    })
}

/// A success acknowledgement whose payload reads as an answer to `Balances`, and so,
/// by its field `account`, as an answer to `WhoAmI` too.
fn balances_success(account: &str, balances: Vec<Coin>, execute_callback: bool) -> StdAck {
    StdAck::Result(AckData {
        who_am_i: Ok(WhoAmIResponse { account: account.to_string() }),
        balances: Ok(BalancesResponse { account: account.to_string(), balances, execute_callback }),
    })
}

/// A success acknowledgement whose payload is `null`, as a dispatch is answered.
fn empty_success() -> StdAck {
    StdAck::Result(AckData {
        who_am_i: Err(unreadable("WhoAmIResponse")),
        balances: Err(unreadable("BalancesResponse")),
    })
}

fn setup() -> ControllerState {
    let msg = InstantiateMsg { admins: Ok(vec!["abcde".to_string()]), mutable: true };
    let info = mock_info(CREATOR, &[]);
    let (state, res) = instantiate(&mock_env(), info, msg).unwrap();
    assert_eq!(0, res.messages.len());
    state
}

// connect will run through the entire handshake to set up a proper connect and
// save the account (tested in detail in `proper_handshake_flow`)
fn connect(state: &mut ControllerState, channel_id: &str) {
    let handshake_open = mock_ibc_channel_open_init(channel_id, APP_ORDER, IBC_APP_VERSION);
    // first we try to open with a valid handshake
    ibc_channel_open(&mock_env(), handshake_open).unwrap();

    // then we connect (with counter-party version set)
    let handshake_connect = mock_ibc_channel_connect_ack(channel_id, APP_ORDER, IBC_APP_VERSION);
    let res = ibc_channel_connect(state, &mock_env(), handshake_connect).unwrap();

    // this should send a WhoAmI request, which is received some blocks later
    assert_eq!(1, res.messages.len());
    match &res.messages[0] {
        OutboundMsg::SendPacket { channel_id: packet_channel, .. } => {
            assert_eq!(packet_channel.as_str(), channel_id)
        }
        o => panic!("Unexpected message: {:?}", o),
    };
}

fn who_am_i_response(state: &mut ControllerState, channel_id: &str, account: &str) {
    let packet = PacketMsg::WhoAmI {};
    let msg = mock_ibc_packet_ack(channel_id, Ok(packet), Ok(who_am_i_success(account)));
    let res = ibc_packet_ack(state, &mock_env(), msg).unwrap();
    assert_eq!(0, res.messages.len());
}

fn account_of(state: &ControllerState, channel_id: &str) -> AccountResponse {
    let q = QueryMsg::Account { channel_id: channel_id.into() };
    match query(state, &mock_env(), q).unwrap() {
        QueryResponse::Account(acct) => acct,
        o => panic!("Unexpected answer: {:?}", o),
    }
}

fn action(name: &str) -> Attribute {
    Attribute { key: "action".to_string(), value: name.to_string() }
}

#[test]
fn enforce_version_in_handshake() {
    let _state = setup();

    let wrong_order = mock_ibc_channel_open_try("channel-12", BAD_APP_ORDER, IBC_APP_VERSION);
    ibc_channel_open(&mock_env(), wrong_order).unwrap_err();

    let wrong_version = mock_ibc_channel_open_try("channel-12", APP_ORDER, "reflect");
    ibc_channel_open(&mock_env(), wrong_version).unwrap_err();

    let valid_handshake = mock_ibc_channel_open_try("channel-12", APP_ORDER, IBC_APP_VERSION);
    ibc_channel_open(&mock_env(), valid_handshake).unwrap();
}

#[test]
fn proper_handshake_flow() {
    // setup and connect handshake
    let mut state = setup();
    let channel_id = "channel-1234";
    connect(&mut state, channel_id);

    // check for empty account
    let acct = account_of(&state, channel_id);
    assert!(acct.remote_addr.is_none());
    assert!(acct.remote_balance.is_empty());
    assert_eq!(0, acct.last_update_time.nanos());

    // now get feedback from WhoAmI packet
    let remote_addr = "account-789";
    who_am_i_response(&mut state, channel_id, remote_addr);

    // account should be set up
    let acct = account_of(&state, channel_id);
    assert_eq!(acct.remote_addr.unwrap(), remote_addr);
    assert!(acct.remote_balance.is_empty());
    assert_eq!(0, acct.last_update_time.nanos());
}

#[test]
fn dispatch_message_send_and_ack() {
    let channel_id = "channel-1234";
    let remote_addr = "account-789";

    // init contract
    let mut state = setup();
    // channel handshake
    connect(&mut state, channel_id);
    // get feedback from WhoAmI packet
    who_am_i_response(&mut state, channel_id, remote_addr);

    // try to dispatch a message
    let msgs_to_dispatch: Vec<CosmosMsg> = vec![BankMsg::Send {
        to_address: "my-friend".into(),
        amount: cosmwasm_std::coins(123456789, "uatom"),
    }
    .into()];
    let handle_msg = ExecuteMsg::SendMsgs { channel_id: channel_id.into(), msgs: msgs_to_dispatch.clone() };
    let info = mock_info(CREATOR, &[]);
    let mut res = execute(&mut state, &mock_env(), info, handle_msg).unwrap();
    assert_eq!(1, res.messages.len());
    let msg = match res.messages.swap_remove(0) {
        OutboundMsg::SendPacket { channel_id, data, .. } => {
            assert_eq!(data, PacketMsg::Dispatch { msgs: msgs_to_dispatch });
            let mut msg = mock_ibc_packet_ack(&channel_id, Err(unreadable("PacketMsg")), Ok(empty_success()));
            msg.original_packet.data = Ok(data);
            msg
        }
        o => panic!("Unexpected message: {:?}", o),
    };
    let res = ibc_packet_ack(&mut state, &mock_env(), msg).unwrap();
    // no actions expected, but let's check the events to see it was dispatched properly
    assert_eq!(0, res.messages.len());
    assert_eq!(vec![action("acknowledge_dispatch")], res.attributes)
}

#[test]
fn send_remote_funds() {
    let reflect_channel_id = "channel-1234";
    let remote_addr = "account-789";
    let transfer_channel_id = "transfer-2";

    // init contract
    let mut state = setup();
    // channel handshake
    connect(&mut state, reflect_channel_id);
    // get feedback from WhoAmI packet
    who_am_i_response(&mut state, reflect_channel_id, remote_addr);

    // let's try to send funds to a channel that doesn't exist
    let msg = ExecuteMsg::SendFunds {
        reflect_channel_id: "random-channel".into(),
        transfer_channel_id: transfer_channel_id.into(),
    };
    let info = mock_info(CREATOR, &coins(12344, "utrgd"));
    execute(&mut state, &mock_env(), info, msg).unwrap_err();

    // let's try with no sent funds in the message
    let msg = ExecuteMsg::SendFunds {
        reflect_channel_id: reflect_channel_id.into(),
        transfer_channel_id: transfer_channel_id.into(),
    };
    let info = mock_info(CREATOR, &[]);
    execute(&mut state, &mock_env(), info, msg).unwrap_err();

    // 3rd times the charm
    let msg = ExecuteMsg::SendFunds {
        reflect_channel_id: reflect_channel_id.into(),
        transfer_channel_id: transfer_channel_id.into(),
    };
    let info = mock_info(CREATOR, &coins(12344, "utrgd"));
    let res = execute(&mut state, &mock_env(), info, msg).unwrap();
    assert_eq!(1, res.messages.len());
    match &res.messages[0] {
        OutboundMsg::Transfer { channel_id, to_address, amount, timeout } => {
            assert_eq!(transfer_channel_id, channel_id.as_str());
            assert_eq!(remote_addr, to_address.as_str());
            assert_eq!(&coin(12344, "utrgd"), amount);
            assert!(timeout.block().is_none());
            assert!(timeout.timestamp().is_some());
        }
        o => panic!("unexpected message: {:?}", o),
    }
}

#[test]
fn handshake_names_the_reason_of_a_refusal() {
    let wrong_order = mock_ibc_channel_open_init("channel-12", IbcOrder::Ordered, IBC_APP_VERSION);
    assert_eq!(
        ibc_channel_open(&mock_env(), wrong_order).unwrap_err(),
        ContractError::SimpleIca(SimpleIcaError::InvalidChannelOrder)
    );

    let wrong_version = mock_ibc_channel_open_init("channel-12", IbcOrder::Unordered, "simple-ica-v");
    assert_eq!(
        ibc_channel_open(&mock_env(), wrong_version).unwrap_err(),
        ContractError::SimpleIca(SimpleIcaError::InvalidChannelVersion(IBC_APP_VERSION))
    );

    // the channel is fine, the other side names another version
    let wrong_counterparty = IbcChannelOpenMsg::OpenTry {
        channel: mock_ibc_channel("channel-12", APP_ORDER, IBC_APP_VERSION),
        counterparty_version: "reflect".to_string(),
    };
    assert_eq!(
        ibc_channel_open(&mock_env(), wrong_counterparty).unwrap_err(),
        ContractError::SimpleIca(SimpleIcaError::InvalidChannelVersion(IBC_APP_VERSION))
    );

    // a wrong order is named before a wrong version
    let both_wrong = mock_ibc_channel_open_try("channel-12", BAD_APP_ORDER, "reflect");
    assert_eq!(
        ibc_channel_open(&mock_env(), both_wrong).unwrap_err(),
        ContractError::SimpleIca(SimpleIcaError::InvalidChannelOrder)
    );

    let valid = mock_ibc_channel_open_init("channel-12", APP_ORDER, IBC_APP_VERSION);
    assert_eq!(ibc_channel_open(&mock_env(), valid).unwrap(), None);
}

#[test]
fn connect_sends_one_identity_request_that_lives_an_hour() {
    let mut state = setup();
    let handshake = mock_ibc_channel_connect_ack("channel-5", APP_ORDER, IBC_APP_VERSION);
    let res = ibc_channel_connect(&mut state, &mock_env(), handshake).unwrap();
    assert_eq!(3600, PACKET_LIFETIME);
    assert_eq!(
        res.messages,
        vec![OutboundMsg::SendPacket {
            channel_id: "channel-5".to_string(),
            data: PacketMsg::WhoAmI {},
            timeout: IbcTimeout {
                block: None,
                timestamp: Some(Timestamp::from_nanos(1_571_801_019_879_305_533)),
            },
        }]
    );
    assert_eq!(
        res.attributes,
        vec![
            action("ibc_connect"),
            Attribute { key: "channel_id".to_string(), value: "channel-5".to_string() }
        ]
    );
}

#[test]
fn a_channel_is_bound_once() {
    let mut state = setup();
    connect(&mut state, "channel-5");
    who_am_i_response(&mut state, "channel-5", "account-1");

    let again = IbcChannelConnectMsg::OpenConfirm {
        channel: mock_ibc_channel("channel-5", APP_ORDER, IBC_APP_VERSION),
    };
    assert_eq!(
        ibc_channel_connect(&mut state, &mock_env(), again).unwrap_err(),
        ContractError::ChannelAlreadyBound("channel-5".to_string())
    );
    // the account is as it was
    assert_eq!(account_of(&state, "channel-5").remote_addr.unwrap(), "account-1");
}

#[test]
fn close_drops_the_account_and_may_be_repeated() {
    let mut state = setup();
    connect(&mut state, "channel-5");
    connect(&mut state, "channel-6");

    let close = IbcChannelCloseMsg::CloseInit {
        channel: mock_ibc_channel("channel-5", APP_ORDER, IBC_APP_VERSION),
    };
    let res = ibc_channel_close(&mut state, &mock_env(), close.clone()).unwrap();
    assert_eq!(0, res.messages.len());
    assert_eq!(
        res.attributes,
        vec![
            action("ibc_close"),
            Attribute { key: "channel_id".to_string(), value: "channel-5".to_string() }
        ]
    );
    assert!(!state.accounts.has("channel-5"));
    assert!(state.accounts.has("channel-6"));

    // closing a channel that has no account is no error
    ibc_channel_close(&mut state, &mock_env(), close).unwrap();
    let confirm = IbcChannelCloseMsg::CloseConfirm {
        channel: mock_ibc_channel("never-bound", APP_ORDER, IBC_APP_VERSION),
    };
    ibc_channel_close(&mut state, &mock_env(), confirm).unwrap();
    assert!(state.accounts.has("channel-6"));

    // a closed channel can be bound again, and starts empty
    connect(&mut state, "channel-5");
    assert!(account_of(&state, "channel-5").remote_addr.is_none());
}

#[test]
fn first_identity_wins() {
    let mut state = setup();
    connect(&mut state, "channel-1");
    who_am_i_response(&mut state, "channel-1", "account-a");
    who_am_i_response(&mut state, "channel-1", "account-b");
    assert_eq!(account_of(&state, "channel-1").remote_addr.unwrap(), "account-a");
}

#[test]
fn identity_for_a_channel_without_account_is_refused() {
    let mut state = setup();
    let err = acknowledge_who_am_i(&mut state, "channel-9".to_string(), who_am_i_success("account-a")).unwrap_err();
    assert_eq!(err, ContractError::UnregisteredChannel("channel-9".to_string()));
    assert!(!state.accounts.has("channel-9"));
}

#[test]
fn remote_failures_are_logged_and_change_nothing() {
    let mut state = setup();
    connect(&mut state, "channel-1");

    let res = acknowledge_who_am_i(&mut state, "channel-1".to_string(), StdAck::Error("boom".to_string())).unwrap();
    assert_eq!(0, res.messages.len());
    assert_eq!(
        res.attributes,
        vec![
            action("acknowledge_who_am_i"),
            Attribute { key: "error".to_string(), value: "boom".to_string() }
        ]
    );

    let res =
        acknowledge_balances(&mut state, &mock_env(), "channel-1".to_string(), StdAck::Error("bust".to_string()))
            .unwrap();
    assert_eq!(0, res.messages.len());
    assert_eq!(
        res.attributes,
        vec![
            action("acknowledge_balances"),
            Attribute { key: "error".to_string(), value: "bust".to_string() }
        ]
    );

    // a failure is logged for a channel without an account too
    acknowledge_who_am_i(&mut state, "nowhere".to_string(), StdAck::Error("boom".to_string())).unwrap();
    acknowledge_balances(&mut state, &mock_env(), "nowhere".to_string(), StdAck::Error("bust".to_string()))
        .unwrap();

    let acct = account_of(&state, "channel-1");
    assert!(acct.remote_addr.is_none());
    assert!(acct.remote_balance.is_empty());
    assert_eq!(0, acct.last_update_time.nanos());
}

#[test]
fn balances_replace_the_account() {
    let mut state = setup();
    connect(&mut state, "chan-1");

    // a balance may come before the identity: the account takes its address
    let ack = balances_success("acct-9", vec![coin(7, "atom"), coin(5, "osmo")], false);
    let msg = mock_ibc_packet_ack("chan-1", Ok(PacketMsg::Balances {}), Ok(ack));
    let res = ibc_packet_ack(&mut state, &mock_env(), msg).unwrap();
    assert_eq!(0, res.messages.len());
    assert_eq!(res.attributes, vec![action("acknowledge_balances")]);
    let acct = account_of(&state, "chan-1");
    assert_eq!(acct.remote_addr.unwrap(), "acct-9");
    assert_eq!(acct.remote_balance, vec![coin(7, "atom"), coin(5, "osmo")]);
    assert_eq!(acct.last_update_time.nanos(), 1_571_797_419_879_305_533);

    // the next one overwrites, it does not add
    let mut env = mock_env();
    env.block.time = Timestamp::from_nanos(1_571_797_500_000_000_000);
    let ack = balances_success("acct-9", vec![coin(1, "atom")], false);
    acknowledge_balances(&mut state, &env, "chan-1".to_string(), ack).unwrap();
    let acct = account_of(&state, "chan-1");
    assert_eq!(acct.remote_balance, vec![coin(1, "atom")]);
    assert_eq!(acct.last_update_time.nanos(), 1_571_797_500_000_000_000);
}

#[test]
fn changed_account_is_a_conflict() {
    let mut state = setup();
    connect(&mut state, "chan-1");
    who_am_i_response(&mut state, "chan-1", "acct-a");
    acknowledge_balances(
        &mut state,
        &mock_env(),
        "chan-1".to_string(),
        balances_success("acct-a", vec![coin(100, "atom")], false),
    )
    .unwrap();

    let mut later = mock_env();
    later.block.time = Timestamp::from_nanos(1_600_000_000_000_000_000);
    let err = acknowledge_balances(
        &mut state,
        &later,
        "chan-1".to_string(),
        balances_success("acct-b", vec![coin(1, "atom")], false),
    )
    .unwrap_err();
    assert_eq!(
        err,
        ContractError::RemoteAccountChanged { addr: "acct-b".to_string(), old: "acct-a".to_string() }
    );
    let acct = account_of(&state, "chan-1");
    assert_eq!(acct.remote_addr.unwrap(), "acct-a");
    assert_eq!(acct.remote_balance, vec![coin(100, "atom")]);
    assert_eq!(acct.last_update_time.nanos(), 1_571_797_419_879_305_533);
}

#[test]
fn balances_for_a_channel_without_account_are_refused() {
    let mut state = setup();
    let err = acknowledge_balances(
        &mut state,
        &mock_env(),
        "chan-1".to_string(),
        balances_success("acct-a", vec![], false),
    )
    .unwrap_err();
    assert_eq!(err, ContractError::UnregisteredChannel("chan-1".to_string()));
}

#[test]
fn unreadable_packet_or_acknowledgement_is_fatal() {
    let mut state = setup();
    connect(&mut state, "chan-1");

    // the packet is read first
    let msg = mock_ibc_packet_ack("chan-1", Err(unreadable("PacketMsg")), Err(unreadable("StdAck")));
    assert_eq!(
        ibc_packet_ack(&mut state, &mock_env(), msg).unwrap_err(),
        ContractError::Std(unreadable("PacketMsg"))
    );
    let msg = mock_ibc_packet_ack("chan-1", Ok(PacketMsg::WhoAmI {}), Err(unreadable("StdAck")));
    assert_eq!(
        ibc_packet_ack(&mut state, &mock_env(), msg).unwrap_err(),
        ContractError::Std(unreadable("StdAck"))
    );
    // an acknowledgement that cannot be read fails a dispatch too
    let msg = mock_ibc_packet_ack("chan-1", Ok(PacketMsg::Dispatch { msgs: vec![] }), Err(unreadable("StdAck")));
    assert_eq!(
        ibc_packet_ack(&mut state, &mock_env(), msg).unwrap_err(),
        ContractError::Std(unreadable("StdAck"))
    );

    // an answer that cannot be read as what was asked for
    let msg = mock_ibc_packet_ack("chan-1", Ok(PacketMsg::WhoAmI {}), Ok(empty_success()));
    assert_eq!(
        ibc_packet_ack(&mut state, &mock_env(), msg).unwrap_err(),
        ContractError::Std(unreadable("WhoAmIResponse"))
    );
    let msg = mock_ibc_packet_ack("chan-1", Ok(PacketMsg::Balances {}), Ok(who_am_i_success("acct-a")));
    assert_eq!(
        ibc_packet_ack(&mut state, &mock_env(), msg).unwrap_err(),
        ContractError::Std(unreadable("BalancesResponse"))
    );
    // and this comes before the question whether the channel has an account
    let msg = mock_ibc_packet_ack("nowhere", Ok(PacketMsg::Balances {}), Ok(empty_success()));
    assert_eq!(
        ibc_packet_ack(&mut state, &mock_env(), msg).unwrap_err(),
        ContractError::Std(unreadable("BalancesResponse"))
    );

    let acct = account_of(&state, "chan-1");
    assert!(acct.remote_addr.is_none());
    assert!(acct.remote_balance.is_empty());
}

#[test]
fn dispatch_acknowledgement_is_logged_whatever_it_says() {
    let res = acknowledge_dispatch("chan-1".to_string(), StdAck::Error("failed".to_string())).unwrap();
    assert_eq!(0, res.messages.len());
    assert_eq!(res.attributes, vec![action("acknowledge_dispatch")]);
    let res = acknowledge_dispatch("nowhere".to_string(), empty_success()).unwrap();
    assert_eq!(res.attributes, vec![action("acknowledge_dispatch")]);
}

#[test]
fn callback_forwards_the_balances_to_the_controller_itself() {
    // the controller must be one of its own admins to forward
    let msg = InstantiateMsg { admins: Ok(vec![MOCK_CONTRACT_ADDR.to_string()]), mutable: true };
    let (mut state, _) = instantiate(&mock_env(), mock_info(CREATOR, &[]), msg).unwrap();
    connect(&mut state, "chan-1");

    let res = forward_balances(&state, &mock_env(), &vec![coin(100, "atom"), coin(3, "osmo")]).unwrap();
    let expected: &[u8] = br#"{"execute":{"msgs":[{"bank":{"send":{"to_address":"cosmos2contract","amount":[{"denom":"atom","amount":"100"},{"denom":"osmo","amount":"3"}]}}}]}}"#;
    assert_eq!(
        res.messages,
        vec![OutboundMsg::WasmExecute {
            contract_addr: MOCK_CONTRACT_ADDR.to_string(),
            msg: expected.to_vec(),
            funds: vec![],
        }]
    );
    assert_eq!(res.attributes, vec![action("execute_cosmos_msg")]);

    // with the callback the account is updated; what the forwarding answered is told,
    // and there is still nothing for the chain to send
    let ack = balances_success("acct-9", vec![coin(100, "atom")], true);
    let res = acknowledge_balances(&mut state, &mock_env(), "chan-1".to_string(), ack).unwrap();
    assert_eq!(0, res.messages.len());
    assert_eq!(res.attributes, vec![action("acknowledge_balances")]);
    let expected: &[u8] = br#"{"execute":{"msgs":[{"bank":{"send":{"to_address":"cosmos2contract","amount":[{"denom":"atom","amount":"100"}]}}}]}}"#;
    assert_eq!(
        res.forwarded,
        Some(Response {
            messages: vec![OutboundMsg::WasmExecute {
                contract_addr: MOCK_CONTRACT_ADDR.to_string(),
                msg: expected.to_vec(),
                funds: vec![],
            }],
            attributes: vec![action("execute_cosmos_msg")],
        })
    );
    assert_eq!(account_of(&state, "chan-1").remote_balance, vec![coin(100, "atom")]);

    // without the callback nothing is forwarded
    let ack = balances_success("acct-9", vec![coin(100, "atom")], false);
    let res = acknowledge_balances(&mut state, &mock_env(), "chan-1".to_string(), ack).unwrap();
    assert_eq!(res.forwarded, None);
}

#[test]
fn callback_that_fails_leaves_the_account_as_it_was() {
    // here the controller is no admin of itself
    let mut state = setup();
    connect(&mut state, "chan-1");
    who_am_i_response(&mut state, "chan-1", "acct-9");

    let err = forward_balances(&state, &mock_env(), &vec![coin(100, "atom")]).unwrap_err();
    assert_eq!(err, ContractError::Std(StdError::generic_err("Only admin may send messages")));

    let ack = balances_success("acct-9", vec![coin(100, "atom")], true);
    let err = acknowledge_balances(&mut state, &mock_env(), "chan-1".to_string(), ack).unwrap_err();
    assert_eq!(err, ContractError::Std(StdError::generic_err("Only admin may send messages")));
    let acct = account_of(&state, "chan-1");
    assert!(acct.remote_balance.is_empty());
    assert_eq!(0, acct.last_update_time.nanos());

    // without the callback the same answer is taken
    let ack = balances_success("acct-9", vec![coin(100, "atom")], false);
    acknowledge_balances(&mut state, &mock_env(), "chan-1".to_string(), ack).unwrap();
    assert_eq!(account_of(&state, "chan-1").remote_balance, vec![coin(100, "atom")]);

    // a conflict is found before the callback is tried
    let ack = balances_success("acct-other", vec![coin(100, "atom")], true);
    let err = acknowledge_balances(&mut state, &mock_env(), "chan-1".to_string(), ack).unwrap_err();
    assert_eq!(
        err,
        ContractError::RemoteAccountChanged { addr: "acct-other".to_string(), old: "acct-9".to_string() }
    );
}

#[test]
fn received_packets_are_acknowledged_with_an_empty_object() {
    let msg = IbcPacketReceiveMsg { packet: mock_ibc_packet("chan-1", Err(unreadable("PacketMsg"))) };
    let res = ibc_packet_receive(&mock_env(), msg).unwrap();
    assert_eq!(res.acknowledgement, b"{}".to_vec());
    assert_eq!(res.attributes, vec![action("ibc_packet_ack")]);
}

#[test]
fn timeouts_are_logged() {
    let msg = IbcPacketTimeoutMsg { packet: mock_ibc_packet("chan-1", Ok(PacketMsg::WhoAmI {})) };
    let res = ibc_packet_timeout(&mock_env(), msg).unwrap();
    assert_eq!(0, res.messages.len());
    assert_eq!(res.attributes, vec![action("ibc_packet_timeout")]);
}

#[test]
fn connect_identity_balance_scenario() {
    let mut state = setup();
    connect(&mut state, "chan-1");
    who_am_i_response(&mut state, "chan-1", "acct-9");
    let ack = balances_success("acct-9", vec![coin(100, "atom")], false);
    let msg = mock_ibc_packet_ack("chan-1", Ok(PacketMsg::Balances {}), Ok(ack));
    ibc_packet_ack(&mut state, &mock_env(), msg).unwrap();

    let acct = account_of(&state, "chan-1");
    assert_eq!(
        acct,
        AccountResponse {
            last_update_time: Timestamp::from_nanos(1_571_797_419_879_305_533),
            remote_addr: Some("acct-9".to_string()),
            remote_balance: vec![coin(100, "atom")],
        }
    );
}
