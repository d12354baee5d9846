//! What the controller hands back to the chain: messages to send and attributes to log.

use vstd::prelude::*;
use cosmwasm_std::CosmosMsg;
use crate::coin::Coin;
use crate::coin::CoinView;
use crate::state::Timestamp;

verus! {

/// A height on a chain that counts its revisions.
#[derive(Clone, Copy, Debug, PartialEq, Eq, Structural)]
pub struct IbcTimeoutBlock {
    pub revision: u64,
    pub height: u64,
}

/// When a packet that was not delivered is given up: at a height, at a time, or at
/// whichever of the two comes first.
#[derive(Clone, Copy, Debug, PartialEq, Eq, Structural)]
pub struct IbcTimeout {
    pub block: Option<IbcTimeoutBlock>,
    pub timestamp: Option<Timestamp>,
}

impl IbcTimeout {
    /// The timeout at a time alone.
    pub fn with_timestamp(timestamp: Timestamp) -> (t: IbcTimeout)
        ensures
            t == (IbcTimeout { block: None, timestamp: Some(timestamp) }),
    {
        IbcTimeout { block: None, timestamp: Some(timestamp) }
    }

    pub fn block(&self) -> (b: Option<IbcTimeoutBlock>)
        ensures
            b == self.block,
    {
        self.block
    }

    pub fn timestamp(&self) -> (t: Option<Timestamp>)
        ensures
            t == self.timestamp,
    {
        self.timestamp
    }
}

/// What the controller sends over its channel.
#[derive(Clone, Debug, PartialEq)]
pub enum PacketMsg {
    /// Commands for the remote account to run.
    Dispatch { msgs: Vec<CosmosMsg> },
    /// The question which account the remote side has set up.
    WhoAmI {  },
    /// The question what that account holds.
    Balances {  },
}

/// What a [`PacketMsg`] stands for.
pub enum PacketMsgView {
    Dispatch { msgs: Seq<CosmosMsg> },
    WhoAmI,
    Balances,
}

impl View for PacketMsg {
    type V = PacketMsgView;

    open spec fn view(&self) -> PacketMsgView {
        match self {
            PacketMsg::Dispatch { msgs } => PacketMsgView::Dispatch { msgs: msgs@ },
            PacketMsg::WhoAmI {  } => PacketMsgView::WhoAmI,
            PacketMsg::Balances {  } => PacketMsgView::Balances,
        }
    }
}

/// A message that the chain is asked to carry out.
#[derive(Debug, PartialEq)]
pub enum OutboundMsg {
    /// A packet for the channel of the controller.
    SendPacket { channel_id: String, data: PacketMsg, timeout: IbcTimeout },
    /// Tokens for an address on the remote chain, over a transfer channel.
    Transfer { channel_id: String, to_address: String, amount: Coin, timeout: IbcTimeout },
    /// A call of a contract, with its message in JSON.
    WasmExecute { contract_addr: String, msg: Vec<u8>, funds: Vec<Coin> },
}

/// What an [`OutboundMsg`] stands for.
pub enum OutboundMsgView {
    SendPacket { channel_id: Seq<char>, data: PacketMsgView, timeout: IbcTimeout },
    Transfer { channel_id: Seq<char>, to_address: Seq<char>, amount: CoinView, timeout: IbcTimeout },
    WasmExecute { contract_addr: Seq<char>, msg: Seq<u8>, funds: Seq<CoinView> },
}

impl View for OutboundMsg {
    type V = OutboundMsgView;

    open spec fn view(&self) -> OutboundMsgView {
        match self {
            OutboundMsg::SendPacket { channel_id, data, timeout } => OutboundMsgView::SendPacket {
                channel_id: channel_id@,
                data: data@,
                timeout: *timeout,
            },
            OutboundMsg::Transfer { channel_id, to_address, amount, timeout } => OutboundMsgView::Transfer {
                channel_id: channel_id@,
                to_address: to_address@,
                amount: amount@,
                timeout: *timeout,
            },
            OutboundMsg::WasmExecute { contract_addr, msg, funds } => OutboundMsgView::WasmExecute {
                contract_addr: contract_addr@,
                msg: msg@,
                funds: funds.deep_view(),
            },
        }
    }
}

impl DeepView for OutboundMsg {
    type V = OutboundMsgView;

    open spec fn deep_view(&self) -> OutboundMsgView {
        self@
    }
}

/// A key and a value for the log of the chain.
#[derive(Debug, PartialEq, Eq)]
pub struct Attribute {
    pub key: String,
    pub value: String,
}

/// What an [`Attribute`] stands for.
pub struct AttributeView {
    pub key: Seq<char>,
    pub value: Seq<char>,
}

impl View for Attribute {
    type V = AttributeView;

    open spec fn view(&self) -> AttributeView {
        AttributeView { key: self.key@, value: self.value@ }
    }
}

impl DeepView for Attribute {
    type V = AttributeView;

    open spec fn deep_view(&self) -> AttributeView {
        self@
    }
}

/// The attribute that names what was done.
pub open spec fn action(name: Seq<char>) -> AttributeView {
    AttributeView { key: "action"@, value: name }
}

/// The answer to a call: what to send and what to log.
#[derive(Debug, PartialEq)]
pub struct Response {
    pub messages: Vec<OutboundMsg>,
    pub attributes: Vec<Attribute>,
}

/// What a [`Response`] stands for.
pub struct ResponseView {
    pub messages: Seq<OutboundMsgView>,
    pub attributes: Seq<AttributeView>,
}

impl View for Response {
    type V = ResponseView;

    open spec fn view(&self) -> ResponseView {
        ResponseView { messages: self.messages.deep_view(), attributes: self.attributes.deep_view() }
    }
}

impl Response {
    /// The answer that sends and logs nothing.
    pub fn new() -> (r: Response)
        ensures
            r@ == (ResponseView { messages: Seq::empty(), attributes: Seq::empty() }),
    {
        let r = Response { messages: Vec::new(), attributes: Vec::new() };
        assert(r.messages.deep_view() =~= Seq::empty());
        assert(r.attributes.deep_view() =~= Seq::empty());
        r
    }

    /// The answer with one more message to send.
    pub fn add_message(self, msg: OutboundMsg) -> (r: Response)
        ensures
            r@ == (ResponseView { messages: self@.messages.push(msg@), attributes: self@.attributes }),
    {
        let mut r = self;
        r.messages.push(msg);
        assert(r.messages.deep_view() =~= self@.messages.push(msg@));
        r
    }

    /// The answer with one more attribute to log.
    pub fn add_attribute(self, key: &str, value: &str) -> (r: Response)
        ensures
            r@ == (ResponseView {
                messages: self@.messages,
                attributes: self@.attributes.push(AttributeView { key: key@, value: value@ }),
            }),
    {
        let mut r = self;
        r.attributes.push(Attribute { key: key.to_owned(), value: value.to_owned() });
        assert(r.attributes.deep_view() =~= self@.attributes.push(
            AttributeView { key: key@, value: value@ },
        ));
        r
    }
}

/// The answer to a step of a channel or of a packet: what to send, what to log,
/// and, where the controller has forwarded commands to itself on the way, what
/// that call answered. The last is for the caller to see; the chain is asked for
/// the messages alone.
#[derive(Debug, PartialEq)]
pub struct IbcBasicResponse {
    pub messages: Vec<OutboundMsg>,
    pub attributes: Vec<Attribute>,
    pub forwarded: Option<Response>,
}

/// What an [`IbcBasicResponse`] stands for.
pub struct IbcBasicResponseView {
    pub messages: Seq<OutboundMsgView>,
    pub attributes: Seq<AttributeView>,
    pub forwarded: Option<ResponseView>,
}

impl View for IbcBasicResponse {
    type V = IbcBasicResponseView;

    open spec fn view(&self) -> IbcBasicResponseView {
        IbcBasicResponseView {
            messages: self.messages.deep_view(),
            attributes: self.attributes.deep_view(),
            forwarded: match self.forwarded {
                Some(response) => Some(response@),
                None => None,
            },
        }
    }
}

impl IbcBasicResponse {
    /// The answer that sends and logs nothing, where nothing was forwarded.
    pub fn new() -> (r: IbcBasicResponse)
        ensures
            r@ == (IbcBasicResponseView {
                messages: Seq::empty(),
                attributes: Seq::empty(),
                forwarded: None,
            }),
    {
        let r = IbcBasicResponse { messages: Vec::new(), attributes: Vec::new(), forwarded: None };
        assert(r.messages.deep_view() =~= Seq::empty());
        assert(r.attributes.deep_view() =~= Seq::empty());
        r
    }

    /// The answer with one more message to send.
    pub fn add_message(self, msg: OutboundMsg) -> (r: IbcBasicResponse)
        ensures
            r@ == (IbcBasicResponseView {
                messages: self@.messages.push(msg@),
                attributes: self@.attributes,
                forwarded: self@.forwarded,
            }),
    {
        let mut r = self;
        r.messages.push(msg);
        assert(r.messages.deep_view() =~= self@.messages.push(msg@));
        r
    }

    /// The answer with one more attribute to log.
    pub fn add_attribute(self, key: &str, value: &str) -> (r: IbcBasicResponse)
        ensures
            r@ == (IbcBasicResponseView {
                messages: self@.messages,
                attributes: self@.attributes.push(AttributeView { key: key@, value: value@ }),
                forwarded: self@.forwarded,
            }),
    {
        let mut r = self;
        r.attributes.push(Attribute { key: key.to_owned(), value: value.to_owned() });
        assert(r.attributes.deep_view() =~= self@.attributes.push(
            AttributeView { key: key@, value: value@ },
        ));
        r
    }

    /// The answer that tells what a call that was forwarded has answered.
    pub fn set_forwarded(self, forwarded: Option<Response>) -> (r: IbcBasicResponse)
        ensures
            r@ == (IbcBasicResponseView {
                messages: self@.messages,
                attributes: self@.attributes,
                forwarded: match forwarded {
                    Some(response) => Some(response@),
                    None => None,
                },
            }),
    {
        IbcBasicResponse { messages: self.messages, attributes: self.attributes, forwarded }
    }
}

/// The answer to a packet that was received: what to acknowledge and what to log.
#[derive(Debug, PartialEq)]
pub struct IbcReceiveResponse {
    pub acknowledgement: Vec<u8>,
    pub attributes: Vec<Attribute>,
}

/// What an [`IbcReceiveResponse`] stands for.
pub struct IbcReceiveResponseView {
    pub acknowledgement: Seq<u8>,
    pub attributes: Seq<AttributeView>,
}

impl View for IbcReceiveResponse {
    type V = IbcReceiveResponseView;

    open spec fn view(&self) -> IbcReceiveResponseView {
        IbcReceiveResponseView {
            acknowledgement: self.acknowledgement@,
            attributes: self.attributes.deep_view(),
        }
    }
}

} // verus!
