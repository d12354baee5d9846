//! What the chain tells the controller with each call.

use vstd::prelude::*;
use cosmwasm_std::StdError;
use crate::coin::Coin;
use crate::packet::IbcOrder;
use crate::packet::StdAck;
use crate::response::IbcTimeout;
use crate::response::PacketMsg;
use crate::state::Timestamp;

verus! {

/// The block in which a call runs.
#[derive(Clone, Debug, PartialEq, Eq)]
pub struct BlockInfo {
    pub height: u64,
    pub time: Timestamp,
    pub chain_id: String,
}

/// The contract that a call runs in.
#[derive(Clone, Debug, PartialEq, Eq)]
pub struct ContractInfo {
    pub address: String,
}

/// Where and when a call runs.
#[derive(Clone, Debug, PartialEq, Eq)]
pub struct Env {
    pub block: BlockInfo,
    pub contract: ContractInfo,
}

/// Who makes a call, and the coins that come with it.
#[derive(Debug, PartialEq, Eq)]
pub struct MessageInfo {
    pub sender: String,
    pub funds: Vec<Coin>,
}

/// One end of a channel.
#[derive(Clone, Debug, PartialEq, Eq)]
pub struct IbcEndpoint {
    pub port_id: String,
    pub channel_id: String,
}

/// A channel between this chain and another.
#[derive(Clone, Debug, PartialEq, Eq)]
pub struct IbcChannel {
    pub endpoint: IbcEndpoint,
    pub counterparty_endpoint: IbcEndpoint,
    pub order: IbcOrder,
    pub version: String,
    pub connection_id: String,
}

/// The first step of a handshake, on the side that proposes the channel or on the
/// side that is asked.
#[derive(Clone, Debug, PartialEq, Eq)]
pub enum IbcChannelOpenMsg {
    OpenInit { channel: IbcChannel },
    OpenTry { channel: IbcChannel, counterparty_version: String },
}

impl IbcChannelOpenMsg {
    /// The channel that is being opened.
    pub fn channel(&self) -> (c: &IbcChannel)
        ensures
            *c == self.spec_channel(),
    {
        match self {
            IbcChannelOpenMsg::OpenInit { channel } => channel,
            IbcChannelOpenMsg::OpenTry { channel, .. } => channel,
        }
    }

    pub open spec fn spec_channel(&self) -> IbcChannel {
        match self {
            IbcChannelOpenMsg::OpenInit { channel } => *channel,
            IbcChannelOpenMsg::OpenTry { channel, .. } => *channel,
        }
    }

    /// The version that the other side named, where it has named one.
    pub fn counterparty_version(&self) -> (v: Option<&str>)
        ensures
            v.deep_view() == self.spec_counterparty_version(),
    {
        match self {
            IbcChannelOpenMsg::OpenInit { .. } => None,
            IbcChannelOpenMsg::OpenTry { counterparty_version, .. } => Some(counterparty_version.as_str()),
        }
    }

    pub open spec fn spec_counterparty_version(&self) -> Option<Seq<char>> {
        match self {
            IbcChannelOpenMsg::OpenInit { .. } => None,
            IbcChannelOpenMsg::OpenTry { counterparty_version, .. } => Some(counterparty_version@),
        }
    }
}

/// The last step of a handshake, on either side.
#[derive(Clone, Debug, PartialEq, Eq)]
pub enum IbcChannelConnectMsg {
    OpenAck { channel: IbcChannel, counterparty_version: String },
    OpenConfirm { channel: IbcChannel },
}

impl IbcChannelConnectMsg {
    /// The channel that is now open.
    pub fn channel(&self) -> (c: &IbcChannel)
        ensures
            *c == self.spec_channel(),
    {
        match self {
            IbcChannelConnectMsg::OpenAck { channel, .. } => channel,
            IbcChannelConnectMsg::OpenConfirm { channel } => channel,
        }
    }

    pub open spec fn spec_channel(&self) -> IbcChannel {
        match self {
            IbcChannelConnectMsg::OpenAck { channel, .. } => *channel,
            IbcChannelConnectMsg::OpenConfirm { channel } => *channel,
        }
    }
}

/// The end of a channel, on the side that closes it or on the other.
#[derive(Clone, Debug, PartialEq, Eq)]
pub enum IbcChannelCloseMsg {
    CloseInit { channel: IbcChannel },
    CloseConfirm { channel: IbcChannel },
}

impl IbcChannelCloseMsg {
    /// The channel that is closed.
    pub fn channel(&self) -> (c: &IbcChannel)
        ensures
            *c == self.spec_channel(),
    {
        match self {
            IbcChannelCloseMsg::CloseInit { channel } => channel,
            IbcChannelCloseMsg::CloseConfirm { channel } => channel,
        }
    }

    pub open spec fn spec_channel(&self) -> IbcChannel {
        match self {
            IbcChannelCloseMsg::CloseInit { channel } => *channel,
            IbcChannelCloseMsg::CloseConfirm { channel } => *channel,
        }
    }
}

/// A packet of the controller as the chain hands it back: its data read as a
/// message of the protocol, or the error of the reader.
#[derive(Debug, PartialEq)]
pub struct IbcPacket {
    pub data: Result<PacketMsg, StdError>,
    pub src: IbcEndpoint,
    pub dest: IbcEndpoint,
    pub sequence: u64,
    pub timeout: IbcTimeout,
}

/// An acknowledgement together with the packet that it answers. The
/// acknowledgement is read as the protocol frames it, or holds the error of the reader.
#[derive(Debug, PartialEq)]
pub struct IbcPacketAckMsg {
    pub acknowledgement: Result<StdAck, StdError>,
    pub original_packet: IbcPacket,
}

/// A packet from the other side.
#[derive(Debug, PartialEq)]
pub struct IbcPacketReceiveMsg {
    pub packet: IbcPacket,
}

/// A packet of the controller that was given up.
#[derive(Debug, PartialEq)]
pub struct IbcPacketTimeoutMsg {
    pub packet: IbcPacket,
}

} // verus!
