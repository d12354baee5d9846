//! The protocol that the controller speaks with the remote side: the terms of the
//! handshake and the answers that come back in acknowledgements.

use vstd::prelude::*;
use cosmwasm_std::StdError;
use crate::coin::Coin;
use crate::error::SimpleIcaError;
use crate::error::SimpleIcaErrorView;
use crate::order::same_text;

verus! {

/// Whether a channel delivers its packets in the order in which they were sent.
#[derive(Clone, Copy, Debug, PartialEq, Eq, Structural)]
pub enum IbcOrder {
    Unordered,
    Ordered,
}

/// The version of the protocol, which both ends of a channel must name.
pub const IBC_APP_VERSION: &'static str = "simple-ica-v1";

/// The order that the protocol asks of its channels.
pub const APP_ORDER: IbcOrder = IbcOrder::Unordered;

/// The order that the protocol turns down.
pub const BAD_APP_ORDER: IbcOrder = IbcOrder::Ordered;

/// Accepts the order of the protocol and no other.
pub fn check_order(order: &IbcOrder) -> (r: Result<(), SimpleIcaError>)
    ensures
        r is Ok <==> *order == APP_ORDER,
        r matches Err(e) ==> e@ == SimpleIcaErrorView::InvalidChannelOrder,
{
    match order {
        IbcOrder::Unordered => Ok(()),
        IbcOrder::Ordered => Err(SimpleIcaError::InvalidChannelOrder),
    }
}

/// Accepts the version of the protocol and no other.
pub fn check_version(version: &str) -> (r: Result<(), SimpleIcaError>)
    ensures
        r is Ok <==> version@ == IBC_APP_VERSION@,
        r matches Err(e) ==> e@ == SimpleIcaErrorView::InvalidChannelVersion(IBC_APP_VERSION@),
{
    if same_text(version, IBC_APP_VERSION) {
        Ok(())
    } else {
        Err(SimpleIcaError::InvalidChannelVersion(IBC_APP_VERSION))
    }
}

/// The answer to [`crate::response::PacketMsg::WhoAmI`].
#[derive(Clone, Debug, PartialEq, Eq)]
pub struct WhoAmIResponse {
    /// The address of the account on the remote chain.
    pub account: String,
}

/// The answer to [`crate::response::PacketMsg::Balances`].
#[derive(Debug, PartialEq, Eq)]
pub struct BalancesResponse {
    /// The address of the account on the remote chain.
    pub account: String,
    /// All that the account holds.
    pub balances: Vec<Coin>,
    /// Whether the controller is to forward the balances to itself.
    pub execute_callback: bool,
}

/// What a success acknowledgement carries, read as each of the answers that the
/// protocol knows. A reading that failed holds the error of the reader.
#[derive(Debug, PartialEq)]
pub struct AckData {
    pub who_am_i: Result<WhoAmIResponse, StdError>,
    pub balances: Result<BalancesResponse, StdError>,
}

/// An acknowledgement: what the remote side made of a packet.
#[derive(Debug, PartialEq)]
pub enum StdAck {
    /// The packet was carried out; this is the answer.
    Result(AckData),
    /// The packet failed on the remote side, for this reason.
    Error(String),
}

} // verus!
