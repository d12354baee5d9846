//! The errors of the controller.

use vstd::prelude::*;
use cosmwasm_std::StdError;
use crate::coin::Coin;
use crate::coin::CoinView;

verus! {

/// Why a channel is turned down at the handshake.
#[derive(Debug, PartialEq)]
pub enum SimpleIcaError {
    /// Only unordered channels are supported.
    InvalidChannelOrder,
    /// The version of the channel or of the counterparty must be the one given here.
    InvalidChannelVersion(&'static str),
}

/// What a [`SimpleIcaError`] stands for.
pub enum SimpleIcaErrorView {
    InvalidChannelOrder,
    InvalidChannelVersion(Seq<char>),
}

impl View for SimpleIcaError {
    type V = SimpleIcaErrorView;

    open spec fn view(&self) -> SimpleIcaErrorView {
        match self {
            SimpleIcaError::InvalidChannelOrder => SimpleIcaErrorView::InvalidChannelOrder,
            SimpleIcaError::InvalidChannelVersion(v) => SimpleIcaErrorView::InvalidChannelVersion(v@),
        }
    }
}

/// Why the list of admins turns an order down.
#[derive(Debug, PartialEq)]
pub enum WhitelistError {
    Std(StdError),
    Unauthorized {  },
}

/// Why a call to the controller fails.
#[derive(Debug, PartialEq)]
pub enum ContractError {
    /// An error of the standard library: a caller who is no admin, a message that
    /// could not be read or written.
    Std(StdError),
    /// The handshake of a channel was turned down.
    SimpleIca(SimpleIcaError),
    /// No account for this channel.
    UnregisteredChannel(String),
    /// The remote account changed from `old` to `addr`.
    RemoteAccountChanged { addr: String, old: String },
    /// The coins to transfer must be sent along.
    EmptyFund {  },
    /// Only one coin can be transferred at a time; `coins` are those beside it.
    TooManyCoins { coins: Vec<Coin> },
    /// Invalid remote address for this channel.
    InvalidRemoteAddr { addr: String, channel: String },
    /// The list of admins turned an order down.
    Whitelist(WhitelistError),
    /// The channel has an account already: a channel is bound once.
    ChannelAlreadyBound(String),
    /// The channel has an account whose remote address is not known yet.
    RemoteAddrNotKnown(String),
}

/// What a [`ContractError`] stands for.
pub enum ContractErrorView {
    Std(StdError),
    SimpleIca(SimpleIcaErrorView),
    UnregisteredChannel(Seq<char>),
    RemoteAccountChanged { addr: Seq<char>, old: Seq<char> },
    EmptyFund,
    TooManyCoins { coins: Seq<CoinView> },
    InvalidRemoteAddr { addr: Seq<char>, channel: Seq<char> },
    Whitelist(WhitelistError),
    ChannelAlreadyBound(Seq<char>),
    RemoteAddrNotKnown(Seq<char>),
}

impl View for ContractError {
    type V = ContractErrorView;

    open spec fn view(&self) -> ContractErrorView {
        match self {
            ContractError::Std(e) => ContractErrorView::Std(*e),
            ContractError::SimpleIca(e) => ContractErrorView::SimpleIca(e@),
            ContractError::UnregisteredChannel(c) => ContractErrorView::UnregisteredChannel(c@),
            ContractError::RemoteAccountChanged { addr, old } => ContractErrorView::RemoteAccountChanged {
                addr: addr@,
                old: old@,
            },
            ContractError::EmptyFund {  } => ContractErrorView::EmptyFund,
            ContractError::TooManyCoins { coins } => ContractErrorView::TooManyCoins {
                coins: coins.deep_view(),
            },
            ContractError::InvalidRemoteAddr { addr, channel } => ContractErrorView::InvalidRemoteAddr {
                addr: addr@,
                channel: channel@,
            },
            ContractError::Whitelist(e) => ContractErrorView::Whitelist(*e),
            ContractError::ChannelAlreadyBound(c) => ContractErrorView::ChannelAlreadyBound(c@),
            ContractError::RemoteAddrNotKnown(c) => ContractErrorView::RemoteAddrNotKnown(c@),
        }
    }
}

/// What the result of a call stands for.
pub open spec fn outcome<T: View>(r: Result<T, ContractError>) -> Result<T::V, ContractErrorView> {
    match r {
        Ok(t) => Ok(t@),
        Err(e) => Err(e@),
    }
}

} // verus!
