//! The messages of the controller and the answers to its queries.

use vstd::prelude::*;
use cosmwasm_std::CosmosMsg;
use cosmwasm_std::StdError;
use crate::coin::Coin;
use crate::registry::Listing;
use crate::state::AccountData;
use crate::state::AccountDataView;
use crate::state::Timestamp;

verus! {

/// Sets the controller up. The addresses come as the chain validated them; where it
/// turned one down, the message holds its error in their place.
#[derive(Debug, PartialEq)]
pub struct InstantiateMsg {
    pub admins: Result<Vec<String>, StdError>,
    pub mutable: bool,
}

/// An order to the controller.
#[derive(Debug, PartialEq)]
pub enum ExecuteMsg {
    /// Makes more addresses admins. They come as the chain validated them; where it
    /// turned one down, the message holds its error in their place.
    AddAdmins { new_admins: Result<Vec<String>, StdError> },
    /// Has the account behind the channel run these commands.
    SendMsgs { channel_id: String, msgs: Vec<CosmosMsg> },
    /// Asks the account behind the channel what it holds.
    CheckRemoteBalance { channel_id: String },
    /// Sends the coin that comes with the call to the account behind
    /// `reflect_channel_id`, over `transfer_channel_id`.
    SendFunds { reflect_channel_id: String, transfer_channel_id: String },
    /// Has the controller itself run these commands.
    ExecuteCosmosMsg { msgs: Vec<CosmosMsg> },
}

/// A question to the controller.
#[derive(Clone, Debug, PartialEq, Eq)]
pub enum QueryMsg {
    /// Who the admins are.
    Admins {  },
    /// What is known of the account behind a channel.
    Account { channel_id: String },
    /// What is known of all accounts.
    ListAccounts {  },
}

/// The admins.
#[derive(Debug, PartialEq, Eq)]
pub struct AdminResponse {
    pub admins: Vec<String>,
}

/// The account behind one channel.
#[derive(Debug, PartialEq, Eq)]
pub struct AccountResponse {
    pub last_update_time: Timestamp,
    pub remote_addr: Option<String>,
    pub remote_balance: Vec<Coin>,
}

impl View for AccountResponse {
    type V = AccountDataView;

    open spec fn view(&self) -> AccountDataView {
        AccountDataView {
            last_update_time: self.last_update_time,
            remote_addr: self.remote_addr.deep_view(),
            remote_balance: self.remote_balance.deep_view(),
        }
    }
}

impl AccountResponse {
    /// The answer that tells all that is known of an account.
    pub fn from(input: AccountData) -> (r: AccountResponse)
        ensures
            r@ == input@,
    {
        AccountResponse {
            last_update_time: input.last_update_time,
            remote_addr: input.remote_addr,
            remote_balance: input.remote_balance,
        }
    }
}

/// An account together with its channel.
#[derive(Debug, PartialEq, Eq)]
pub struct AccountInfo {
    pub channel_id: String,
    pub last_update_time: Timestamp,
    pub remote_addr: Option<String>,
    pub remote_balance: Vec<Coin>,
}

impl View for AccountInfo {
    type V = (Seq<char>, AccountDataView);

    open spec fn view(&self) -> (Seq<char>, AccountDataView) {
        (
            self.channel_id@,
            AccountDataView {
                last_update_time: self.last_update_time,
                remote_addr: self.remote_addr.deep_view(),
                remote_balance: self.remote_balance.deep_view(),
            },
        )
    }
}

impl DeepView for AccountInfo {
    type V = (Seq<char>, AccountDataView);

    open spec fn deep_view(&self) -> (Seq<char>, AccountDataView) {
        self@
    }
}

impl AccountInfo {
    /// The account `input` of the channel `channel_id`.
    pub fn convert(channel_id: String, input: AccountData) -> (r: AccountInfo)
        ensures
            r@ == (channel_id@, input@),
    {
        AccountInfo {
            channel_id,
            last_update_time: input.last_update_time,
            remote_addr: input.remote_addr,
            remote_balance: input.remote_balance,
        }
    }
}

/// All accounts.
#[derive(Debug, PartialEq, Eq)]
pub struct ListAccountsResponse {
    pub accounts: Vec<AccountInfo>,
}

/// The answer to a question, by the kind of the question.
#[derive(Debug, PartialEq, Eq)]
pub enum QueryResponse {
    Admins(AdminResponse),
    Account(AccountResponse),
    ListAccounts(ListAccountsResponse),
}

/// What a [`QueryResponse`] stands for.
pub enum QueryResponseView {
    Admins(Seq<Seq<char>>),
    Account(AccountDataView),
    ListAccounts(Listing),
}

impl View for QueryResponse {
    type V = QueryResponseView;

    open spec fn view(&self) -> QueryResponseView {
        match self {
            QueryResponse::Admins(r) => QueryResponseView::Admins(r.admins.deep_view()),
            QueryResponse::Account(r) => QueryResponseView::Account(r@),
            QueryResponse::ListAccounts(r) => QueryResponseView::ListAccounts(r.accounts.deep_view()),
        }
    }
}

} // verus!
