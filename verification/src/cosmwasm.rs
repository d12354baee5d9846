//! What the controller takes from `cosmwasm_std` and `cw1_whitelist`.
//!
//! Nothing in this file is proved. The types are opaque: a value is carried through
//! and never looked into. Each function states what the source of the crate it calls
//! shows, over a name for what that crate computes.

use vstd::prelude::*;
use crate::coin::Coin;
use crate::coin::CoinView;

verus! {

/// `cosmwasm_std::StdError`, the error of the standard library of contracts.
#[verifier::external_type_specification]
#[verifier::external_body]
pub struct ExStdError(cosmwasm_std::StdError);

/// `cosmwasm_std::Empty`, the custom message of a chain that has none.
#[verifier::external_type_specification]
#[verifier::external_body]
pub struct ExEmpty(cosmwasm_std::Empty);

/// `cosmwasm_std::CosmosMsg`, a command for a chain to run.
#[verifier::external_type_specification]
#[verifier::external_body]
#[verifier::reject_recursive_types(T)]
pub struct ExCosmosMsg<T>(cosmwasm_std::CosmosMsg<T>);

/// The `StdError::GenericErr` that carries `msg`.
pub uninterp spec fn generic_error(msg: Seq<char>) -> cosmwasm_std::StdError;

/// The `CosmosMsg::Bank(BankMsg::Send { .. })` that pays `amount` to `to_address`.
pub uninterp spec fn bank_send(to_address: Seq<char>, amount: Seq<CoinView>) -> cosmwasm_std::CosmosMsg;

/// The JSON of `cw1_whitelist::msg::ExecuteMsg::Execute { msgs }`, or why it has none.
pub uninterp spec fn execute_json(msgs: Seq<cosmwasm_std::CosmosMsg>) -> Result<
    Seq<u8>,
    cosmwasm_std::StdError,
>;

/// Calls `cosmwasm_std::StdError::generic_err`, which builds the variant `GenericErr`
/// around the message it is given and reads nothing else. Claimed: the error is the
/// one that [`generic_error`] names for this message.
#[verifier::external_body]
pub(crate) fn generic_err(msg: &str) -> (e: cosmwasm_std::StdError)
    ensures
        e == generic_error(msg@),
{
    cosmwasm_std::StdError::generic_err(msg)
}

/// Builds a `BankMsg::Send` from the address and the coins, each coin through
/// `cosmwasm_std::coin`, and turns it into a `CosmosMsg` through `From<BankMsg>`,
/// which wraps it in `CosmosMsg::Bank`. Claimed: the message is the one that
/// [`bank_send`] names for this address and for the denominations and amounts of
/// these coins, in their order.
#[verifier::external_body]
pub(crate) fn bank_send_msg(to_address: String, amount: &Vec<Coin>) -> (m: cosmwasm_std::CosmosMsg)
    ensures
        m == bank_send(to_address@, amount.deep_view()),
{
    let amount = amount.iter().map(|c| cosmwasm_std::coin(c.amount, c.denom.clone())).collect();
    cosmwasm_std::CosmosMsg::from(cosmwasm_std::BankMsg::Send { to_address, amount })
}

/// Calls `cosmwasm_std::to_json_binary` on `cw1_whitelist::msg::ExecuteMsg::Execute`
/// with these messages. It hands them to `serde_json_wasm::to_vec`, whose result
/// depends on the value alone, and wraps a failure in `StdError::SerializeErr`.
/// Claimed: the bytes, or the error, are what [`execute_json`] names for these
/// messages. Nothing is claimed of when the call succeeds.
#[verifier::external_body]
pub(crate) fn whitelist_execute_json(msgs: Vec<cosmwasm_std::CosmosMsg>) -> (r: Result<
    Vec<u8>,
    cosmwasm_std::StdError,
>)
    ensures
        match r {
            Ok(bytes) => execute_json(msgs@) == Ok::<Seq<u8>, cosmwasm_std::StdError>(bytes@),
            Err(e) => execute_json(msgs@) == Err::<Seq<u8>, cosmwasm_std::StdError>(e),
        },
{
    let msg = cw1_whitelist::msg::ExecuteMsg::<cosmwasm_std::Empty>::Execute { msgs };
    match cosmwasm_std::to_json_binary(&msg) {
        Ok(binary) => Ok(binary.0),
        Err(e) => Err(e),
    }
}

} // verus!
