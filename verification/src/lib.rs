//! Controller for accounts on a remote chain that are reached over an IBC channel.
//!
//! The controller opens a channel, learns which account the remote side has set up
//! for it, tracks that account's balance from acknowledgements, and relays the
//! commands of its admins. Every entry point is a function from the controller's
//! state and a message to the next state and a response, and says in its contract
//! which.
//!
//! - [`ibc`]: the handshake, the binding and closing of channels, and what is made
//!   of each acknowledgement.
//! - [`contract`]: the orders of the admins, the transfer of funds, and the queries.
//! - [`state`] and [`registry`]: the admins and the accounts, listed by channel id
//!   in the order that [`order`] defines.
//! - [`chain`], [`msg`], [`packet`], [`response`], [`coin`], [`error`]: the values
//!   that go in and come out, each with the mathematical value that it stands for.
//! - [`cosmwasm`]: what is taken from outside crates without proof.
//! - [`laws`]: what holds across calls.
//!
//! The controller works on values. To read a packet or an acknowledgement from
//! bytes, to write one, and to store the state is left to the caller: a message
//! that comes from bytes is handed in as it was read, or as the error of the
//! reader, and the controller decides what follows from either.

pub mod chain;
pub mod coin;
pub mod contract;
pub mod cosmwasm;
pub mod error;
pub mod ibc;
pub mod laws;
pub mod msg;
pub mod order;
pub mod packet;
pub mod registry;
pub mod response;
pub mod state;
