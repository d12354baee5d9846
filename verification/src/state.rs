//! What the controller remembers: its admins and one account for each channel.

use vstd::prelude::*;
use crate::coin::clone_coins;
use crate::coin::Coin;
use crate::coin::CoinView;
use crate::order::same_text;
use crate::registry::Registry;

verus! {

/// A point in time, in nanoseconds since the epoch.
#[derive(Clone, Copy, Debug, PartialEq, Eq, Structural)]
pub struct Timestamp {
    pub nanos: u64,
}

/// The nanoseconds in one second.
pub const NANOS_PER_SECOND: u64 = 1_000_000_000;

impl Timestamp {
    pub fn from_nanos(nanos: u64) -> (t: Timestamp)
        ensures
            t.nanos == nanos,
    {
        Timestamp { nanos }
    }

    /// The nanoseconds since the epoch.
    pub fn nanos(&self) -> (n: u64)
        ensures
            n == self.nanos,
    {
        self.nanos
    }

    /// The point in time `addition` seconds later.
    pub fn plus_seconds(&self, addition: u64) -> (t: Timestamp)
        requires
            self.nanos + addition * NANOS_PER_SECOND <= u64::MAX,
        ensures
            t.nanos == self.nanos + addition * NANOS_PER_SECOND,
    {
        assert(addition * NANOS_PER_SECOND <= u64::MAX);
        Timestamp { nanos: self.nanos + addition * NANOS_PER_SECOND }
    }
}

/// What is known of the account behind one channel.
#[derive(Debug, PartialEq)]
pub struct AccountData {
    /// When the balance was last updated; 0 is never.
    pub last_update_time: Timestamp,
    /// The account's address on the remote chain. It is unknown from the moment the
    /// channel is bound until the remote side has answered who it is.
    pub remote_addr: Option<String>,
    /// The balance as the remote side last reported it.
    pub remote_balance: Vec<Coin>,
}

/// What an [`AccountData`] stands for.
pub struct AccountDataView {
    pub last_update_time: Timestamp,
    pub remote_addr: Option<Seq<char>>,
    pub remote_balance: Seq<CoinView>,
}

/// The account of a channel that has just been bound.
pub open spec fn empty_account() -> AccountDataView {
    AccountDataView {
        last_update_time: Timestamp { nanos: 0 },
        remote_addr: None,
        remote_balance: Seq::empty(),
    }
}

impl View for AccountData {
    type V = AccountDataView;

    open spec fn view(&self) -> AccountDataView {
        AccountDataView {
            last_update_time: self.last_update_time,
            remote_addr: self.remote_addr.deep_view(),
            remote_balance: self.remote_balance.deep_view(),
        }
    }
}

impl DeepView for AccountData {
    type V = AccountDataView;

    open spec fn deep_view(&self) -> AccountDataView {
        self@
    }
}

impl Default for AccountData {
    fn default() -> (a: AccountData)
        ensures
            a@ == empty_account(),
    {
        let a = AccountData {
            last_update_time: Timestamp { nanos: 0 },
            remote_addr: None,
            remote_balance: Vec::new(),
        };
        assert(a.remote_balance.deep_view() =~= Seq::empty());
        a
    }
}

/// A copy of an address that may be missing.
pub fn clone_addr(addr: &Option<String>) -> (r: Option<String>)
    ensures
        r.deep_view() == addr.deep_view(),
{
    match addr {
        Some(a) => Some(a.clone()),
        None => None,
    }
}

impl Clone for AccountData {
    fn clone(&self) -> (a: AccountData)
        ensures
            a@ == self@,
    {
        AccountData {
            last_update_time: self.last_update_time,
            remote_addr: clone_addr(&self.remote_addr),
            remote_balance: clone_coins(&self.remote_balance),
        }
    }
}

/// The addresses that may give the controller orders.
#[derive(Debug, PartialEq)]
pub struct AdminList {
    pub admins: Vec<String>,
    pub mutable: bool,
}

/// What an [`AdminList`] stands for.
pub struct AdminListView {
    pub admins: Seq<Seq<char>>,
    pub mutable: bool,
}

impl View for AdminList {
    type V = AdminListView;

    open spec fn view(&self) -> AdminListView {
        AdminListView { admins: self.admins.deep_view(), mutable: self.mutable }
    }
}

impl AdminList {
    /// Whether `addr` is one of the admins.
    pub fn is_admin(&self, addr: &str) -> (b: bool)
        ensures
            b == self@.admins.contains(addr@),
    {
        let mut i: usize = 0;
        while i < self.admins.len()
            invariant
                i <= self.admins.len(),
                forall|j: int| 0 <= j < i ==> self.admins[j]@ != addr@,
            decreases self.admins.len() - i,
        {
            if same_text(self.admins[i].as_str(), addr) {
                assert(self@.admins[i as int] == addr@);
                return true;
            }
            i = i + 1;
        }
        assert forall|j: int| 0 <= j < self@.admins.len() implies self@.admins[j] != addr@ by {
            assert(self@.admins[j] == self.admins[j]@);
        }
        false
    }
}

/// All that the controller keeps between two calls.
#[derive(Debug)]
pub struct ControllerState {
    pub admin: AdminList,
    pub accounts: Registry,
}

/// What a [`ControllerState`] stands for.
pub struct ControllerStateView {
    pub admin: AdminListView,
    pub accounts: Map<Seq<char>, AccountDataView>,
}

impl View for ControllerState {
    type V = ControllerStateView;

    open spec fn view(&self) -> ControllerStateView {
        ControllerStateView { admin: self.admin@, accounts: self.accounts@ }
    }
}

} // verus!
