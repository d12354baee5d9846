//! Amounts of native tokens.

use vstd::prelude::*;

verus! {

/// An amount of one denomination.
#[derive(Debug, PartialEq, Eq)]
pub struct Coin {
    pub denom: String,
    pub amount: u128,
}

/// What a [`Coin`] stands for.
pub struct CoinView {
    pub denom: Seq<char>,
    pub amount: u128,
}

impl View for Coin {
    type V = CoinView;

    open spec fn view(&self) -> CoinView {
        CoinView { denom: self.denom@, amount: self.amount }
    }
}

impl DeepView for Coin {
    type V = CoinView;

    open spec fn deep_view(&self) -> CoinView {
        self@
    }
}

impl Clone for Coin {
    fn clone(&self) -> (c: Coin)
        ensures
            c@ == self@,
    {
        Coin { denom: self.denom.clone(), amount: self.amount }
    }
}

/// A coin of `amount` units of `denom`.
pub fn coin(amount: u128, denom: &str) -> (c: Coin)
    ensures
        c@ == (CoinView { denom: denom@, amount }),
{
    Coin { denom: denom.to_owned(), amount }
}

/// One coin in a list, as the bank module takes its amounts.
pub fn coins(amount: u128, denom: &str) -> (v: Vec<Coin>)
    ensures
        v.deep_view() == seq![CoinView { denom: denom@, amount }],
{
    let mut v: Vec<Coin> = Vec::new();
    v.push(coin(amount, denom));
    assert(v.deep_view() =~= seq![CoinView { denom: denom@, amount }]);
    v
}

/// A copy of a list of coins.
pub fn clone_coins(coins: &Vec<Coin>) -> (v: Vec<Coin>)
    ensures
        v.deep_view() == coins.deep_view(),
{
    let mut v: Vec<Coin> = Vec::new();
    let mut i: usize = 0;
    while i < coins.len()
        invariant
            i <= coins.len(),
            v.len() == i,
            forall|j: int| 0 <= j < i ==> v[j]@ == coins[j]@,
        decreases coins.len() - i,
    {
        v.push(coins[i].clone());
        i = i + 1;
    }
    assert(v.deep_view() =~= coins.deep_view());
    v
}

} // verus!
