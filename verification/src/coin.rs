//! Coins: an amount of one denomination, and the sufficiency test on attached funds.

use vstd::prelude::*;

verus! {

/// An amount of a single denomination.
#[derive(Debug, Clone, PartialEq, Eq)]
pub struct Coin {
    pub denom: String,
    pub amount: u128,
}

/// Mathematical value of a [`Coin`].
pub struct CoinView {
    pub denom: Seq<char>,
    pub amount: nat,
}

impl View for Coin {
    type V = CoinView;

    open spec fn view(&self) -> CoinView {
        CoinView { denom: self.denom@, amount: self.amount as nat }
    }
}

/// Values of a list of coins, in order.
pub open spec fn coins_view(coins: Seq<Coin>) -> Seq<CoinView> {
    coins.map_values(|c: Coin| c@)
}

/// The first coin of denomination `denom` in `coins`, if there is one, holds at
/// least `amount`. Coins of other denominations never count, and later coins of
/// the same denomination are not added up.
pub open spec fn covers(coins: Seq<CoinView>, denom: Seq<char>, amount: nat) -> bool {
    exists|i: int|
        0 <= i < coins.len() && #[trigger] coins[i].denom == denom && coins[i].amount >= amount
            && forall|j: int| 0 <= j < i ==> (#[trigger] coins[j]).denom != denom
}

impl Coin {
    /// `amount` of `denom`.
    pub fn new(amount: u128, denom: String) -> (c: Coin)
        ensures
            c.amount == amount,
            c.denom == denom,
    {
        Coin { denom, amount }
    }

    /// A copy with the same value.
    pub fn duplicate(&self) -> (c: Coin)
        ensures
            c@ == self@,
    {
        Coin { denom: self.denom.clone(), amount: self.amount }
    }
}

/// Calls `cosmwasm_std::has_coins` on the same coins. That function looks up the
/// first coin whose denomination equals the required one and compares its
/// amount with the required amount; without such a coin it answers `false`.
#[verifier::external_body]
pub(crate) fn has_coins(coins: &Vec<Coin>, required: &Coin) -> (enough: bool)
    ensures
        enough == covers(coins_view(coins@), required.denom@, required.amount as nat),
{
    let held: Vec<cosmwasm_std::Coin> = coins.iter().map(
        |c| cosmwasm_std::Coin::new(c.amount, c.denom.clone()),
    ).collect();
    let wanted = cosmwasm_std::Coin::new(required.amount, required.denom.clone());
    cosmwasm_std::has_coins(held.as_slice(), &wanted)
}

/// Whether `funds` pay for `quantity` units at `price` each.
pub open spec fn pays(funds: Seq<CoinView>, price: CoinView, quantity: nat) -> bool {
    covers(funds, price.denom, price.amount * quantity)
}

/// Decides [`pays`]. A total price beyond `u128` is never covered.
pub fn funds_pay(funds: &Vec<Coin>, price: &Coin, quantity: u32) -> (enough: bool)
    ensures
        enough == pays(coins_view(funds@), price@, quantity as nat),
{
    match price.amount.checked_mul(quantity as u128) {
        Some(total) => {
            let required = Coin { denom: price.denom.clone(), amount: total };
            has_coins(funds, &required)
        },
        None => {
            false
        },
    }
}

} // verus!
