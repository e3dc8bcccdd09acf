//! The fee offered for a transaction and the gas it may use.

use crate::coin::{coins_view, Coin, CoinView};
use vstd::prelude::*;

verus! {

/// The gas limit of a fee for which the caller names none.
pub const DEFAULT_GAS_LIMIT: u64 = 500_000;

/// The coins offered as fee, the gas that execution may use, and who pays
/// where it is not the signer.
#[derive(Clone, Debug, PartialEq, Eq)]
pub struct Fee {
    pub amount: Vec<Coin>,
    pub gas_limit: u64,
    pub granter: Option<String>,
    pub payer: Option<String>,
}

/// What a [`Fee`] stands for.
pub struct FeeView {
    pub amount: Seq<CoinView>,
    pub gas_limit: u64,
    pub granter: Option<Seq<char>>,
    pub payer: Option<Seq<char>>,
}

/// What an optional text stands for.
pub open spec fn text_view(text: Option<String>) -> Option<Seq<char>> {
    match text {
        Some(t) => Some(t@),
        None => None,
    }
}

impl View for Fee {
    type V = FeeView;

    open spec fn view(&self) -> FeeView {
        FeeView {
            amount: coins_view(self.amount@),
            gas_limit: self.gas_limit,
            granter: text_view(self.granter),
            payer: text_view(self.payer),
        }
    }
}

impl Fee {
    /// The fee of one coin at the default gas limit, paid by the signer.
    pub fn with_default_gas(coin: Coin) -> (fee: Fee)
        ensures
            fee@ == (FeeView {
                amount: seq![coin@],
                gas_limit: DEFAULT_GAS_LIMIT,
                granter: None,
                payer: None,
            }),
    {
        let mut amount: Vec<Coin> = Vec::new();
        amount.push(coin);
        assert(coins_view(amount@) =~= seq![coin@]);
        Fee { amount, gas_limit: DEFAULT_GAS_LIMIT, granter: None, payer: None }
    }
}

} // verus!
