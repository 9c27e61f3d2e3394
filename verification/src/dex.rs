//! Swap requests for the exchange. The app checks no balance and no price: the
//! exchange is trusted to refuse a trade it cannot make.

use vstd::prelude::*;

use crate::response::{AppMsg, AppMsgView};

verus! {

/// A fixed-point number with 18 decimal places, held as its count of units of
/// 10^-18.
#[derive(Clone, Copy, Debug, PartialEq, Eq, Structural)]
pub struct Decimal {
    pub atomics: u128,
}

/// The asset a swap gives away.
#[derive(Debug, PartialEq, Eq)]
pub struct OfferAsset {
    pub name: String,
    pub amount: u128,
}

/// An [`OfferAsset`] with its text as a character sequence.
pub struct OfferAssetView {
    pub name: Seq<char>,
    pub amount: u128,
}

impl View for OfferAsset {
    type V = OfferAssetView;

    open spec fn view(&self) -> OfferAssetView {
        OfferAssetView { name: self.name@, amount: self.amount }
    }
}

/// Units of 10^-18 in one hundredth.
pub const ATOMICS_PER_PERCENT: u128 = 10_000_000_000_000_000;

/// `cosmwasm_std::Decimal::percent`, read back through `Decimal::atomics` and
/// `Uint128::u128`. The contract claims what that function computes: `percent`
/// hundredths as a count of units of 10^-18, a product that always fits.
#[verifier::external_body]
fn percent_atomics(percent: u64) -> (atomics: u128)
    ensures
        atomics == percent * ATOMICS_PER_PERCENT,
{
    cosmwasm_std::Decimal::percent(percent).atomics().u128()
}

impl Decimal {
    /// `x` hundredths.
    pub fn percent(x: u64) -> (decimal: Decimal)
        ensures
            decimal.atomics == x * ATOMICS_PER_PERCENT,
    {
        Decimal { atomics: percent_atomics(x) }
    }
}

/// The request to `dex` to trade `offer_asset` for `ask_asset`.
pub fn swap(
    dex: String,
    offer_asset: OfferAsset,
    ask_asset: String,
    max_spread: Option<Decimal>,
    belief_price: Option<Decimal>,
) -> (msg: AppMsg)
    ensures
        msg@ == (AppMsgView::Swap {
            dex: dex@,
            offer_asset: offer_asset@,
            ask_asset: ask_asset@,
            max_spread,
            belief_price,
        }),
{
    AppMsg::Swap { dex, offer_asset, ask_asset, max_spread, belief_price }
}

} // verus!
