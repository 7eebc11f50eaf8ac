//! What a computation comes to on a given market.
//!
//! A [`Market`] stands for the liquidity pools at one moment: what the
//! router and the pools would answer to every question. Against it, the
//! step-by-step conversion can be held to the plain statement of the
//! two-tier lookup.

use crate::conversion::{
    bridged_amount, lemma_bridged_amount_doubles, ConversionView, QueryView, ReplyView, StepView,
    PROBE_UNIT,
};
use crate::error::{Error, MissingPool};
use crate::ident::zero_address;
use crate::order::{OrderStepView, PendingView};
use crate::settlement::SettlementView;
use vstd::prelude::*;

verus! {

/// The pools outside the marketplace, as two functions: the address that a
/// router gives for a pair of tokens, and the amount that a pool quotes.
pub struct Market {
    /// From a router and two tokens to the address of their pool, or the
    /// zero address.
    pub pair_of: spec_fn(Seq<u8>, Seq<u8>, Seq<u8>) -> Seq<u8>,
    /// From a pool, the token wanted and the amount wanted to the amount
    /// that must go in.
    pub amount_in: spec_fn(Seq<u8>, Seq<u8>, nat) -> nat,
}

impl Market {
    /// The market's answer to a question.
    pub open spec fn answer(self, query: QueryView) -> ReplyView {
        match query {
            QueryView::GetPair { router, first_token_id, second_token_id } => ReplyView::PairAddress(
                (self.pair_of)(router, first_token_id, second_token_id),
            ),
            QueryView::GetAmountIn { pair, token_wanted, amount_wanted } => ReplyView::AmountIn(
                (self.amount_in)(pair, token_wanted, amount_wanted),
            ),
        }
    }

    /// What `cru_amount` of the canonical token comes to in `token_id` on
    /// this market: the direct pool's quote where the router knows one, else
    /// the ratio of the two bridge quotes applied to the amount.
    pub open spec fn convert(
        self,
        router: Seq<u8>,
        cru_token_id: Seq<u8>,
        wegld_token_id: Seq<u8>,
        token_id: Seq<u8>,
        cru_amount: nat,
    ) -> Result<nat, Error> {
        let direct = (self.pair_of)(router, token_id, cru_token_id);
        let to_canonical = (self.pair_of)(router, wegld_token_id, cru_token_id);
        let to_target = (self.pair_of)(router, wegld_token_id, token_id);
        if direct != zero_address() {
            Ok((self.amount_in)(direct, cru_token_id, cru_amount))
        } else if to_canonical == zero_address() {
            Err(Error::NoConversionPath(MissingPool::BridgeToCanonical))
        } else if to_target == zero_address() {
            Err(Error::NoConversionPath(MissingPool::BridgeToTarget))
        } else {
            let unit_in_canonical = (self.amount_in)(to_canonical, cru_token_id, PROBE_UNIT as nat);
            let unit_in_target = (self.amount_in)(to_target, token_id, PROBE_UNIT as nat);
            if unit_in_target == 0 {
                Err(Error::ZeroQuote)
            } else {
                Ok(bridged_amount(cru_amount, unit_in_canonical, unit_in_target))
            }
        }
    }
}

impl ConversionView {
    /// Where the conversion ends when every question is answered by
    /// `market`.
    pub open spec fn run(self, market: Market) -> Result<nat, Error>
        decreases self.stage.questions_left(),
    {
        match self.resume(market.answer(self.query())) {
            StepView::Ask(next) => next.run(market),
            StepView::Done(amount) => Ok(amount),
            StepView::Failed(error) => Err(error),
        }
    }
}

impl PendingView {
    /// Where the order ends when every question is answered by `market`.
    pub open spec fn run(self, market: Market) -> Result<SettlementView, Error> {
        match self.conversion.run(market) {
            Ok(price) => self.order.settle(price),
            Err(error) => Err(error),
        }
    }
}

impl StepView {
    /// Where the price computation ends when every question is answered by
    /// `market`.
    pub open spec fn run(self, market: Market) -> Result<nat, Error> {
        match self {
            StepView::Ask(conversion) => conversion.run(market),
            StepView::Done(price) => Ok(price),
            StepView::Failed(error) => Err(error),
        }
    }
}

impl OrderStepView {
    /// Where the order ends when every question is answered by `market`.
    pub open spec fn run(self, market: Market) -> Result<SettlementView, Error> {
        match self {
            OrderStepView::Ask(pending) => pending.run(market),
            OrderStepView::Done(settlement) => Ok(settlement),
            OrderStepView::Failed(error) => Err(error),
        }
    }
}

/// Asking a market each question in turn gives the two-tier lookup: the
/// direct pool's quote, else the bridged ratio, else the failure of the
/// first bridge pool that is missing.
pub proof fn lemma_run_is_two_tier_lookup(
    market: Market,
    router: Seq<u8>,
    cru_token_id: Seq<u8>,
    wegld_token_id: Seq<u8>,
    token_id: Seq<u8>,
    cru_amount: nat,
)
    ensures
        ConversionView::begin(router, cru_token_id, wegld_token_id, token_id, cru_amount).run(
            market,
        ) == market.convert(router, cru_token_id, wegld_token_id, token_id, cru_amount),
{
    reveal_with_fuel(ConversionView::run, 6);
}

/// On a market without a direct pool, twice the amount converts to twice the
/// result or to one unit more, and fails exactly when the amount itself
/// fails, in the same way.
pub proof fn lemma_bridged_conversion_scales(
    market: Market,
    router: Seq<u8>,
    cru_token_id: Seq<u8>,
    wegld_token_id: Seq<u8>,
    token_id: Seq<u8>,
    cru_amount: nat,
)
    requires
        (market.pair_of)(router, token_id, cru_token_id) == zero_address(),
    ensures
        match (
            market.convert(router, cru_token_id, wegld_token_id, token_id, cru_amount),
            market.convert(router, cru_token_id, wegld_token_id, token_id, 2 * cru_amount),
        ) {
            (Ok(once), Ok(twice)) => 2 * once <= twice <= 2 * once + 1,
            (Err(first), Err(second)) => first == second,
            _ => false,
        },
{
    let to_canonical = (market.pair_of)(router, wegld_token_id, cru_token_id);
    let to_target = (market.pair_of)(router, wegld_token_id, token_id);
    let unit_in_canonical = (market.amount_in)(to_canonical, cru_token_id, PROBE_UNIT as nat);
    let unit_in_target = (market.amount_in)(to_target, token_id, PROBE_UNIT as nat);
    if unit_in_target > 0 {
        lemma_bridged_amount_doubles(cru_amount, unit_in_canonical, unit_in_target);
    }
}

/// Answering the open question as the market does changes nothing about
/// where the price computation ends.
pub proof fn lemma_conversion_step_keeps_run(conversion: ConversionView, market: Market)
    ensures
        conversion.resume(market.answer(conversion.query())).run(market) == conversion.run(market),
{
}

/// Answering the open question as the market does changes nothing about
/// where the order ends.
pub proof fn lemma_order_step_keeps_run(pending: PendingView, market: Market)
    ensures
        pending.resume(market.answer(pending.query())).run(market) == pending.run(market),
{
}

} // verus!
