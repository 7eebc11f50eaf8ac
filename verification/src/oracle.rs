//! Asking the pools.
//!
//! [`Router`] and [`Pair`] are the two collaborators that a conversion
//! questions. They answer from outside the marketplace, so nothing is known
//! of an answer but its kind; what is proved here holds whatever they say.

use crate::amount::Amount;
use crate::conversion::{
    lemma_resume_progresses, ConversionView, OracleQuery, OracleReply, PriceStep, QueryView,
    ReplyView, StepView,
};
use crate::error::Error;
use crate::ident::{Address, TokenId};
use crate::order::{OrderStep, OrderStepView};
use crate::settlement::{settled_view, OrderView, Settlement};
use vstd::prelude::*;

verus! {

/// The directory of liquidity pools.
pub trait Router {
    /// The address of the pool that the router at `router` knows for the two
    /// tokens, or the zero address where it knows none.
    fn get_pair(
        &mut self,
        router: &Address,
        first_token_id: &TokenId,
        second_token_id: &TokenId,
    ) -> Address;
}

/// The quoting service of the liquidity pools.
pub trait Pair {
    /// How much of its other token the pool at `pair` takes in for
    /// `amount_wanted` of `token_wanted` to come out.
    fn get_amount_in_view(
        &mut self,
        pair: &Address,
        token_wanted: &TokenId,
        amount_wanted: &Amount,
    ) -> Amount;
}

/// Whether `reply` is of the kind that `query` asks for.
pub open spec fn answers(reply: ReplyView, query: QueryView) -> bool {
    match query {
        QueryView::GetPair { .. } => reply is PairAddress,
        QueryView::GetAmountIn { .. } => reply is AmountIn,
    }
}

/// The failures that a conversion can end in when every answer is of the
/// kind that was asked for.
pub open spec fn conversion_failure(error: Error) -> bool {
    error is NoConversionPath || error is ZeroQuote
}

/// An answer of the right kind is never refused as unexpected: the
/// conversion goes on, ends, or fails for want of a pool or of a quote.
pub proof fn lemma_right_kind_is_expected(conversion: ConversionView, reply: ReplyView)
    requires
        answers(reply, conversion.query()),
    ensures
        conversion.resume(reply) matches StepView::Failed(error) ==> conversion_failure(error),
{
}

/// Puts `query` to the collaborator that it is meant for and hands back the
/// answer.
pub fn answer<R: Router, P: Pair>(router: &mut R, pair: &mut P, query: &OracleQuery) -> (reply:
    OracleReply)
    ensures
        answers(reply@, query@),
{
    match query {
        OracleQuery::GetPair { router: at, first_token_id, second_token_id } => {
            OracleReply::PairAddress(router.get_pair(at, first_token_id, second_token_id))
        },
        OracleQuery::GetAmountIn { pair: at, token_wanted, amount_wanted } => {
            OracleReply::AmountIn(pair.get_amount_in_view(at, token_wanted, amount_wanted))
        },
    }
}

/// The step at which a price computation has ended.
pub open spec fn ended_price(r: Result<Amount, Error>) -> StepView {
    match r {
        Ok(amount) => StepView::Done(amount@),
        Err(error) => StepView::Failed(error),
    }
}

/// The step at which an order has ended.
pub open spec fn ended_order(r: Result<Settlement, Error>) -> OrderStepView {
    match r {
        Ok(settlement) => OrderStepView::Done(settlement@),
        Err(error) => OrderStepView::Failed(error),
    }
}

/// The questions that can still follow a step.
pub open spec fn questions_left(step: StepView) -> nat {
    match step {
        StepView::Ask(conversion) => conversion.stage.questions_left(),
        _ => 0,
    }
}

/// Carries a price computation to its end, asking `router` and `pair`
/// whatever it needs to know. The end is the one that the answers lead to,
/// step by step, and there are five answers at most. A step that is done or
/// failed is handed back as it is. One that asks ends in a price or in a
/// failure of the conversion.
pub fn complete_price<R: Router, P: Pair>(start: PriceStep, router: &mut R, pair: &mut P) -> (r:
    Result<Amount, Error>)
    ensures
        start@ matches StepView::Done(price) ==> r matches Ok(amount) && amount@ == price,
        start@ matches StepView::Failed(error) ==> r == Err::<Amount, Error>(error),
        start@ is Ask ==> (r matches Err(error) ==> conversion_failure(error)),
        exists|replies: Seq<ReplyView>|
            replies.len() <= 5 && #[trigger] start@.feed(replies) == ended_price(r),
{
    let ghost first = start@;
    let ghost mut replies: Seq<ReplyView> = Seq::empty();
    let mut step = start;
    loop
        invariant
            first == start@,
            first is Ask ==> (step@ matches StepView::Failed(error) ==> conversion_failure(error)),
            !(first is Ask) ==> step@ == first,
            step@ == first.feed(replies),
            replies.len() + questions_left(step@) <= 5,
        decreases questions_left(step@) + if step@ is Ask { 1nat } else { 0nat },
    {
        match step {
            PriceStep::Ask(conversion) => {
                let query = conversion.query();
                let reply = answer(router, pair, &query);
                proof {
                    lemma_right_kind_is_expected(conversion@, reply@);
                    lemma_resume_progresses(conversion@, reply@);
                    assert(replies.push(reply@).drop_last() =~= replies);
                    replies = replies.push(reply@);
                }
                step = conversion.resume(reply);
            },
            PriceStep::Done(amount) => {
                assert(first.feed(replies) == ended_price(Ok::<Amount, Error>(amount)));
                return Ok(amount);
            },
            PriceStep::Failed(error) => {
                assert(first.feed(replies) == ended_price(Err::<Amount, Error>(error)));
                return Err(error);
            },
        }
    }
}

/// The order that a step belongs to, where it has not ended.
pub open spec fn order_under_way(step: OrderStepView, order: OrderView) -> bool {
    step matches OrderStepView::Ask(pending) ==> pending.order == order
}

/// The questions that can still follow a step of an order.
pub open spec fn order_questions_left(step: OrderStepView) -> nat {
    match step {
        OrderStepView::Ask(pending) => pending.conversion.stage.questions_left(),
        _ => 0,
    }
}

/// Carries an order to its end, asking `router` and `pair` whatever its
/// price needs. The end is the one that the answers lead to, step by step,
/// and there are five answers at most. A step that is done or failed is
/// handed back as it is. One that asks ends in the settlement of its order
/// at the price that came out, or in a failure of the conversion or of the
/// payment.
pub fn complete_order<R: Router, P: Pair>(start: OrderStep, router: &mut R, pair: &mut P) -> (r:
    Result<Settlement, Error>)
    ensures
        start@ matches OrderStepView::Done(settlement) ==> settled_view(r) == Ok::<_, Error>(
            settlement,
        ),
        start@ matches OrderStepView::Failed(error) ==> r == Err::<Settlement, Error>(error),
        start@ matches OrderStepView::Ask(pending) ==> match r {
            Ok(settlement) => pending.order.settle(settlement@.event.price) == Ok::<_, Error>(
                settlement@,
            ),
            Err(error) => conversion_failure(error) || error is InsufficientPayment,
        },
        exists|replies: Seq<ReplyView>|
            replies.len() <= 5 && #[trigger] start@.feed(replies) == ended_order(r),
{
    let ghost first = start@;
    let ghost mut replies: Seq<ReplyView> = Seq::empty();
    let mut step = start;
    loop
        invariant
            first == start@,
            step@ == first.feed(replies),
            replies.len() + order_questions_left(step@) <= 5,
            first matches OrderStepView::Ask(pending) ==> match step@ {
                OrderStepView::Ask(now) => now.order == pending.order,
                OrderStepView::Done(settlement) => pending.order.settle(settlement.event.price)
                    == Ok::<_, Error>(settlement),
                OrderStepView::Failed(error) => conversion_failure(error)
                    || error is InsufficientPayment,
            },
            !(first is Ask) ==> step@ == first,
        decreases order_questions_left(step@) + if step@ is Ask { 1nat } else { 0nat },
    {
        match step {
            OrderStep::Ask(pending) => {
                let query = pending.query();
                let reply = answer(router, pair, &query);
                proof {
                    lemma_right_kind_is_expected(pending@.conversion, reply@);
                    lemma_resume_progresses(pending@.conversion, reply@);
                    assert(replies.push(reply@).drop_last() =~= replies);
                    replies = replies.push(reply@);
                }
                step = pending.resume(reply);
            },
            OrderStep::Done(settlement) => {
                assert(first.feed(replies) == ended_order(Ok::<Settlement, Error>(settlement)));
                return Ok(settlement);
            },
            OrderStep::Failed(error) => {
                assert(first.feed(replies) == ended_order(Err::<Settlement, Error>(error)));
                return Err(error);
            },
        }
    }
}

} // verus!
