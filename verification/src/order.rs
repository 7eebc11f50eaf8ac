//! An order on its way to settlement.
//!
//! Where the price of an order has to be converted, the order waits for the
//! answers of the pools. A [`PendingOrder`] holds the order and the
//! conversion; each answer leads to the next question, to the settlement or
//! to a failure.

use crate::conversion::{
    Conversion, ConversionView, OracleQuery, OracleReply, PriceStep, QueryView, ReplyView,
    StepView,
};
use crate::error::Error;
use crate::settlement::{Order, OrderView, Settlement, SettlementView};
use vstd::prelude::*;

verus! {

/// An order whose price is being converted into the payment token.
#[derive(Debug)]
pub struct PendingOrder {
    order: Order,
    conversion: Conversion,
}

/// A [`PendingOrder`] as plain values.
pub struct PendingView {
    pub order: OrderView,
    pub conversion: ConversionView,
}

impl View for PendingOrder {
    type V = PendingView;

    closed spec fn view(&self) -> PendingView {
        PendingView { order: self.order@, conversion: self.conversion@ }
    }
}

/// The outcome of a step of an order, as plain values.
pub enum OrderStepView {
    Ask(PendingView),
    Done(SettlementView),
    Failed(Error),
}

/// The outcome of a step of an order.
#[derive(Debug)]
pub enum OrderStep {
    /// A question is open: answer `query()` of the pending order, then
    /// resume it.
    Ask(PendingOrder),
    /// The order is settled: make the transfers and file the record.
    Done(Settlement),
    /// The order failed: nothing is to be done.
    Failed(Error),
}

impl View for OrderStep {
    type V = OrderStepView;

    open spec fn view(&self) -> OrderStepView {
        match self {
            OrderStep::Ask(pending) => OrderStepView::Ask(pending@),
            OrderStep::Done(settlement) => OrderStepView::Done(settlement@),
            OrderStep::Failed(error) => OrderStepView::Failed(*error),
        }
    }
}

impl OrderView {
    /// What follows for the order from a step of its price computation.
    pub open spec fn after(self, step: StepView) -> OrderStepView {
        match step {
            StepView::Ask(conversion) => OrderStepView::Ask(PendingView { order: self, conversion }),
            StepView::Done(price) => match self.settle(price) {
                Ok(settlement) => OrderStepView::Done(settlement),
                Err(error) => OrderStepView::Failed(error),
            },
            StepView::Failed(error) => OrderStepView::Failed(error),
        }
    }
}

impl PendingView {
    /// The open question.
    pub open spec fn query(self) -> QueryView {
        self.conversion.query()
    }

    /// What follows from `reply` to the open question.
    pub open spec fn resume(self, reply: ReplyView) -> OrderStepView {
        self.order.after(self.conversion.resume(reply))
    }

}

impl StepView {
    /// The step that is reached when the open questions are answered by
    /// `replies` in turn. A step that has ended stays as it is.
    pub open spec fn feed(self, replies: Seq<ReplyView>) -> StepView
        decreases replies.len(),
    {
        if replies.len() == 0 {
            self
        } else {
            match self.feed(replies.drop_last()) {
                StepView::Ask(conversion) => conversion.resume(replies.last()),
                ended => ended,
            }
        }
    }
}

impl OrderStepView {
    /// The step that is reached when the open questions are answered by
    /// `replies` in turn. A step that has ended stays as it is.
    pub open spec fn feed(self, replies: Seq<ReplyView>) -> OrderStepView
        decreases replies.len(),
    {
        if replies.len() == 0 {
            self
        } else {
            match self.feed(replies.drop_last()) {
                OrderStepView::Ask(pending) => pending.resume(replies.last()),
                ended => ended,
            }
        }
    }
}

impl Order {
    /// What follows for the order from a step of its price computation: it
    /// waits for the next answer, is settled at the price, or fails.
    pub fn after(self, step: PriceStep) -> (r: OrderStep)
        ensures
            r@ == self@.after(step@),
    {
        match step {
            PriceStep::Ask(conversion) => OrderStep::Ask(PendingOrder { order: self, conversion }),
            PriceStep::Done(price) => match self.settle(price) {
                Ok(settlement) => OrderStep::Done(settlement),
                Err(error) => OrderStep::Failed(error),
            },
            PriceStep::Failed(error) => OrderStep::Failed(error),
        }
    }
}

impl PendingOrder {
    /// The open question.
    pub fn query(&self) -> (q: OracleQuery)
        ensures
            q@ == self@.query(),
    {
        self.conversion.query()
    }

    /// Takes the answer to the open question and says what follows: the next
    /// question, the settlement, or a failure.
    pub fn resume(self, reply: OracleReply) -> (r: OrderStep)
        ensures
            r@ == self@.resume(reply@),
    {
        let PendingOrder { order, conversion } = self;
        order.after(conversion.resume(reply))
    }
}

} // verus!
