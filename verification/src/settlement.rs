//! Settling an order: who is paid what, and what is recorded.
//!
//! Settlement moves nothing itself. It works out the transfers and the
//! record of an order from the payment and the price, so that the caller can
//! carry them out as one unit.

use crate::amount::Amount;
use crate::error::Error;
use crate::ident::{Address, Identifier, TokenId};
use vstd::prelude::*;

verus! {

/// An amount of a token.
#[derive(Debug)]
pub struct Payment {
    pub token: TokenId,
    pub amount: Amount,
}

/// A [`Payment`] as plain values.
pub struct PaymentView {
    pub token: Seq<u8>,
    pub amount: nat,
}

impl View for Payment {
    type V = PaymentView;

    open spec fn view(&self) -> PaymentView {
        PaymentView { token: self.token@, amount: self.amount@ }
    }
}

/// The views of a sequence of payments, in order.
pub open spec fn payments_of(payments: Seq<Payment>) -> Seq<PaymentView> {
    Seq::new(payments.len(), |i: int| payments[i]@)
}

/// The payment that counts: the first attached transfer where there is one,
/// else the payment that the call declares.
pub open spec fn resolved_payment(declared: PaymentView, attached: Seq<PaymentView>) -> PaymentView {
    if attached.len() > 0 {
        attached[0]
    } else {
        declared
    }
}

/// The payment that counts: the first attached transfer where there is one,
/// else the payment that the call declares. Further attached transfers are
/// ignored.
pub fn resolve_payment(declared: Payment, attached: &Vec<Payment>) -> (r: Payment)
    ensures
        r@ == resolved_payment(declared@, payments_of(attached@)),
{
    if attached.len() > 0 {
        Payment { token: attached[0].token.duplicate(), amount: attached[0].amount.duplicate() }
    } else {
        declared
    }
}

/// Why a transfer is made.
#[derive(Clone, Copy, PartialEq, Eq, Structural, Debug)]
pub enum TransferNote {
    /// The price of an order, paid to the node.
    OrderPayment,
    /// What the client paid beyond the price, paid back.
    RefundChange,
}

impl TransferNote {
    /// The text that goes with the transfer.
    pub open spec fn text_spec(self) -> Seq<char> {
        match self {
            TransferNote::OrderPayment => "order successfully"@,
            TransferNote::RefundChange => "refund change"@,
        }
    }

    /// The text that goes with the transfer.
    pub fn text(&self) -> (r: &'static str)
        ensures
            r@ == self.text_spec(),
    {
        match self {
            TransferNote::OrderPayment => "order successfully",
            TransferNote::RefundChange => "refund change",
        }
    }
}

/// A transfer out of the marketplace's custody.
#[derive(Debug)]
pub struct Transfer {
    pub to: Address,
    pub token: TokenId,
    pub amount: Amount,
    pub note: TransferNote,
}

/// A [`Transfer`] as plain values.
pub struct TransferView {
    pub to: Seq<u8>,
    pub token: Seq<u8>,
    pub amount: nat,
    pub note: TransferNote,
}

impl View for Transfer {
    type V = TransferView;

    open spec fn view(&self) -> TransferView {
        TransferView { to: self.to@, token: self.token@, amount: self.amount@, note: self.note }
    }
}

/// The record of an order that was placed.
#[derive(Debug)]
pub struct PlaceOrderEvent {
    pub caller: Address,
    pub node: Address,
    pub cid: Vec<u8>,
    pub token: TokenId,
    pub price: Amount,
    pub size: u64,
}

/// A [`PlaceOrderEvent`] as plain values.
pub struct EventView {
    pub caller: Seq<u8>,
    pub node: Seq<u8>,
    pub cid: Seq<u8>,
    pub token: Seq<u8>,
    pub price: nat,
    pub size: u64,
}

impl View for PlaceOrderEvent {
    type V = EventView;

    open spec fn view(&self) -> EventView {
        EventView {
            caller: self.caller@,
            node: self.node@,
            cid: self.cid@,
            token: self.token@,
            price: self.price@,
            size: self.size,
        }
    }
}

/// An order that passed validation: who places it with which node, for what
/// content, and what was paid.
#[derive(Debug)]
pub struct Order {
    pub caller: Address,
    pub epoch: u64,
    pub node: Address,
    pub cid: Vec<u8>,
    pub payment: Payment,
    pub size: u64,
}

/// An [`Order`] as plain values.
pub struct OrderView {
    pub caller: Seq<u8>,
    pub epoch: u64,
    pub node: Seq<u8>,
    pub cid: Seq<u8>,
    pub payment: PaymentView,
    pub size: u64,
}

impl View for Order {
    type V = OrderView;

    open spec fn view(&self) -> OrderView {
        OrderView {
            caller: self.caller@,
            epoch: self.epoch,
            node: self.node@,
            cid: self.cid@,
            payment: self.payment@,
            size: self.size,
        }
    }
}

/// What a settled order brings about: the payment to the node, the refund
/// to the client where one is due, and the record, which is filed under the
/// client and the epoch.
#[derive(Debug)]
pub struct Settlement {
    pub node_payment: Transfer,
    pub refund: Option<Transfer>,
    pub epoch: u64,
    pub event: PlaceOrderEvent,
}

/// A [`Settlement`] as plain values.
pub struct SettlementView {
    pub node_payment: TransferView,
    pub refund: Option<TransferView>,
    pub epoch: u64,
    pub event: EventView,
}

impl View for Settlement {
    type V = SettlementView;

    open spec fn view(&self) -> SettlementView {
        SettlementView {
            node_payment: self.node_payment@,
            refund: match self.refund {
                Some(transfer) => Some(transfer@),
                None => None,
            },
            epoch: self.epoch,
            event: self.event@,
        }
    }
}

impl SettlementView {
    /// The transfers in the order in which they are made.
    pub open spec fn transfers(self) -> Seq<TransferView> {
        match self.refund {
            Some(refund) => seq![self.node_payment, refund],
            None => seq![self.node_payment],
        }
    }
}

impl OrderView {
    /// The record of the order at `price`.
    pub open spec fn event(self, price: nat) -> EventView {
        EventView {
            caller: self.caller,
            node: self.node,
            cid: self.cid,
            token: self.payment.token,
            price,
            size: self.size,
        }
    }

    /// What settling the order at `price` brings about. The node is paid the
    /// price, the client is paid back what the payment holds beyond it, and
    /// a payment below the price settles nothing.
    pub open spec fn settle(self, price: nat) -> Result<SettlementView, Error> {
        if self.payment.amount < price {
            Err(Error::InsufficientPayment)
        } else {
            Ok(
                SettlementView {
                    node_payment: TransferView {
                        to: self.node,
                        token: self.payment.token,
                        amount: price,
                        note: TransferNote::OrderPayment,
                    },
                    refund: if self.payment.amount > price {
                        Some(
                            TransferView {
                                to: self.caller,
                                token: self.payment.token,
                                amount: (self.payment.amount - price) as nat,
                                note: TransferNote::RefundChange,
                            },
                        )
                    } else {
                        None
                    },
                    epoch: self.epoch,
                    event: self.event(price),
                },
            )
        }
    }
}

/// The view of a settlement or of the failure in its place.
pub open spec fn settled_view(r: Result<Settlement, Error>) -> Result<SettlementView, Error> {
    match r {
        Ok(settlement) => Ok(settlement@),
        Err(error) => Err(error),
    }
}

impl Order {
    /// The record of the order at `price`.
    pub fn emit_place_order_event(&self, price: &Amount) -> (event: PlaceOrderEvent)
        ensures
            event@ == self@.event(price@),
    {
        let cid = self.cid.clone();
        assert(cid@ =~= self.cid@);
        PlaceOrderEvent {
            caller: self.caller,
            node: self.node,
            cid,
            token: self.payment.token.duplicate(),
            price: price.duplicate(),
            size: self.size,
        }
    }

    /// Settles the order at `price`: fails where the payment is below the
    /// price, else gives the transfers to make and the record to file.
    pub fn settle(self, price: Amount) -> (r: Result<Settlement, Error>)
        ensures
            settled_view(r) == self@.settle(price@),
    {
        let event = self.emit_place_order_event(&price);
        match self.payment.amount.minus(&price) {
            None => Err(Error::InsufficientPayment),
            Some(change) => {
                let refund = if change.is_zero() {
                    None
                } else {
                    Some(
                        Transfer {
                            to: self.caller,
                            token: self.payment.token.duplicate(),
                            amount: change,
                            note: TransferNote::RefundChange,
                        },
                    )
                };
                Ok(
                    Settlement {
                        node_payment: Transfer {
                            to: self.node,
                            token: self.payment.token,
                            amount: price,
                            note: TransferNote::OrderPayment,
                        },
                        refund,
                        epoch: self.epoch,
                        event,
                    },
                )
            },
        }
    }
}

/// A payment that equals the price settles with one transfer, to the node;
/// a larger one with two, the second being the refund of the difference to
/// the client; a smaller one with none. What goes out is what came in.
pub proof fn lemma_settlement_transfers(order: OrderView, price: nat)
    ensures
        match order.settle(price) {
            Ok(settlement) => {
                &&& order.payment.amount >= price
                &&& settlement.transfers().len() == if order.payment.amount == price {
                    1nat
                } else {
                    2nat
                }
                &&& settlement.transfers()[0].to == order.node
                &&& settlement.transfers()[0].amount == price
                &&& settlement.refund matches Some(refund) ==> refund.to == order.caller
                    && refund.amount > 0 && price + refund.amount == order.payment.amount
                &&& forall|i: int|
                    0 <= i < settlement.transfers().len() ==> (
                    #[trigger] settlement.transfers()[i]).token == order.payment.token
            },
            Err(error) => order.payment.amount < price && error == Error::InsufficientPayment
                && error.kind_spec() == crate::error::ErrorKind::PaymentError,
        },
{
}

} // verus!
