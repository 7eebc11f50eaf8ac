//! The marketplace: its state, its administration, and the placing of
//! orders.
//!
//! A [`StorageOrder`] holds what the marketplace remembers between calls:
//! the tokens it accepts, the nodes that take orders, the price parameters
//! and the size limit. Pricing and placing an order read that state and
//! never change it; what an order brings about comes back as a value.

use crate::amount::Amount;
use crate::conversion::{Conversion, ConversionView, PriceStep, StepView};
use crate::error::{Error, ErrorKind};
use crate::ident::{Address, Identifier, TokenId};
use crate::market::{lemma_run_is_two_tier_lookup, Market};
use crate::order::{OrderStep, OrderStepView};
use crate::pricing::{canonical_fee, compute_canonical_fee};
use crate::registry::{distinct, keys_of, with_member, Registry};
use crate::settlement::{
    payments_of, resolve_payment, resolved_payment, Order, OrderView, Payment, PaymentView,
    SettlementView,
};
use vstd::prelude::*;

verus! {

/// The state of the marketplace.
#[derive(Debug)]
pub struct StorageOrder {
    supported_tokens: Registry<TokenId>,
    order_nodes: Registry<Address>,
    base_price: Option<Amount>,
    byte_price: Option<Amount>,
    service_price_rate: Amount,
    size_limit: u64,
    router_contract_address: Address,
    cru_token_id: TokenId,
    wegld_token_id: TokenId,
}

/// The state of the marketplace as plain values.
pub struct StateView {
    /// The tokens accepted as payment, in enumeration order.
    pub supported_tokens: Seq<Seq<u8>>,
    /// The nodes that take orders, in enumeration order.
    pub order_nodes: Seq<Seq<u8>>,
    /// The price of an order of no bytes, once it is set.
    pub base_price: Option<nat>,
    /// The price of each byte, once it is set.
    pub byte_price: Option<nat>,
    /// The service markup, in percent.
    pub service_price_rate: nat,
    /// The largest size that an order may have.
    pub size_limit: u64,
    /// The router that names the liquidity pools.
    pub router_contract_address: Seq<u8>,
    /// The canonical token, in which prices are set.
    pub cru_token_id: Seq<u8>,
    /// The bridge token, which also stands in for the native currency.
    pub wegld_token_id: Seq<u8>,
}

/// What the ledger says of a call: who makes it, in which epoch, and which
/// token transfers are attached to it.
#[derive(Debug)]
pub struct Call {
    pub caller: Address,
    pub epoch: u64,
    pub esdt_transfers: Vec<Payment>,
}

impl StateView {
    /// No token and no node is listed twice.
    pub open spec fn wf(self) -> bool {
        self.supported_tokens.no_duplicates() && self.order_nodes.no_duplicates()
    }

    /// The state of a new marketplace: the native currency, the bridge token
    /// and the canonical token are accepted, no node is registered and no
    /// price is set.
    pub open spec fn init(
        cru_token_id: Seq<u8>,
        wegld_token_id: Seq<u8>,
        router_contract_address: Seq<u8>,
        service_price_rate: nat,
        size_limit: u64,
    ) -> StateView {
        StateView {
            supported_tokens: with_member(
                with_member(seq![Seq::<u8>::empty()], wegld_token_id),
                cru_token_id,
            ),
            order_nodes: Seq::empty(),
            base_price: None,
            byte_price: None,
            service_price_rate,
            size_limit,
            router_contract_address,
            cru_token_id,
            wegld_token_id,
        }
    }

    /// Whether both price parameters are set. Any price counts, zero
    /// included.
    pub open spec fn prices_set(self) -> bool {
        self.base_price is Some && self.byte_price is Some
    }

    /// The fee for `size` bytes in the canonical token, where both price
    /// parameters are set.
    pub open spec fn price_in_cru(self, size: u64) -> nat
        recommends
            self.prices_set(),
    {
        canonical_fee(
            self.base_price->0,
            self.byte_price->0,
            self.service_price_rate,
            size as nat,
        )
    }

    /// The token that a payment token is priced in: the bridge token for
    /// the native currency, else the token itself.
    pub open spec fn priced_as(self, token_id: Seq<u8>) -> Seq<u8> {
        if token_id.len() == 0 {
            self.wegld_token_id
        } else {
            token_id
        }
    }

    /// The conversion of `cru_amount` of the canonical token into
    /// `token_id`, before any question.
    pub open spec fn get_price_in_token(self, token_id: Seq<u8>, cru_amount: nat) -> ConversionView {
        ConversionView::begin(
            self.router_contract_address,
            self.cru_token_id,
            self.wegld_token_id,
            token_id,
            cru_amount,
        )
    }

    /// The first step of pricing `size` bytes in `token_id`.
    pub open spec fn get_price(self, token_id: Seq<u8>, size: u64) -> StepView {
        if size > self.size_limit {
            StepView::Failed(Error::SizeExceedsLimit)
        } else if !self.prices_set() {
            StepView::Failed(Error::PriceNotConfigured)
        } else if token_id == self.cru_token_id {
            StepView::Done(self.price_in_cru(size))
        } else {
            StepView::Ask(
                self.get_price_in_token(self.priced_as(token_id), self.price_in_cru(size)),
            )
        }
    }

    /// The price of `size` bytes in `token_id` on `market`.
    pub open spec fn price(self, market: Market, token_id: Seq<u8>, size: u64) -> Result<nat, Error> {
        if size > self.size_limit {
            Err(Error::SizeExceedsLimit)
        } else if !self.prices_set() {
            Err(Error::PriceNotConfigured)
        } else if token_id == self.cru_token_id {
            Ok(self.price_in_cru(size))
        } else {
            market.convert(
                self.router_contract_address,
                self.cru_token_id,
                self.wegld_token_id,
                self.priced_as(token_id),
                self.price_in_cru(size),
            )
        }
    }

    /// The node that the random word `random` selects: the one at position
    /// `random` modulo the number of nodes.
    pub open spec fn get_random_node(self, random: u32) -> Result<Seq<u8>, Error> {
        if self.order_nodes.len() == 0 {
            Err(Error::NoNodesAvailable)
        } else {
            Ok(self.order_nodes[random as int % self.order_nodes.len() as int])
        }
    }

    /// The first step of an order with a named node.
    pub open spec fn place_order_with_node(self, order: OrderView) -> OrderStepView {
        if !self.supported_tokens.contains(order.payment.token) {
            OrderStepView::Failed(Error::UnsupportedToken)
        } else if !self.order_nodes.contains(order.node) {
            OrderStepView::Failed(Error::UnknownNode)
        } else {
            order.after(self.get_price(order.payment.token, order.size))
        }
    }

    /// The first step of an order whose node the random word `random`
    /// selects. What `order` names as its node is not read.
    pub open spec fn place_order(self, order: OrderView, random: u32) -> OrderStepView {
        if !self.supported_tokens.contains(order.payment.token) {
            OrderStepView::Failed(Error::UnsupportedToken)
        } else {
            match self.get_random_node(random) {
                Ok(node) => self.place_order_with_node(OrderView { node, ..order }),
                Err(error) => OrderStepView::Failed(error),
            }
        }
    }

    /// What an order with a named node comes to on `market`.
    pub open spec fn order_outcome(self, market: Market, order: OrderView) -> Result<
        SettlementView,
        Error,
    > {
        if !self.supported_tokens.contains(order.payment.token) {
            Err(Error::UnsupportedToken)
        } else if !self.order_nodes.contains(order.node) {
            Err(Error::UnknownNode)
        } else {
            match self.price(market, order.payment.token, order.size) {
                Ok(price) => order.settle(price),
                Err(error) => Err(error),
            }
        }
    }
}

/// The order that a call places, as plain values.
pub open spec fn order_of(
    call: Call,
    payment_token: Seq<u8>,
    payment_amount: nat,
    node: Seq<u8>,
    cid: Seq<u8>,
    size: u64,
) -> OrderView {
    OrderView {
        caller: call.caller@,
        epoch: call.epoch,
        node,
        cid,
        payment: resolved_payment(
            PaymentView { token: payment_token, amount: payment_amount },
            payments_of(call.esdt_transfers@),
        ),
        size,
    }
}

/// The view of a price parameter.
pub open spec fn price_view(price: Option<Amount>) -> Option<nat> {
    match price {
        Some(amount) => Some(amount@),
        None => None,
    }
}

/// The view of an address or of the failure in its place.
pub open spec fn address_view(r: Result<Address, Error>) -> Result<Seq<u8>, Error> {
    match r {
        Ok(address) => Ok(address@),
        Err(error) => Err(error),
    }
}

impl View for StorageOrder {
    type V = StateView;

    closed spec fn view(&self) -> StateView {
        StateView {
            supported_tokens: self.supported_tokens@,
            order_nodes: self.order_nodes@,
            base_price: price_view(self.base_price),
            byte_price: price_view(self.byte_price),
            service_price_rate: self.service_price_rate@,
            size_limit: self.size_limit,
            router_contract_address: self.router_contract_address@,
            cru_token_id: self.cru_token_id@,
            wegld_token_id: self.wegld_token_id@,
        }
    }
}

impl StorageOrder {
    /// No token and no node is listed twice.
    pub open spec fn wf(&self) -> bool {
        self@.wf()
    }

    /// A new marketplace. It accepts the native currency, the bridge token
    /// and the canonical token; it has no node and no price yet.
    pub fn init(
        cru_token_id: &TokenId,
        wegld_token_id: &TokenId,
        router_contract_address: &Address,
        service_price_rate: &Amount,
        size_limit: u64,
    ) -> (r: StorageOrder)
        ensures
            r.wf(),
            r@ == StateView::init(
                cru_token_id@,
                wegld_token_id@,
                router_contract_address@,
                service_price_rate@,
                size_limit,
            ),
    {
        let mut supported_tokens: Registry<TokenId> = Registry::new();
        supported_tokens.insert(TokenId::egld());
        assert(supported_tokens@ =~= seq![Seq::<u8>::empty()]);
        supported_tokens.insert(wegld_token_id.duplicate());
        supported_tokens.insert(cru_token_id.duplicate());
        StorageOrder {
            supported_tokens,
            order_nodes: Registry::new(),
            base_price: None,
            byte_price: None,
            service_price_rate: service_price_rate.duplicate(),
            size_limit,
            router_contract_address: *router_contract_address,
            cru_token_id: cru_token_id.duplicate(),
            wegld_token_id: wegld_token_id.duplicate(),
        }
    }

    /// The marketplace with the given state. A price that was never set is
    /// `None`. A token or a node that is listed twice counts once, at its
    /// first place.
    pub fn restore(
        supported_tokens: &Vec<TokenId>,
        order_nodes: &Vec<Address>,
        base_price: Option<Amount>,
        byte_price: Option<Amount>,
        service_price_rate: Amount,
        size_limit: u64,
        router_contract_address: Address,
        cru_token_id: TokenId,
        wegld_token_id: TokenId,
    ) -> (r: StorageOrder)
        ensures
            r.wf(),
            r@ == (StateView {
                supported_tokens: distinct(keys_of(supported_tokens@)),
                order_nodes: distinct(keys_of(order_nodes@)),
                base_price: price_view(base_price),
                byte_price: price_view(byte_price),
                service_price_rate: service_price_rate@,
                size_limit,
                router_contract_address: router_contract_address@,
                cru_token_id: cru_token_id@,
                wegld_token_id: wegld_token_id@,
            }),
    {
        StorageOrder {
            supported_tokens: Registry::from_members(supported_tokens),
            order_nodes: Registry::from_members(order_nodes),
            base_price,
            byte_price,
            service_price_rate,
            size_limit,
            router_contract_address,
            cru_token_id,
            wegld_token_id,
        }
    }

    /// The tokens accepted as payment, in enumeration order.
    pub fn supported_tokens(&self) -> (r: Vec<TokenId>)
        ensures
            keys_of(r@) == self@.supported_tokens,
    {
        self.supported_tokens.members()
    }

    /// The nodes that take orders, in enumeration order.
    pub fn order_nodes(&self) -> (r: Vec<Address>)
        ensures
            keys_of(r@) == self@.order_nodes,
    {
        self.order_nodes.members()
    }

    /// The price of an order of no bytes, once it is set.
    pub fn base_price(&self) -> (r: Option<Amount>)
        ensures
            price_view(r) == self@.base_price,
    {
        match &self.base_price {
            Some(price) => Some(price.duplicate()),
            None => None,
        }
    }

    /// The price of each byte, once it is set.
    pub fn byte_price(&self) -> (r: Option<Amount>)
        ensures
            price_view(r) == self@.byte_price,
    {
        match &self.byte_price {
            Some(price) => Some(price.duplicate()),
            None => None,
        }
    }

    /// The service markup, in percent.
    pub fn service_price_rate(&self) -> (r: Amount)
        ensures
            r@ == self@.service_price_rate,
    {
        self.service_price_rate.duplicate()
    }

    /// The router that names the liquidity pools.
    pub fn router_contract_address(&self) -> (r: Address)
        ensures
            r@ == self@.router_contract_address,
    {
        self.router_contract_address
    }

    /// The canonical token, in which prices are set.
    pub fn cru_token_id(&self) -> (r: TokenId)
        ensures
            r@ == self@.cru_token_id,
    {
        self.cru_token_id.duplicate()
    }

    /// The bridge token, which also stands in for the native currency.
    pub fn wegld_token_id(&self) -> (r: TokenId)
        ensures
            r@ == self@.wegld_token_id,
    {
        self.wegld_token_id.duplicate()
    }

    /// The largest size that an order may have.
    pub fn size_limit(&self) -> (r: u64)
        ensures
            r == self@.size_limit,
    {
        self.size_limit
    }

    /// Accepts `token_id` as payment, unless it is accepted already.
    pub fn add_supported_token(&mut self, token_id: TokenId) -> (r: Result<(), Error>)
        requires
            old(self).wf(),
        ensures
            final(self).wf(),
            r == if old(self)@.supported_tokens.contains(token_id@) {
                Err::<(), Error>(Error::TokenAlreadyAdded)
            } else {
                Ok(())
            },
            final(self)@ == if r is Ok {
                StateView {
                    supported_tokens: old(self)@.supported_tokens.push(token_id@),
                    ..old(self)@
                }
            } else {
                old(self)@
            },
    {
        if self.supported_tokens.insert(token_id) {
            Ok(())
        } else {
            Err(Error::TokenAlreadyAdded)
        }
    }

    /// Registers the node at `address`, unless it is registered already.
    pub fn add_order_node(&mut self, address: Address) -> (r: Result<(), Error>)
        requires
            old(self).wf(),
        ensures
            final(self).wf(),
            r == if old(self)@.order_nodes.contains(address@) {
                Err::<(), Error>(Error::NodeAlreadyAdded)
            } else {
                Ok(())
            },
            final(self)@ == if r is Ok {
                StateView { order_nodes: old(self)@.order_nodes.push(address@), ..old(self)@ }
            } else {
                old(self)@
            },
    {
        if self.order_nodes.insert(address) {
            Ok(())
        } else {
            Err(Error::NodeAlreadyAdded)
        }
    }

    /// Stops accepting `token_id` as payment. The other tokens keep their
    /// order.
    pub fn remove_supported_token(&mut self, token_id: &TokenId) -> (r: Result<(), Error>)
        requires
            old(self).wf(),
        ensures
            final(self).wf(),
            r == if old(self)@.supported_tokens.contains(token_id@) {
                Ok(())
            } else {
                Err::<(), Error>(Error::TokenNotFound)
            },
            final(self)@ == if r is Ok {
                StateView {
                    supported_tokens: old(self)@.supported_tokens.remove(
                        old(self)@.supported_tokens.index_of(token_id@),
                    ),
                    ..old(self)@
                }
            } else {
                old(self)@
            },
            !final(self)@.supported_tokens.contains(token_id@),
    {
        if self.supported_tokens.remove(token_id) {
            Ok(())
        } else {
            Err(Error::TokenNotFound)
        }
    }

    /// Removes the node at `address` from the order nodes. The other nodes
    /// keep their order.
    pub fn remove_order_node(&mut self, address: &Address) -> (r: Result<(), Error>)
        requires
            old(self).wf(),
        ensures
            final(self).wf(),
            r == if old(self)@.order_nodes.contains(address@) {
                Ok(())
            } else {
                Err::<(), Error>(Error::NodeNotFound)
            },
            final(self)@ == if r is Ok {
                StateView {
                    order_nodes: old(self)@.order_nodes.remove(
                        old(self)@.order_nodes.index_of(address@),
                    ),
                    ..old(self)@
                }
            } else {
                old(self)@
            },
            !final(self)@.order_nodes.contains(address@),
    {
        if self.order_nodes.remove(address) {
            Ok(())
        } else {
            Err(Error::NodeNotFound)
        }
    }

    /// Sets the base price and the byte price. From then on both are set,
    /// whatever their values.
    pub fn set_order_price(&mut self, base_price: Amount, byte_price: Amount) -> (r: Result<
        (),
        Error,
    >)
        ensures
            r is Ok,
            final(self)@ == (StateView {
                base_price: Some(base_price@),
                byte_price: Some(byte_price@),
                ..old(self)@
            }),
    {
        self.base_price = Some(base_price);
        self.byte_price = Some(byte_price);
        Ok(())
    }

    /// Sets the service markup, in percent.
    pub fn set_service_price_rate(&mut self, rate: Amount) -> (r: Result<(), Error>)
        ensures
            r is Ok,
            final(self)@ == (StateView { service_price_rate: rate@, ..old(self)@ }),
    {
        self.service_price_rate = rate;
        Ok(())
    }

    /// Sets the largest size that an order may have.
    pub fn set_size_limit(&mut self, limit: u64) -> (r: Result<(), Error>)
        ensures
            r is Ok,
            final(self)@ == (StateView { size_limit: limit, ..old(self)@ }),
    {
        self.size_limit = limit;
        Ok(())
    }

    /// The first step of pricing `size` bytes in `token_id`. It fails where
    /// the size is over the limit, else where a price parameter is not set;
    /// it is done at once where the token is the canonical token; else it
    /// asks the first question of the conversion, with the bridge token in
    /// place of the native currency.
    pub fn get_price(&self, token_id: &TokenId, size: u64) -> (r: PriceStep)
        ensures
            r@ == self@.get_price(token_id@, size),
    {
        if size > self.size_limit {
            return PriceStep::Failed(Error::SizeExceedsLimit);
        }
        let price_in_cru = match (&self.base_price, &self.byte_price) {
            (Some(base_price), Some(byte_price)) => compute_canonical_fee(
                base_price,
                byte_price,
                &self.service_price_rate,
                size,
            ),
            _ => {
                return PriceStep::Failed(Error::PriceNotConfigured);
            },
        };
        if token_id.same(&self.cru_token_id) {
            PriceStep::Done(price_in_cru)
        } else if token_id.is_egld() {
            self.get_price_in_token(self.wegld_token_id.duplicate(), price_in_cru)
        } else {
            self.get_price_in_token(token_id.duplicate(), price_in_cru)
        }
    }

    /// Starts the conversion of `cru_amount` of the canonical token into
    /// `token_id`: the step that asks its first question.
    pub fn get_price_in_token(&self, token_id: TokenId, cru_amount: Amount) -> (r: PriceStep)
        ensures
            r@ == StepView::Ask(self@.get_price_in_token(token_id@, cru_amount@)),
    {
        PriceStep::Ask(
            Conversion::begin(
                self.router_contract_address,
                self.cru_token_id.duplicate(),
                self.wegld_token_id.duplicate(),
                token_id,
                cru_amount,
            ),
        )
    }

    /// The node that the random word `random` selects: the one at position
    /// `random` modulo the number of nodes, in enumeration order. Fails
    /// where there is no node.
    pub fn get_random_node(&self, random: u32) -> (r: Result<Address, Error>)
        ensures
            address_view(r) == self@.get_random_node(random),
    {
        let len = self.order_nodes.len();
        if len == 0 {
            return Err(Error::NoNodesAvailable);
        }
        let rand_index: usize = random as usize % len;
        match self.order_nodes.get(rand_index) {
            Some(node) => Ok(node),
            None => Err(Error::NoNodesAvailable),
        }
    }

    /// The first step of an order with the node at `node_address`. The
    /// payment that counts is the first attached transfer, else the declared
    /// one. The order fails where the payment token is not supported, else
    /// where the node is not registered, else as its pricing fails; once
    /// the price is known it is settled, or fails where the payment is below
    /// the price.
    pub fn place_order_with_node(
        &self,
        call: &Call,
        payment_token: TokenId,
        payment_amount: Amount,
        node_address: Address,
        cid: Vec<u8>,
        size: u64,
    ) -> (r: OrderStep)
        ensures
            r@ == self@.place_order_with_node(
                order_of(*call, payment_token@, payment_amount@, node_address@, cid@, size),
            ),
    {
        let payment = resolve_payment(
            Payment { token: payment_token, amount: payment_amount },
            &call.esdt_transfers,
        );
        if !self.supported_tokens.contains(&payment.token) {
            return OrderStep::Failed(Error::UnsupportedToken);
        }
        if !self.order_nodes.contains(&node_address) {
            return OrderStep::Failed(Error::UnknownNode);
        }
        let step = self.get_price(&payment.token, size);
        let order = Order {
            caller: call.caller,
            epoch: call.epoch,
            node: node_address,
            cid,
            payment,
            size,
        };
        order.after(step)
    }

    /// The first step of an order whose node the random word `random`
    /// selects. The order fails where the payment token is not supported,
    /// else where there is no node; from there on it is an order with the
    /// selected node.
    pub fn place_order(
        &self,
        call: &Call,
        payment_token: TokenId,
        payment_amount: Amount,
        cid: Vec<u8>,
        size: u64,
        random: u32,
    ) -> (r: OrderStep)
        ensures
            r@ == self@.place_order(
                order_of(*call, payment_token@, payment_amount@, Seq::empty(), cid@, size),
                random,
            ),
    {
        let payment = resolve_payment(
            Payment { token: payment_token, amount: payment_amount },
            &call.esdt_transfers,
        );
        if !self.supported_tokens.contains(&payment.token) {
            return OrderStep::Failed(Error::UnsupportedToken);
        }
        match self.get_random_node(random) {
            Ok(node) => {
                let Payment { token, amount } = payment;
                self.place_order_with_node(call, token, amount, node, cid, size)
            },
            Err(error) => OrderStep::Failed(error),
        }
    }
}

/// Within the size limit and with both prices set, be they zero or more,
/// the price in the canonical token is the linear fee with the markup,
/// rounded down, whatever the pools say.
pub proof fn lemma_canonical_price(
    state: StateView,
    market: Market,
    base_price: nat,
    byte_price: nat,
    size: u64,
)
    requires
        size <= state.size_limit,
        state.base_price == Some(base_price),
        state.byte_price == Some(byte_price),
    ensures
        state.get_price(state.cru_token_id, size) matches StepView::Done(price) && price == (
        base_price + byte_price * size) * (100 + state.service_price_rate) / 100,
        state.price(market, state.cru_token_id, size) matches Ok(price) && price == (base_price
            + byte_price * size) * (100 + state.service_price_rate) / 100,
{
}

/// Setting the prices is what makes them set: before the first setting no
/// size is priced, and after a setting every size within the limit is, a
/// price of zero included.
pub proof fn lemma_prices_set_by_setting(
    before: StateView,
    base_price: nat,
    byte_price: nat,
    size: u64,
)
    requires
        size <= before.size_limit,
    ensures
        ({
            let after = StateView {
                base_price: Some(base_price),
                byte_price: Some(byte_price),
                ..before
            };
            after.prices_set() && after.get_price(after.cru_token_id, size) == StepView::Done(
                canonical_fee(base_price, byte_price, after.service_price_rate, size as nat),
            )
        }),
        !StateView::init(
            before.cru_token_id,
            before.wegld_token_id,
            before.router_contract_address,
            before.service_price_rate,
            before.size_limit,
        ).prices_set(),
{
}

/// A size over the limit fails for every token, whatever else holds.
pub proof fn lemma_size_over_limit_fails(state: StateView, market: Market, token_id: Seq<u8>, size: u64)
    requires
        size > state.size_limit,
    ensures
        state.get_price(token_id, size) == StepView::Failed(Error::SizeExceedsLimit),
        state.price(market, token_id, size) == Err::<nat, Error>(Error::SizeExceedsLimit),
        Error::SizeExceedsLimit.kind_spec() == ErrorKind::LimitExceeded,
{
}

/// While a price has not been set, every size within the limit fails for
/// every token.
pub proof fn lemma_unset_prices_fail(state: StateView, market: Market, token_id: Seq<u8>, size: u64)
    requires
        !state.prices_set(),
        size <= state.size_limit,
    ensures
        state.get_price(token_id, size) == StepView::Failed(Error::PriceNotConfigured),
        state.price(market, token_id, size) == Err::<nat, Error>(Error::PriceNotConfigured),
        Error::PriceNotConfigured.kind_spec() == ErrorKind::ConfigurationError,
{
}

/// Pricing step by step, with every question answered by the market, ends
/// at the price on that market.
pub proof fn lemma_get_price_runs_to_price(
    state: StateView,
    market: Market,
    token_id: Seq<u8>,
    size: u64,
)
    ensures
        state.get_price(token_id, size).run(market) == state.price(market, token_id, size),
{
    lemma_run_is_two_tier_lookup(
        market,
        state.router_contract_address,
        state.cru_token_id,
        state.wegld_token_id,
        state.priced_as(token_id),
        state.price_in_cru(size),
    );
}

/// Placing an order step by step, with every question answered by the
/// market, ends where the order comes to on that market.
pub proof fn lemma_place_order_runs_to_outcome(state: StateView, market: Market, order: OrderView)
    ensures
        state.place_order_with_node(order).run(market) == state.order_outcome(market, order),
{
    lemma_get_price_runs_to_price(state, market, order.payment.token, order.size);
}

/// On a market that prices it, an order in a supported token with a
/// registered node makes one transfer where the payment equals the price,
/// two where it is more, and fails without a transfer where it is less.
pub proof fn lemma_order_transfers(state: StateView, market: Market, order: OrderView, price: nat)
    requires
        state.supported_tokens.contains(order.payment.token),
        state.order_nodes.contains(order.node),
        state.price(market, order.payment.token, order.size) == Ok::<nat, Error>(price),
    ensures
        match state.place_order_with_node(order).run(market) {
            Ok(settlement) => {
                &&& order.payment.amount >= price
                &&& settlement.node_payment.to == order.node
                &&& settlement.node_payment.amount == price
                &&& settlement.event == order.event(price)
                &&& settlement.transfers().len() == if order.payment.amount == price {
                    1nat
                } else {
                    2nat
                }
                &&& settlement.refund matches Some(refund) ==> refund.to == order.caller && price
                    + refund.amount == order.payment.amount
            },
            Err(error) => order.payment.amount < price && error == Error::InsufficientPayment
                && error.kind_spec() == ErrorKind::PaymentError,
        },
{
    lemma_place_order_runs_to_outcome(state, market, order);
    crate::settlement::lemma_settlement_transfers(order, price);
}

/// A selected node is a registered node, and a node is selected whenever
/// there is one.
pub proof fn lemma_random_node_is_registered(state: StateView, random: u32)
    ensures
        match state.get_random_node(random) {
            Ok(node) => state.order_nodes.contains(node),
            Err(error) => state.order_nodes.len() == 0 && error == Error::NoNodesAvailable,
        },
{
    let n = state.order_nodes.len() as int;
    if n > 0 {
        vstd::arithmetic::div_mod::lemma_mod_bound(random as int, n);
    }
}

/// Every registered node is selected by some random word: the node at
/// position `index` by the word `index`, and by every word that leaves
/// `index` when divided by the number of nodes.
pub proof fn lemma_every_node_is_selected(state: StateView, index: int, random: u32)
    requires
        0 <= index < state.order_nodes.len(),
        random as int % state.order_nodes.len() as int == index,
    ensures
        state.get_random_node(random) == Ok::<Seq<u8>, Error>(state.order_nodes[index]),
        index <= u32::MAX ==> state.get_random_node(index as u32) == Ok::<Seq<u8>, Error>(
            state.order_nodes[index],
        ),
{
    if index <= u32::MAX {
        vstd::arithmetic::div_mod::lemma_small_mod(index as nat, state.order_nodes.len());
    }
}

/// An order in an unsupported token fails before anything is priced, and an
/// order without a node to take it fails before anything is paid.
pub proof fn lemma_order_is_validated_first(state: StateView, order: OrderView, random: u32)
    ensures
        !state.supported_tokens.contains(order.payment.token) ==> state.place_order(order, random)
            == OrderStepView::Failed(Error::UnsupportedToken)
            && state.place_order_with_node(order) == OrderStepView::Failed(Error::UnsupportedToken),
        state.supported_tokens.contains(order.payment.token) && state.order_nodes.len() == 0
            ==> state.place_order(order, random) == OrderStepView::Failed(Error::NoNodesAvailable),
        Error::UnsupportedToken.kind_spec() == ErrorKind::ValidationError,
        Error::NoNodesAvailable.kind_spec() == ErrorKind::ValidationError,
        Error::UnknownNode.kind_spec() == ErrorKind::ValidationError,
{
}

} // verus!
