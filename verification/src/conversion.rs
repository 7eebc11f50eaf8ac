//! Converting a canonical amount into another token.
//!
//! The rates come from liquidity pools that live outside the marketplace: a
//! router names the pool of a token pair, and a pool quotes how much of one
//! token must go in for a wanted amount of the other to come out. A
//! [`Conversion`] decides which question is asked next and what follows from
//! each answer; asking is left to the caller.
//!
//! Where the router knows a pool of the requested token and the canonical
//! token, that pool's quote is the result. Otherwise the conversion goes
//! through the bridge token: both the canonical and the requested token are
//! quoted against the same reference amount, and the result is the ratio of
//! the two quotes applied to the amount.

use crate::amount::Amount;
use crate::error::{Error, MissingPool};
use crate::ident::{zero_address, Address, Identifier, TokenId};
use vstd::prelude::*;

verus! {

/// The reference amount that both legs of a bridged conversion are quoted for.
pub const PROBE_UNIT: u64 = 1_000_000_000_000;

/// The amount of the requested token that stands for `amount` of the
/// canonical token, given what the bridge pools quote for the reference
/// amount: `unit_in_canonical` by the pool of the canonical token,
/// `unit_in_target` by the pool of the requested token.
pub open spec fn bridged_amount(amount: nat, unit_in_canonical: nat, unit_in_target: nat) -> nat {
    amount * unit_in_canonical / unit_in_target
}

/// A question to a collaborator outside the marketplace.
#[derive(Debug)]
pub enum OracleQuery {
    /// Ask `router` for the address of the pool of the two tokens.
    GetPair { router: Address, first_token_id: TokenId, second_token_id: TokenId },
    /// Ask the pool at `pair` how much of its other token must go in for
    /// `amount_wanted` of `token_wanted` to come out.
    GetAmountIn { pair: Address, token_wanted: TokenId, amount_wanted: Amount },
}

/// What an [`OracleQuery`] asks, as plain values.
pub enum QueryView {
    GetPair { router: Seq<u8>, first_token_id: Seq<u8>, second_token_id: Seq<u8> },
    GetAmountIn { pair: Seq<u8>, token_wanted: Seq<u8>, amount_wanted: nat },
}

impl View for OracleQuery {
    type V = QueryView;

    open spec fn view(&self) -> QueryView {
        match self {
            OracleQuery::GetPair { router, first_token_id, second_token_id } => QueryView::GetPair {
                router: router@,
                first_token_id: first_token_id@,
                second_token_id: second_token_id@,
            },
            OracleQuery::GetAmountIn { pair, token_wanted, amount_wanted } => QueryView::GetAmountIn {
                pair: pair@,
                token_wanted: token_wanted@,
                amount_wanted: amount_wanted@,
            },
        }
    }
}

/// The answer to an [`OracleQuery`].
#[derive(Debug)]
pub enum OracleReply {
    /// The router's answer: the pool's address, or the zero address where it
    /// knows no pool of the pair.
    PairAddress(Address),
    /// A pool's answer: the amount that must go in.
    AmountIn(Amount),
}

/// What an [`OracleReply`] says, as plain values.
pub enum ReplyView {
    PairAddress(Seq<u8>),
    AmountIn(nat),
}

impl View for OracleReply {
    type V = ReplyView;

    open spec fn view(&self) -> ReplyView {
        match self {
            OracleReply::PairAddress(a) => ReplyView::PairAddress(a@),
            OracleReply::AmountIn(x) => ReplyView::AmountIn(x@),
        }
    }
}

/// How far a conversion has come: the question that is open.
#[derive(Debug)]
pub enum Stage {
    /// Which pool pairs the requested token with the canonical token?
    DirectPair,
    /// What does that pool quote for the amount?
    DirectQuote { pair: Address },
    /// Which pool pairs the bridge token with the canonical token?
    BridgeCanonicalPair,
    /// What does that pool quote for the reference amount?
    BridgeCanonicalQuote { pair: Address },
    /// Which pool pairs the bridge token with the requested token?
    BridgeTargetPair { unit_in_canonical: Amount },
    /// What does that pool quote for the reference amount?
    BridgeTargetQuote { pair: Address, unit_in_canonical: Amount },
}

/// A [`Stage`] as plain values.
pub enum StageView {
    DirectPair,
    DirectQuote { pair: Seq<u8> },
    BridgeCanonicalPair,
    BridgeCanonicalQuote { pair: Seq<u8> },
    BridgeTargetPair { unit_in_canonical: nat },
    BridgeTargetQuote { pair: Seq<u8>, unit_in_canonical: nat },
}

impl View for Stage {
    type V = StageView;

    open spec fn view(&self) -> StageView {
        match self {
            Stage::DirectPair => StageView::DirectPair,
            Stage::DirectQuote { pair } => StageView::DirectQuote { pair: pair@ },
            Stage::BridgeCanonicalPair => StageView::BridgeCanonicalPair,
            Stage::BridgeCanonicalQuote { pair } => StageView::BridgeCanonicalQuote { pair: pair@ },
            Stage::BridgeTargetPair { unit_in_canonical } => StageView::BridgeTargetPair {
                unit_in_canonical: unit_in_canonical@,
            },
            Stage::BridgeTargetQuote { pair, unit_in_canonical } => StageView::BridgeTargetQuote {
                pair: pair@,
                unit_in_canonical: unit_in_canonical@,
            },
        }
    }
}

/// A conversion under way: what is converted, and the open question.
#[derive(Debug)]
pub struct Conversion {
    router: Address,
    cru_token_id: TokenId,
    wegld_token_id: TokenId,
    token_id: TokenId,
    cru_amount: Amount,
    stage: Stage,
}

/// A [`Conversion`] as plain values.
pub struct ConversionView {
    /// The router that names the pools.
    pub router: Seq<u8>,
    /// The canonical token.
    pub cru_token_id: Seq<u8>,
    /// The bridge token.
    pub wegld_token_id: Seq<u8>,
    /// The requested token.
    pub token_id: Seq<u8>,
    /// The amount of the canonical token to convert.
    pub cru_amount: nat,
    /// The open question.
    pub stage: StageView,
}

/// The outcome of a step: another question, the result, or a failure.
pub enum StepView {
    Ask(ConversionView),
    Done(nat),
    Failed(Error),
}

impl ConversionView {
    /// The conversion of `cru_amount` into `token_id`, before any question.
    pub open spec fn begin(
        router: Seq<u8>,
        cru_token_id: Seq<u8>,
        wegld_token_id: Seq<u8>,
        token_id: Seq<u8>,
        cru_amount: nat,
    ) -> ConversionView {
        ConversionView {
            router,
            cru_token_id,
            wegld_token_id,
            token_id,
            cru_amount,
            stage: StageView::DirectPair,
        }
    }

    /// The same conversion at another stage.
    pub open spec fn at(self, stage: StageView) -> ConversionView {
        ConversionView { stage, ..self }
    }

    /// The open question.
    pub open spec fn query(self) -> QueryView {
        match self.stage {
            StageView::DirectPair => QueryView::GetPair {
                router: self.router,
                first_token_id: self.token_id,
                second_token_id: self.cru_token_id,
            },
            StageView::DirectQuote { pair } => QueryView::GetAmountIn {
                pair,
                token_wanted: self.cru_token_id,
                amount_wanted: self.cru_amount,
            },
            StageView::BridgeCanonicalPair => QueryView::GetPair {
                router: self.router,
                first_token_id: self.wegld_token_id,
                second_token_id: self.cru_token_id,
            },
            StageView::BridgeCanonicalQuote { pair } => QueryView::GetAmountIn {
                pair,
                token_wanted: self.cru_token_id,
                amount_wanted: PROBE_UNIT as nat,
            },
            StageView::BridgeTargetPair { .. } => QueryView::GetPair {
                router: self.router,
                first_token_id: self.wegld_token_id,
                second_token_id: self.token_id,
            },
            StageView::BridgeTargetQuote { pair, .. } => QueryView::GetAmountIn {
                pair,
                token_wanted: self.token_id,
                amount_wanted: PROBE_UNIT as nat,
            },
        }
    }

    /// What follows from `reply` to the open question.
    pub open spec fn resume(self, reply: ReplyView) -> StepView {
        match (self.stage, reply) {
            (StageView::DirectPair, ReplyView::PairAddress(pair)) => {
                if pair != zero_address() {
                    StepView::Ask(self.at(StageView::DirectQuote { pair }))
                } else {
                    StepView::Ask(self.at(StageView::BridgeCanonicalPair))
                }
            },
            (StageView::DirectQuote { .. }, ReplyView::AmountIn(amount_in)) => StepView::Done(
                amount_in,
            ),
            (StageView::BridgeCanonicalPair, ReplyView::PairAddress(pair)) => {
                if pair != zero_address() {
                    StepView::Ask(self.at(StageView::BridgeCanonicalQuote { pair }))
                } else {
                    StepView::Failed(Error::NoConversionPath(MissingPool::BridgeToCanonical))
                }
            },
            (StageView::BridgeCanonicalQuote { .. }, ReplyView::AmountIn(amount_in)) => {
                StepView::Ask(self.at(StageView::BridgeTargetPair { unit_in_canonical: amount_in }))
            },
            (StageView::BridgeTargetPair { unit_in_canonical }, ReplyView::PairAddress(pair)) => {
                if pair != zero_address() {
                    StepView::Ask(self.at(StageView::BridgeTargetQuote { pair, unit_in_canonical }))
                } else {
                    StepView::Failed(Error::NoConversionPath(MissingPool::BridgeToTarget))
                }
            },
            (StageView::BridgeTargetQuote { unit_in_canonical, .. }, ReplyView::AmountIn(amount_in)) => {
                if amount_in == 0 {
                    StepView::Failed(Error::ZeroQuote)
                } else {
                    StepView::Done(bridged_amount(self.cru_amount, unit_in_canonical, amount_in))
                }
            },
            _ => StepView::Failed(Error::UnexpectedReply),
        }
    }
}

impl StageView {
    /// The most questions that can still follow, the open one included.
    pub open spec fn questions_left(self) -> nat {
        match self {
            StageView::DirectPair => 5,
            StageView::BridgeCanonicalPair => 4,
            StageView::BridgeCanonicalQuote { .. } => 3,
            StageView::BridgeTargetPair { .. } => 2,
            StageView::BridgeTargetQuote { .. } => 1,
            StageView::DirectQuote { .. } => 1,
        }
    }
}

impl View for Conversion {
    type V = ConversionView;

    closed spec fn view(&self) -> ConversionView {
        ConversionView {
            router: self.router@,
            cru_token_id: self.cru_token_id@,
            wegld_token_id: self.wegld_token_id@,
            token_id: self.token_id@,
            cru_amount: self.cru_amount@,
            stage: self.stage@,
        }
    }
}

/// The outcome of a step of a price computation.
#[derive(Debug)]
pub enum PriceStep {
    /// A question is open: answer `query()` of the conversion, then resume it.
    Ask(Conversion),
    /// The price, in the requested token.
    Done(Amount),
    /// The computation failed.
    Failed(Error),
}

impl View for PriceStep {
    type V = StepView;

    open spec fn view(&self) -> StepView {
        match self {
            PriceStep::Ask(conversion) => StepView::Ask(conversion@),
            PriceStep::Done(amount) => StepView::Done(amount@),
            PriceStep::Failed(error) => StepView::Failed(*error),
        }
    }
}

impl Conversion {
    /// Starts the conversion of `cru_amount` of the canonical token into
    /// `token_id`.
    pub fn begin(
        router: Address,
        cru_token_id: TokenId,
        wegld_token_id: TokenId,
        token_id: TokenId,
        cru_amount: Amount,
    ) -> (r: Conversion)
        ensures
            r@ == ConversionView::begin(
                router@,
                cru_token_id@,
                wegld_token_id@,
                token_id@,
                cru_amount@,
            ),
    {
        Conversion {
            router,
            cru_token_id,
            wegld_token_id,
            token_id,
            cru_amount,
            stage: Stage::DirectPair,
        }
    }

    /// The open question.
    pub fn query(&self) -> (q: OracleQuery)
        ensures
            q@ == self@.query(),
    {
        match &self.stage {
            Stage::DirectPair => OracleQuery::GetPair {
                router: self.router,
                first_token_id: self.token_id.duplicate(),
                second_token_id: self.cru_token_id.duplicate(),
            },
            Stage::DirectQuote { pair } => OracleQuery::GetAmountIn {
                pair: *pair,
                token_wanted: self.cru_token_id.duplicate(),
                amount_wanted: self.cru_amount.duplicate(),
            },
            Stage::BridgeCanonicalPair => OracleQuery::GetPair {
                router: self.router,
                first_token_id: self.wegld_token_id.duplicate(),
                second_token_id: self.cru_token_id.duplicate(),
            },
            Stage::BridgeCanonicalQuote { pair } => OracleQuery::GetAmountIn {
                pair: *pair,
                token_wanted: self.cru_token_id.duplicate(),
                amount_wanted: Amount::from_u64(PROBE_UNIT),
            },
            Stage::BridgeTargetPair { .. } => OracleQuery::GetPair {
                router: self.router,
                first_token_id: self.wegld_token_id.duplicate(),
                second_token_id: self.token_id.duplicate(),
            },
            Stage::BridgeTargetQuote { pair, .. } => OracleQuery::GetAmountIn {
                pair: *pair,
                token_wanted: self.token_id.duplicate(),
                amount_wanted: Amount::from_u64(PROBE_UNIT),
            },
        }
    }

    /// Takes the answer to the open question and says what follows: the next
    /// question, the converted amount, or a failure.
    pub fn resume(self, reply: OracleReply) -> (r: PriceStep)
        ensures
            r@ == self@.resume(reply@),
    {
        let Conversion { router, cru_token_id, wegld_token_id, token_id, cru_amount, stage } = self;
        let next: Stage = match (stage, reply) {
            (Stage::DirectPair, OracleReply::PairAddress(pair)) => {
                if !pair.is_zero() {
                    Stage::DirectQuote { pair }
                } else {
                    Stage::BridgeCanonicalPair
                }
            },
            (Stage::DirectQuote { .. }, OracleReply::AmountIn(amount_in)) => {
                return PriceStep::Done(amount_in);
            },
            (Stage::BridgeCanonicalPair, OracleReply::PairAddress(pair)) => {
                if !pair.is_zero() {
                    Stage::BridgeCanonicalQuote { pair }
                } else {
                    return PriceStep::Failed(
                        Error::NoConversionPath(MissingPool::BridgeToCanonical),
                    );
                }
            },
            (Stage::BridgeCanonicalQuote { .. }, OracleReply::AmountIn(amount_in)) => {
                Stage::BridgeTargetPair { unit_in_canonical: amount_in }
            },
            (Stage::BridgeTargetPair { unit_in_canonical }, OracleReply::PairAddress(pair)) => {
                if !pair.is_zero() {
                    Stage::BridgeTargetQuote { pair, unit_in_canonical }
                } else {
                    return PriceStep::Failed(Error::NoConversionPath(MissingPool::BridgeToTarget));
                }
            },
            (Stage::BridgeTargetQuote { unit_in_canonical, .. }, OracleReply::AmountIn(amount_in)) => {
                return match cru_amount.times(&unit_in_canonical).div_floor(&amount_in) {
                    Some(converted) => PriceStep::Done(converted),
                    None => PriceStep::Failed(Error::ZeroQuote),
                };
            },
            _ => {
                return PriceStep::Failed(Error::UnexpectedReply);
            },
        };
        PriceStep::Ask(
            Conversion { router, cru_token_id, wegld_token_id, token_id, cru_amount, stage: next },
        )
    }
}

/// Each answer of the right kind either ends the conversion or leaves fewer
/// questions to ask.
pub proof fn lemma_resume_progresses(conversion: ConversionView, reply: ReplyView)
    ensures
        match conversion.resume(reply) {
            StepView::Ask(next) => next.stage.questions_left()
                < conversion.stage.questions_left() && next == conversion.at(next.stage),
            _ => true,
        },
{
}

/// Twice the amount converts, over a bridge, to twice the result or to one
/// unit more: only the final division rounds.
pub proof fn lemma_bridged_amount_doubles(amount: nat, unit_in_canonical: nat, unit_in_target: nat)
    requires
        unit_in_target > 0,
    ensures
        2 * bridged_amount(amount, unit_in_canonical, unit_in_target) <= bridged_amount(
            2 * amount,
            unit_in_canonical,
            unit_in_target,
        ) <= 2 * bridged_amount(amount, unit_in_canonical, unit_in_target) + 1,
{
    let v = unit_in_target as int;
    let x = (amount * unit_in_canonical) as int;
    let q = x / v;
    let r = x % v;
    vstd::arithmetic::div_mod::lemma_fundamental_div_mod(x, v);
    vstd::arithmetic::div_mod::lemma_mod_bound(x, v);
    assert((2 * amount) * unit_in_canonical == 2 * x) by (nonlinear_arith)
        requires
            x == amount * unit_in_canonical,
    ;
    assert(0 <= q) by (nonlinear_arith)
        requires
            x == v * q + r,
            0 <= r < v,
            0 <= x,
    ;
    if 2 * r < v {
        assert(2 * x == (2 * q) * v + 2 * r) by (nonlinear_arith)
            requires
                x == v * q + r,
        ;
        vstd::arithmetic::div_mod::lemma_fundamental_div_mod_converse(2 * x, v, 2 * q, 2 * r);
    } else {
        assert(2 * x == (2 * q + 1) * v + (2 * r - v)) by (nonlinear_arith)
            requires
                x == v * q + r,
        ;
        vstd::arithmetic::div_mod::lemma_fundamental_div_mod_converse(
            2 * x,
            v,
            2 * q + 1,
            2 * r - v,
        );
    }
}

} // verus!
