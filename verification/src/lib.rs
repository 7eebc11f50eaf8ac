//! A storage-order marketplace core: clients pay a size-based fee, in any
//! accepted token, to have content stored by a registered node.
//!
//! The crate holds the rules of the marketplace as verified code over plain
//! values: exact fee arithmetic, the conversion of a fee into another token
//! through liquidity pools, the choice of a node and the settlement of an
//! order. Everything that touches a ledger (storage, transfers, calls to
//! other contracts, randomness, events) is left to the caller, which feeds
//! the results in and carries the effects out.
//!
//! - [`contract`]: the state of the marketplace, its administration, and
//!   the entry points for pricing and for placing an order.
//! - [`pricing`]: the fee in the canonical token.
//! - [`conversion`]: the conversion of that fee into the payment token, as
//!   a sequence of questions to the pools and of answers.
//! - [`order`] and [`settlement`]: an order while its price is converted,
//!   and the transfers and the record that it ends in.
//! - [`oracle`]: the two collaborators that answer the questions, and the
//!   loops that ask them.
//! - [`market`]: what all of this comes to when the pools are known.
//! - [`amount`], [`ident`], [`registry`], [`error`]: the values that the
//!   rules work on.

pub mod amount;
pub mod contract;
pub mod conversion;
pub mod error;
pub mod ident;
pub mod market;
pub mod oracle;
pub mod order;
pub mod pricing;
pub mod registry;
pub mod settlement;
