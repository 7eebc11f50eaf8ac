use storage_order::amount::Amount;
use storage_order::contract::StorageOrder;
use storage_order::conversion::{OracleQuery, OracleReply, PriceStep, PROBE_UNIT};
use storage_order::error::{Error, ErrorKind, MissingPool};
use storage_order::ident::{Address, Identifier, TokenId};
use storage_order::pricing::compute_canonical_fee;

fn amt(x: u64) -> Amount {
    Amount::from_u64(x)
}

fn token(name: &str) -> TokenId {
    TokenId::new(name.as_bytes().to_vec())
}

fn addr(tag: u8) -> Address {
    let mut bytes = [0u8; 32];
    bytes[0] = tag;
    Address::new(bytes)
}

fn market(base: u64, byte: u64, rate: u64, limit: u64) -> StorageOrder {
    let mut s = StorageOrder::init(&token("CRU-a5f4aa"), &token("WEGLD-bd4d79"), &addr(9), &amt(rate), limit);
    assert!(s.set_order_price(amt(base), amt(byte)).is_ok());
    s
}

fn done(step: PriceStep) -> Amount {
    match step {
        PriceStep::Done(a) => a,
        _ => panic!("the step is not done"),
    }
}

fn failed(step: PriceStep) -> Error {
    match step {
        PriceStep::Failed(e) => e,
        _ => panic!("the step has not failed"),
    }
}

fn asking(step: PriceStep) -> storage_order::conversion::Conversion {
    match step {
        PriceStep::Ask(c) => c,
        _ => panic!("the step does not ask"),
    }
}

fn expect_pair_query(q: OracleQuery, router: &Address, first: &TokenId, second: &TokenId) {
    match q {
        OracleQuery::GetPair { router: r, first_token_id, second_token_id } => {
            assert!(r.same(router));
            assert!(first_token_id.same(first));
            assert!(second_token_id.same(second));
        }
        _ => panic!("not a question to the router"),
    }
}

fn expect_quote_query(q: OracleQuery, pair: &Address, wanted: &TokenId, amount: u64) {
    match q {
        OracleQuery::GetAmountIn { pair: p, token_wanted, amount_wanted } => {
            assert!(p.same(pair));
            assert!(token_wanted.same(wanted));
            assert!(amount_wanted.same(&amt(amount)));
        }
        _ => panic!("not a question to a pool"),
    }
}

#[test]
fn canonical_price_scenario() {
    let s = market(100, 2, 10, 1000);
    let price = done(s.get_price(&token("CRU-a5f4aa"), 50));
    assert!(price.same(&amt(220)));
}

#[test]
fn canonical_fee_formula_values() {
    assert!(compute_canonical_fee(&amt(100), &amt(2), &amt(10), 50).same(&amt(220)));
    assert!(compute_canonical_fee(&amt(100), &amt(2), &amt(0), 50).same(&amt(200)));
    assert!(compute_canonical_fee(&amt(1), &amt(1), &amt(50), 0).same(&amt(1)));
    assert!(compute_canonical_fee(&amt(1), &amt(1), &amt(50), 2).same(&amt(4)));
    assert!(compute_canonical_fee(&amt(0), &amt(0), &amt(10), 7).same(&amt(0)));
    assert!(compute_canonical_fee(&amt(3), &amt(0), &amt(33), 9).same(&amt(3)));
    assert!(compute_canonical_fee(&amt(99), &amt(0), &amt(1), 0).same(&amt(99)));
    assert!(compute_canonical_fee(&amt(100), &amt(0), &amt(1), 0).same(&amt(101)));
}

#[test]
fn canonical_fee_does_not_wrap() {
    let fee = compute_canonical_fee(&amt(u64::MAX), &amt(u64::MAX), &amt(100), u64::MAX);
    let linear = amt(u64::MAX).plus(&amt(u64::MAX).times(&amt(u64::MAX)));
    assert!(fee.same(&linear.times(&amt(2))));
}

#[test]
fn price_at_the_size_limit_and_beyond() {
    let s = market(100, 2, 10, 1000);
    assert!(done(s.get_price(&token("CRU-a5f4aa"), 1000)).same(&amt(2310)));
    assert!(done(s.get_price(&token("CRU-a5f4aa"), 0)).same(&amt(110)));
    for t in [token("CRU-a5f4aa"), token("WEGLD-bd4d79"), TokenId::egld(), token("OTHER-123456")] {
        let e = failed(s.get_price(&t, 1001));
        assert_eq!(e, Error::SizeExceedsLimit);
        assert_eq!(e.kind(), ErrorKind::LimitExceeded);
    }
}

#[test]
fn price_fails_while_prices_are_unset() {
    let s = StorageOrder::init(&token("CRU-a5f4aa"), &token("WEGLD-bd4d79"), &addr(9), &amt(10), 1000);
    for t in [token("CRU-a5f4aa"), TokenId::egld(), token("OTHER-123456")] {
        let e = failed(s.get_price(&t, 50));
        assert_eq!(e, Error::PriceNotConfigured);
        assert_eq!(e.kind(), ErrorKind::ConfigurationError);
    }
    assert_eq!(failed(s.get_price(&token("CRU-a5f4aa"), 1001)), Error::SizeExceedsLimit);
}

#[test]
fn a_zero_price_is_a_set_price() {
    let s = market(0, 2, 0, 1000);
    assert!(done(s.get_price(&token("CRU-a5f4aa"), 5)).same(&amt(10)));
    let mut s = market(0, 2, 10, 1000);
    assert!(done(s.get_price(&token("CRU-a5f4aa"), 50)).same(&amt(110)));
    assert!(s.set_order_price(amt(100), amt(0)).is_ok());
    assert!(done(s.get_price(&token("CRU-a5f4aa"), 50)).same(&amt(110)));
    assert!(s.set_order_price(amt(0), amt(0)).is_ok());
    assert!(done(s.get_price(&token("CRU-a5f4aa"), 50)).is_zero());
    assert!(s.base_price().unwrap().is_zero());
    assert!(s.byte_price().unwrap().is_zero());
    assert!(s.set_order_price(amt(100), amt(2)).is_ok());
    assert!(done(s.get_price(&token("CRU-a5f4aa"), 50)).same(&amt(220)));
}

#[test]
fn direct_pool_quote_is_the_price() {
    let s = market(100, 2, 10, 1000);
    let usdc = token("USDC-c76f1f");
    let c = asking(s.get_price(&usdc, 50));
    expect_pair_query(c.query(), &addr(9), &usdc, &token("CRU-a5f4aa"));
    let c = asking(c.resume(OracleReply::PairAddress(addr(21))));
    expect_quote_query(c.query(), &addr(21), &token("CRU-a5f4aa"), 220);
    let price = done(c.resume(OracleReply::AmountIn(amt(4321))));
    assert!(price.same(&amt(4321)));
}

#[test]
fn bridged_price_is_the_ratio_of_the_probes() {
    let s = market(100, 2, 10, 1000);
    let usdc = token("USDC-c76f1f");
    let cru = token("CRU-a5f4aa");
    let wegld = token("WEGLD-bd4d79");
    let c = asking(s.get_price(&usdc, 50));
    expect_pair_query(c.query(), &addr(9), &usdc, &cru);
    let c = asking(c.resume(OracleReply::PairAddress(Address::zero())));
    expect_pair_query(c.query(), &addr(9), &wegld, &cru);
    let c = asking(c.resume(OracleReply::PairAddress(addr(31))));
    expect_quote_query(c.query(), &addr(31), &cru, PROBE_UNIT);
    let c = asking(c.resume(OracleReply::AmountIn(amt(7))));
    expect_pair_query(c.query(), &addr(9), &wegld, &usdc);
    let c = asking(c.resume(OracleReply::PairAddress(addr(32))));
    expect_quote_query(c.query(), &addr(32), &usdc, PROBE_UNIT);
    let price = done(c.resume(OracleReply::AmountIn(amt(3))));
    assert!(price.same(&amt(220 * 7 / 3)));
    assert!(price.same(&amt(513)));
}

#[test]
fn native_currency_is_priced_as_the_bridge_token() {
    let s = market(100, 2, 10, 1000);
    let c = asking(s.get_price(&TokenId::egld(), 50));
    expect_pair_query(c.query(), &addr(9), &token("WEGLD-bd4d79"), &token("CRU-a5f4aa"));
    let c = asking(c.resume(OracleReply::PairAddress(addr(31))));
    expect_quote_query(c.query(), &addr(31), &token("CRU-a5f4aa"), 220);
    assert!(done(c.resume(OracleReply::AmountIn(amt(11)))).same(&amt(11)));
}

#[test]
fn get_price_in_token_starts_with_the_direct_pool() {
    let s = market(100, 2, 10, 1000);
    let usdc = token("USDC-c76f1f");
    let c = asking(s.get_price_in_token(usdc.duplicate(), amt(1000)));
    expect_pair_query(c.query(), &addr(9), &usdc, &token("CRU-a5f4aa"));
    let c = asking(c.resume(OracleReply::PairAddress(addr(5))));
    expect_quote_query(c.query(), &addr(5), &token("CRU-a5f4aa"), 1000);
}

#[test]
fn missing_bridge_pools_fail_the_conversion() {
    let s = market(100, 2, 10, 1000);
    let usdc = token("USDC-c76f1f");
    let c = asking(s.get_price(&usdc, 50));
    let c = asking(c.resume(OracleReply::PairAddress(Address::zero())));
    let e = failed(c.resume(OracleReply::PairAddress(Address::zero())));
    assert_eq!(e, Error::NoConversionPath(MissingPool::BridgeToCanonical));
    assert_eq!(e.kind(), ErrorKind::ConversionError);
    assert_eq!(e.message(), "Get egld cru swap pair failed");

    let c = asking(s.get_price(&usdc, 50));
    let c = asking(c.resume(OracleReply::PairAddress(Address::zero())));
    let c = asking(c.resume(OracleReply::PairAddress(addr(31))));
    let c = asking(c.resume(OracleReply::AmountIn(amt(7))));
    let e = failed(c.resume(OracleReply::PairAddress(Address::zero())));
    assert_eq!(e, Error::NoConversionPath(MissingPool::BridgeToTarget));
    assert_eq!(e.kind(), ErrorKind::ConversionError);
    assert_eq!(e.message(), "Get egld token swap pair failed");
}

#[test]
fn a_zero_quote_of_the_target_fails_the_conversion() {
    let s = market(100, 2, 10, 1000);
    let c = asking(s.get_price(&token("USDC-c76f1f"), 50));
    let c = asking(c.resume(OracleReply::PairAddress(Address::zero())));
    let c = asking(c.resume(OracleReply::PairAddress(addr(31))));
    let c = asking(c.resume(OracleReply::AmountIn(amt(7))));
    let c = asking(c.resume(OracleReply::PairAddress(addr(32))));
    let e = failed(c.resume(OracleReply::AmountIn(amt(0))));
    assert_eq!(e, Error::ZeroQuote);
    assert_eq!(e.kind(), ErrorKind::ConversionError);
}

#[test]
fn a_zero_quote_of_the_canonical_token_gives_zero() {
    let s = market(100, 2, 10, 1000);
    let c = asking(s.get_price(&token("USDC-c76f1f"), 50));
    let c = asking(c.resume(OracleReply::PairAddress(Address::zero())));
    let c = asking(c.resume(OracleReply::PairAddress(addr(31))));
    let c = asking(c.resume(OracleReply::AmountIn(amt(0))));
    let c = asking(c.resume(OracleReply::PairAddress(addr(32))));
    assert!(done(c.resume(OracleReply::AmountIn(amt(5)))).is_zero());
}

#[test]
fn an_answer_of_the_wrong_kind_is_refused() {
    let s = market(100, 2, 10, 1000);
    let c = asking(s.get_price(&token("USDC-c76f1f"), 50));
    assert_eq!(failed(c.resume(OracleReply::AmountIn(amt(1)))), Error::UnexpectedReply);
    let c = asking(s.get_price(&token("USDC-c76f1f"), 50));
    let c = asking(c.resume(OracleReply::PairAddress(addr(21))));
    assert_eq!(failed(c.resume(OracleReply::PairAddress(addr(21)))), Error::UnexpectedReply);
}

#[test]
fn bridged_conversion_scales_with_the_amount() {
    let s = market(100, 2, 10, 1000);
    for (amount, u, v) in [(220u64, 7u64, 3u64), (1, 1, 2), (5, 3, 7), (999, 1000, 1), (17, 0, 4)] {
        let run = |x: u64| {
            let c = asking(s.get_price_in_token(token("USDC-c76f1f"), amt(x)));
            let c = asking(c.resume(OracleReply::PairAddress(Address::zero())));
            let c = asking(c.resume(OracleReply::PairAddress(addr(31))));
            let c = asking(c.resume(OracleReply::AmountIn(amt(u))));
            let c = asking(c.resume(OracleReply::PairAddress(addr(32))));
            done(c.resume(OracleReply::AmountIn(amt(v))))
        };
        let once = run(amount);
        let twice = run(2 * amount);
        assert!(once.same(&amt(amount * u / v)));
        let doubled = once.times(&amt(2));
        assert!(twice.ge(&doubled));
        assert!(doubled.plus(&amt(1)).ge(&twice));
    }
}

#[test]
fn every_failure_has_its_kind_and_message() {
    let all = [
        (Error::SizeExceedsLimit, ErrorKind::LimitExceeded, "Size exceeds the limit"),
        (Error::PriceNotConfigured, ErrorKind::ConfigurationError, "Order price has not been set"),
        (Error::UnsupportedToken, ErrorKind::ValidationError, "Unsupported token to pay"),
        (Error::UnknownNode, ErrorKind::ValidationError, "Unsupported node to order"),
        (Error::NoNodesAvailable, ErrorKind::ValidationError, "No nodes to choose"),
        (
            Error::InsufficientPayment,
            ErrorKind::PaymentError,
            "Payment amount less than price, please get price again",
        ),
        (
            Error::NoConversionPath(MissingPool::BridgeToCanonical),
            ErrorKind::ConversionError,
            "Get egld cru swap pair failed",
        ),
        (
            Error::NoConversionPath(MissingPool::BridgeToTarget),
            ErrorKind::ConversionError,
            "Get egld token swap pair failed",
        ),
        (Error::ZeroQuote, ErrorKind::ConversionError, "division by 0"),
        (Error::UnexpectedReply, ErrorKind::ConversionError, "Unexpected reply"),
        (Error::TokenAlreadyAdded, ErrorKind::ValidationError, "Token has been added"),
        (Error::NodeAlreadyAdded, ErrorKind::ValidationError, "Node has been added"),
        (Error::TokenNotFound, ErrorKind::ValidationError, "Token not found"),
        (Error::NodeNotFound, ErrorKind::ValidationError, "Node not found"),
    ];
    for (error, kind, message) in all {
        assert_eq!(error.kind(), kind);
        assert_eq!(error.message(), message);
    }
}
