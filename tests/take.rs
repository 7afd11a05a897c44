use entropy_otc::error::{EntropyError, EntropyErrorCode};
use entropy_otc::orders::{init_order_book, MarketClass, OrderBook, OtcOrderStatus, Side};
use entropy_otc::settlement::MarginAccount;

const CREATOR_OWNER: [u8; 32] = [1u8; 32];
const CREATOR_ACCOUNT: [u8; 32] = [2u8; 32];
const TAKER_OWNER: [u8; 32] = [3u8; 32];
const TAKER_ACCOUNT: [u8; 32] = [4u8; 32];
const STRANGER: [u8; 32] = [5u8; 32];
const QUOTE_UNIT: i64 = 1_000_000;

fn code_of<T: std::fmt::Debug>(r: Result<T, EntropyError>) -> EntropyErrorCode {
    match r {
        Err(EntropyError::EntropyErrorCode { mango_error_code, .. }) => mango_error_code,
        other => panic!("expected a library error, got {:?}", other),
    }
}

fn account(key: [u8; 32], owner: [u8; 32], deposit: i64) -> MarginAccount {
    MarginAccount {
        key,
        owner,
        perp_base_positions: vec![0; 3],
        spot_base_balances: vec![0; 3],
        quote_balance: deposit * QUOTE_UNIT,
    }
}

/// A plain stand-in for the health evaluator: quote balance less a tenth of
/// the notional of every position.
fn health(a: &MarginAccount, price: i64) -> i64 {
    let exposure: i64 = a
        .perp_base_positions
        .iter()
        .chain(a.spot_base_balances.iter())
        .map(|p| p.abs() * price * QUOTE_UNIT / 10)
        .sum();
    a.quote_balance - exposure
}

fn book_with_order(side: Side, expires: u64) -> OrderBook {
    let mut book = init_order_book(false, CREATOR_ACCOUNT, 255, 1).unwrap();
    let i = book
        .create_order(MarketClass::Perp, &CREATOR_ACCOUNT, 0, side, 1, 200, TAKER_OWNER, expires, 1)
        .unwrap();
    assert_eq!(i, 0);
    book
}

/// Proposes the take, evaluates health on the proposal, and settles.
fn take(
    book: &mut OrderBook,
    class: MarketClass,
    index: usize,
    creator: &mut MarginAccount,
    taker: &mut MarginAccount,
    caller: &[u8; 32],
    now: u64,
) -> Result<(), EntropyError> {
    let (hc, ht) = match book.propose_take(class, index, creator, taker, caller, now) {
        Ok((c2, t2)) => (health(&c2, 1), health(&t2, 1)),
        Err(_) => (0, 0),
    };
    book.take(class, index, creator, taker, caller, now, hc, ht)
}

#[test]
fn success_ask() {
    let mut creator = account(CREATOR_ACCOUNT, CREATOR_OWNER, 4000);
    let mut taker = account(TAKER_ACCOUNT, TAKER_OWNER, 6000);
    let mut book = book_with_order(Side::Ask, 9999999999999);
    assert_eq!(creator.perp_base_positions[0], 0);
    assert_eq!(taker.perp_base_positions[0], 0);
    take(&mut book, MarketClass::Perp, 0, &mut creator, &mut taker, &TAKER_OWNER, 2).unwrap();
    assert_eq!(creator.perp_base_positions[0], -200);
    assert_eq!(taker.perp_base_positions[0], 200);
    assert_eq!(creator.quote_balance, 4000 * QUOTE_UNIT);
    assert_eq!(book.perp_orders_len, 1);
    assert_eq!(book.perp_orders[0].status, OtcOrderStatus::Filled);
}

#[test]
fn success_bid() {
    let mut creator = account(CREATOR_ACCOUNT, CREATOR_OWNER, 5000);
    let mut taker = account(TAKER_ACCOUNT, TAKER_OWNER, 15000);
    let mut book = book_with_order(Side::Bid, 9999999999999);
    take(&mut book, MarketClass::Perp, 0, &mut creator, &mut taker, &TAKER_OWNER, 2).unwrap();
    assert_eq!(creator.perp_base_positions[0], 200);
    assert_eq!(taker.perp_base_positions[0], -200);
    assert_eq!(book.perp_orders_len, 1);
    assert_eq!(book.perp_orders[0].status, OtcOrderStatus::Filled);
}

#[test]
fn fail_invalid_account() {
    let mut creator = account(CREATOR_ACCOUNT, CREATOR_OWNER, 4000);
    let mut taker = account(TAKER_ACCOUNT, TAKER_OWNER, 6000);
    let mut book = book_with_order(Side::Ask, 9999999999999);
    let r = take(&mut book, MarketClass::Perp, 0, &mut creator, &mut taker, &CREATOR_OWNER, 2);
    assert_eq!(code_of(r), EntropyErrorCode::InvalidAccount);
    assert_eq!(creator.perp_base_positions[0], 0);
    assert_eq!(taker.perp_base_positions[0], 0);
    assert_eq!(book.perp_orders[0].status, OtcOrderStatus::Active);
}

#[test]
fn take_by_account_of_a_stranger_fails() {
    let mut creator = account(CREATOR_ACCOUNT, CREATOR_OWNER, 4000);
    let mut stranger = account(TAKER_ACCOUNT, STRANGER, 6000);
    let mut book = book_with_order(Side::Ask, 9999999999999);
    let r = take(&mut book, MarketClass::Perp, 0, &mut creator, &mut stranger, &STRANGER, 2);
    assert_eq!(code_of(r), EntropyErrorCode::InvalidAccount);
    assert_eq!(stranger.perp_base_positions[0], 0);
}

#[test]
fn take_rejects_wrong_creator_account() {
    let mut other = account(STRANGER, CREATOR_OWNER, 4000);
    let mut taker = account(TAKER_ACCOUNT, TAKER_OWNER, 6000);
    let mut book = book_with_order(Side::Ask, 9999999999999);
    let r = take(&mut book, MarketClass::Perp, 0, &mut other, &mut taker, &TAKER_OWNER, 2);
    assert_eq!(code_of(r), EntropyErrorCode::InvalidAccount);
}

#[test]
fn fail_insufficient_funds() {
    let mut creator = account(CREATOR_ACCOUNT, CREATOR_OWNER, 0);
    let mut taker = account(TAKER_ACCOUNT, TAKER_OWNER, 0);
    let mut book = book_with_order(Side::Ask, 9999999999999);
    let r = take(&mut book, MarketClass::Perp, 0, &mut creator, &mut taker, &TAKER_OWNER, 2);
    assert_eq!(code_of(r), EntropyErrorCode::InsufficientHealth);
    assert_eq!(creator.perp_base_positions[0], 0);
    assert_eq!(taker.perp_base_positions[0], 0);
    assert_eq!(book.perp_orders[0].status, OtcOrderStatus::Active);
}

#[test]
fn one_negative_health_is_enough_to_fail() {
    let mut creator = account(CREATOR_ACCOUNT, CREATOR_OWNER, 4000);
    let mut taker = account(TAKER_ACCOUNT, TAKER_OWNER, 6000);
    let mut book = book_with_order(Side::Ask, 9999999999999);
    let r = book.take(MarketClass::Perp, 0, &mut creator, &mut taker, &TAKER_OWNER, 2, 10, -1);
    assert_eq!(code_of(r), EntropyErrorCode::InsufficientHealth);
    assert_eq!(creator.perp_base_positions[0], 0);
}

#[test]
fn fail_otc_order_expired() {
    let mut creator = account(CREATOR_ACCOUNT, CREATOR_OWNER, 4000);
    let mut taker = account(TAKER_ACCOUNT, TAKER_OWNER, 6000);
    let mut book = book_with_order(Side::Ask, 1500);
    let r = take(&mut book, MarketClass::Perp, 0, &mut creator, &mut taker, &TAKER_OWNER, 1500);
    assert_eq!(code_of(r), EntropyErrorCode::OrderExpired);
    let r = book.take(MarketClass::Perp, 0, &mut creator, &mut taker, &TAKER_OWNER, 1501, 100, 100);
    assert_eq!(code_of(r), EntropyErrorCode::OrderExpired);
    assert_eq!(taker.perp_base_positions[0], 0);
}

#[test]
fn test_take_perp_otc_order_fail_invalid_otc_order_status() {
    let mut creator = account(CREATOR_ACCOUNT, CREATOR_OWNER, 4000);
    let mut taker = account(TAKER_ACCOUNT, TAKER_OWNER, 6000);
    let mut book = book_with_order(Side::Ask, 9999999999999);
    take(&mut book, MarketClass::Perp, 0, &mut creator, &mut taker, &TAKER_OWNER, 2).unwrap();
    let r = take(&mut book, MarketClass::Perp, 0, &mut creator, &mut taker, &TAKER_OWNER, 10);
    assert_eq!(code_of(r), EntropyErrorCode::InvalidAccountState);
    assert_eq!(creator.perp_base_positions[0], -200);
    assert_eq!(taker.perp_base_positions[0], 200);
}

#[test]
fn take_of_cancelled_order_fails() {
    let mut creator = account(CREATOR_ACCOUNT, CREATOR_OWNER, 4000);
    let mut taker = account(TAKER_ACCOUNT, TAKER_OWNER, 6000);
    let mut book = book_with_order(Side::Ask, 9999999999999);
    book.cancel_order(MarketClass::Perp, 0, &CREATOR_ACCOUNT, 2).unwrap();
    let r = take(&mut book, MarketClass::Perp, 0, &mut creator, &mut taker, &TAKER_OWNER, 3);
    assert_eq!(code_of(r), EntropyErrorCode::InvalidAccountState);
}

#[test]
fn take_index_out_of_range() {
    let mut creator = account(CREATOR_ACCOUNT, CREATOR_OWNER, 4000);
    let mut taker = account(TAKER_ACCOUNT, TAKER_OWNER, 6000);
    let mut book = book_with_order(Side::Ask, 9999999999999);
    let r = take(&mut book, MarketClass::Perp, 1337, &mut creator, &mut taker, &TAKER_OWNER, 2);
    assert_eq!(code_of(r), EntropyErrorCode::InvalidOrderId);
}

#[test]
fn take_unknown_market_fails() {
    let mut creator = account(CREATOR_ACCOUNT, CREATOR_OWNER, 4000);
    let mut taker = account(TAKER_ACCOUNT, TAKER_OWNER, 6000);
    let mut book = init_order_book(false, CREATOR_ACCOUNT, 255, 1).unwrap();
    book.create_order(MarketClass::Perp, &CREATOR_ACCOUNT, 7, Side::Ask, 1, 200, TAKER_OWNER, 100, 1)
        .unwrap();
    let r = take(&mut book, MarketClass::Perp, 0, &mut creator, &mut taker, &TAKER_OWNER, 2);
    assert_eq!(code_of(r), EntropyErrorCode::InvalidMarket);
}

#[test]
fn spot_bid_moves_base_and_quote() {
    let mut creator = account(CREATOR_ACCOUNT, CREATOR_OWNER, 0);
    let mut taker = account(TAKER_ACCOUNT, TAKER_OWNER, 0);
    creator.quote_balance = 10_000;
    taker.spot_base_balances[1] = 50;
    let mut book = init_order_book(false, CREATOR_ACCOUNT, 255, 1).unwrap();
    book.create_order(MarketClass::Spot, &CREATOR_ACCOUNT, 1, Side::Bid, 30, 40, TAKER_OWNER, 100, 1)
        .unwrap();
    let (c2, t2) =
        book.propose_take(MarketClass::Spot, 0, &creator, &taker, &TAKER_OWNER, 2).unwrap();
    assert_eq!(c2.spot_base_balances[1], 40);
    assert_eq!(c2.quote_balance, 10_000 - 1_200);
    assert_eq!(t2.spot_base_balances[1], 10);
    assert_eq!(t2.quote_balance, 1_200);
    assert_eq!(creator.spot_base_balances[1], 0);
    book.take(MarketClass::Spot, 0, &mut creator, &mut taker, &TAKER_OWNER, 2, 0, 0).unwrap();
    assert_eq!(creator.quote_balance, 8_800);
    assert_eq!(taker.quote_balance, 1_200);
    assert_eq!(taker.spot_base_balances[1], 10);
    assert_eq!(book.spot_orders[0].status, OtcOrderStatus::Filled);
    assert_eq!(book.spot_orders_len, 1);
}

#[test]
fn overflow_is_a_math_error() {
    let mut creator = account(CREATOR_ACCOUNT, CREATOR_OWNER, 0);
    let mut taker = account(TAKER_ACCOUNT, TAKER_OWNER, 0);
    creator.perp_base_positions[0] = i64::MIN + 100;
    let mut book = init_order_book(false, CREATOR_ACCOUNT, 255, 1).unwrap();
    book.create_order(MarketClass::Perp, &CREATOR_ACCOUNT, 0, Side::Ask, 1, 200, TAKER_OWNER, 100, 1)
        .unwrap();
    let r = book.take(MarketClass::Perp, 0, &mut creator, &mut taker, &TAKER_OWNER, 2, 0, 0);
    assert_eq!(code_of(r), EntropyErrorCode::MathError);
    assert_eq!(creator.perp_base_positions[0], i64::MIN + 100);
    assert_eq!(book.perp_orders[0].status, OtcOrderStatus::Active);
}

#[test]
fn spot_notional_overflow_is_a_math_error() {
    let creator = account(CREATOR_ACCOUNT, CREATOR_OWNER, 0);
    let taker = account(TAKER_ACCOUNT, TAKER_OWNER, 0);
    let mut book = init_order_book(false, CREATOR_ACCOUNT, 255, 1).unwrap();
    book.create_order(
        MarketClass::Spot,
        &CREATOR_ACCOUNT,
        0,
        Side::Bid,
        u64::MAX,
        3,
        TAKER_OWNER,
        100,
        1,
    )
    .unwrap();
    let r = book.propose_take(MarketClass::Spot, 0, &creator, &taker, &TAKER_OWNER, 2);
    assert_eq!(code_of(r), EntropyErrorCode::MathError);
}
