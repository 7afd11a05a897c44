use entropy_otc::error::{EntropyError, EntropyErrorCode};
use entropy_otc::orders::{
    init_order_book, MarketClass, OrderBook, OtcOrderStatus, Side, MAX_OTC_ORDERS,
};

const OWNER: [u8; 32] = [7u8; 32];
const OTHER: [u8; 32] = [9u8; 32];
const COUNTERPARTY: [u8; 32] = [3u8; 32];
const DWELL: u64 = 2;

fn code_of<T: std::fmt::Debug>(r: Result<T, EntropyError>) -> EntropyErrorCode {
    match r {
        Err(EntropyError::EntropyErrorCode { mango_error_code, .. }) => mango_error_code,
        other => panic!("expected a library error, got {:?}", other),
    }
}

fn fresh_book() -> OrderBook {
    init_order_book(false, OWNER, 254, DWELL).unwrap()
}

fn create_perp(book: &mut OrderBook, now: u64) -> Result<usize, EntropyError> {
    book.create_order(
        MarketClass::Perp,
        &OWNER,
        0,
        Side::Ask,
        1000000,
        2000000000,
        COUNTERPARTY,
        9999999999999,
        now,
    )
}

#[test]
fn success_init_otc_orders() {
    let book = init_order_book(false, OWNER, 12, DWELL).unwrap();
    assert_eq!(book.creator_account, OWNER);
    assert_eq!(book.bump, 12);
    assert_eq!(book.perp_orders[0].status, OtcOrderStatus::Uninitialized);
    assert_eq!(book.spot_orders[0].status, OtcOrderStatus::Uninitialized);
    assert_eq!(book.perp_orders_len, 0);
    assert_eq!(book.spot_orders_len, 0);
    assert_eq!(book.perp_orders.len(), MAX_OTC_ORDERS);
    assert!(book.perp_orders.iter().all(|o| o.status == OtcOrderStatus::Uninitialized));
    assert!(book.spot_orders.iter().all(|o| o.status == OtcOrderStatus::Uninitialized));
}

#[test]
fn init_fails_when_record_exists() {
    assert_eq!(code_of(init_order_book(true, OWNER, 1, DWELL)), EntropyErrorCode::AlreadyInitialized);
}

#[test]
fn init_fails_with_zero_dwell() {
    assert_eq!(code_of(init_order_book(false, OWNER, 1, 0)), EntropyErrorCode::InvalidParam);
}

#[test]
fn create_sets_length_and_status() {
    let mut book = fresh_book();
    assert_eq!(create_perp(&mut book, 1).unwrap(), 0);
    assert_eq!(book.perp_orders_len, 1);
    assert_eq!(book.spot_orders_len, 0);
    let o = book.perp_orders[0];
    assert_eq!(o.status, OtcOrderStatus::Active);
    assert_eq!(o.price, 1000000);
    assert_eq!(o.size, 2000000000);
    assert_eq!(o.counterparty, COUNTERPARTY);
    assert_eq!(o.created_at, 1);
    assert_eq!(o.last_changed_at, 1);
}

#[test]
fn create_spot_uses_spot_slots() {
    let mut book = fresh_book();
    let i = book
        .create_order(MarketClass::Spot, &OWNER, 2, Side::Bid, 5, 10, COUNTERPARTY, 100, 1)
        .unwrap();
    assert_eq!(i, 0);
    assert_eq!(book.spot_orders_len, 1);
    assert_eq!(book.perp_orders_len, 0);
    assert_eq!(book.spot_orders[0].market_index, 2);
}

#[test]
fn create_takes_first_free_slot() {
    let mut book = fresh_book();
    assert_eq!(create_perp(&mut book, 1).unwrap(), 0);
    assert_eq!(create_perp(&mut book, 1).unwrap(), 1);
    assert_eq!(create_perp(&mut book, 1).unwrap(), 2);
    book.cancel_order(MarketClass::Perp, 1, &OWNER, 2).unwrap();
    book.delete_order(MarketClass::Perp, 1, &OWNER, 4).unwrap();
    assert_eq!(book.perp_orders_len, 2);
    assert_eq!(create_perp(&mut book, 5).unwrap(), 1);
    assert_eq!(book.perp_orders_len, 3);
}

#[test]
fn create_fails_when_full() {
    let mut book = fresh_book();
    for i in 0..MAX_OTC_ORDERS {
        assert_eq!(create_perp(&mut book, 1).unwrap(), i);
    }
    assert_eq!(book.perp_orders_len, MAX_OTC_ORDERS);
    assert_eq!(code_of(create_perp(&mut book, 1)), EntropyErrorCode::OutOfSpace);
    assert_eq!(book.perp_orders_len, MAX_OTC_ORDERS);
}

#[test]
fn create_rejects_invalid_params() {
    let mut book = fresh_book();
    let zero_price =
        book.create_order(MarketClass::Perp, &OWNER, 0, Side::Bid, 0, 10, COUNTERPARTY, 100, 1);
    assert_eq!(code_of(zero_price), EntropyErrorCode::InvalidParam);
    let zero_size =
        book.create_order(MarketClass::Perp, &OWNER, 0, Side::Bid, 5, 0, COUNTERPARTY, 100, 1);
    assert_eq!(code_of(zero_size), EntropyErrorCode::InvalidParam);
    let expired =
        book.create_order(MarketClass::Perp, &OWNER, 0, Side::Bid, 5, 10, COUNTERPARTY, 100, 100);
    assert_eq!(code_of(expired), EntropyErrorCode::InvalidParam);
    assert_eq!(book.perp_orders_len, 0);
}

#[test]
fn create_rejects_other_caller() {
    let mut book = fresh_book();
    let r = book.create_order(MarketClass::Perp, &OTHER, 0, Side::Bid, 5, 10, COUNTERPARTY, 100, 1);
    assert_eq!(code_of(r), EntropyErrorCode::InvalidAccount);
    assert_eq!(book.perp_orders_len, 0);
}

#[test]
fn success() {
    let mut book = fresh_book();
    create_perp(&mut book, 1).unwrap();
    book.cancel_order(MarketClass::Perp, 0, &OWNER, 3).unwrap();
    assert_eq!(book.perp_orders[0].status, OtcOrderStatus::Cancelled);
    assert_eq!(book.perp_orders[0].last_changed_at, 3);
    book.delete_order(MarketClass::Perp, 0, &OWNER, 6).unwrap();
    assert_eq!(book.perp_orders_len, 0);
    assert_eq!(book.perp_orders[0].status, OtcOrderStatus::Uninitialized);
    assert_eq!(book.perp_orders[1].status, OtcOrderStatus::Uninitialized);
}

#[test]
fn round_trip_restores_book() {
    let before = fresh_book();
    let mut book = fresh_book();
    create_perp(&mut book, 1).unwrap();
    book.cancel_order(MarketClass::Perp, 0, &OWNER, 3).unwrap();
    book.delete_order(MarketClass::Perp, 0, &OWNER, 3 + DWELL).unwrap();
    assert_eq!(book.perp_orders, before.perp_orders);
    assert_eq!(book.perp_orders_len, before.perp_orders_len);
}

#[test]
fn fail_invalid_otc_order_index() {
    let mut book = fresh_book();
    create_perp(&mut book, 1).unwrap();
    let r = book.delete_order(MarketClass::Perp, 1337, &OWNER, 10);
    assert_eq!(code_of(r), EntropyErrorCode::InvalidOrderId);
    let r = book.cancel_order(MarketClass::Perp, MAX_OTC_ORDERS, &OWNER, 10);
    assert_eq!(code_of(r), EntropyErrorCode::InvalidOrderId);
}

#[test]
fn test_delete_perp_otc_order_fail_invalid_otc_order_status() {
    let mut book = fresh_book();
    create_perp(&mut book, 1).unwrap();
    let r = book.delete_order(MarketClass::Perp, 0, &OWNER, 3);
    assert_eq!(code_of(r), EntropyErrorCode::InvalidAccountState);
    assert_eq!(book.perp_orders[0].status, OtcOrderStatus::Active);
    assert_eq!(book.perp_orders_len, 1);
}

#[test]
fn delete_before_dwell_fails() {
    let mut book = fresh_book();
    create_perp(&mut book, 1).unwrap();
    book.cancel_order(MarketClass::Perp, 0, &OWNER, 3).unwrap();
    let r = book.delete_order(MarketClass::Perp, 0, &OWNER, 3);
    assert_eq!(code_of(r), EntropyErrorCode::InvalidAccountState);
    let r = book.delete_order(MarketClass::Perp, 0, &OWNER, 3 + DWELL - 1);
    assert_eq!(code_of(r), EntropyErrorCode::InvalidAccountState);
    assert_eq!(book.perp_orders[0].status, OtcOrderStatus::Cancelled);
    assert_eq!(book.perp_orders_len, 1);
}

#[test]
fn cancel_twice_fails() {
    let mut book = fresh_book();
    create_perp(&mut book, 1).unwrap();
    book.cancel_order(MarketClass::Perp, 0, &OWNER, 2).unwrap();
    let r = book.cancel_order(MarketClass::Perp, 0, &OWNER, 3);
    assert_eq!(code_of(r), EntropyErrorCode::InvalidAccountState);
    assert_eq!(book.perp_orders[0].last_changed_at, 2);
}

#[test]
fn cancel_and_delete_reject_other_caller() {
    let mut book = fresh_book();
    create_perp(&mut book, 1).unwrap();
    let r = book.cancel_order(MarketClass::Perp, 0, &OTHER, 2);
    assert_eq!(code_of(r), EntropyErrorCode::InvalidAccount);
    book.cancel_order(MarketClass::Perp, 0, &OWNER, 2).unwrap();
    let r = book.delete_order(MarketClass::Perp, 0, &OTHER, 10);
    assert_eq!(code_of(r), EntropyErrorCode::InvalidAccount);
    assert_eq!(book.perp_orders[0].status, OtcOrderStatus::Cancelled);
}

#[test]
fn well_formed_books() {
    let mut book = fresh_book();
    assert!(book.is_well_formed());
    create_perp(&mut book, 1).unwrap();
    assert!(book.is_well_formed());
    let mut wrong_len = book.clone();
    wrong_len.perp_orders_len = 0;
    assert!(!wrong_len.is_well_formed());
    let mut dirty_free_slot = book.clone();
    dirty_free_slot.spot_orders[3].price = 5;
    assert!(!dirty_free_slot.is_well_formed());
    let mut short = book.clone();
    short.perp_orders.pop();
    assert!(!short.is_well_formed());
    let mut no_dwell = book;
    no_dwell.min_dwell = 0;
    assert!(!no_dwell.is_well_formed());
}
