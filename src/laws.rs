//! Properties of the order lifecycle and of settlement, proved over the
//! outcome functions that the operations' contracts are stated with.

use crate::error::EntropyErrorCode;
use crate::orders::{
    cancel_spec, cleared_order, create_spec, delete_spec, dwell_elapsed, first_free, initial_book,
    occupied, AccountKey, BookView, MarketClass, OtcOrderStatus, Side, MAX_OTC_ORDERS,
};
use crate::settlement::{positions_of, proposal_spec, take_spec, AccountView};
use vstd::prelude::*;

verus! {

/// In a freshly initialised book both counters are zero and every slot is
/// uninitialised; with a positive dwell time the book is well formed.
pub proof fn lemma_init_empty(creator_account: Seq<u8>, bump: u8, min_dwell: u64)
    requires
        creator_account.len() == 32,
    ensures
        min_dwell > 0 ==> initial_book(creator_account, bump, min_dwell).wf(),
        initial_book(creator_account, bump, min_dwell).perp_orders_len == 0,
        initial_book(creator_account, bump, min_dwell).spot_orders_len == 0,
        forall|i: int|
            0 <= i < MAX_OTC_ORDERS ==> (#[trigger] initial_book(
                creator_account,
                bump,
                min_dwell,
            ).perp_orders[i]).status == OtcOrderStatus::Uninitialized,
        forall|i: int|
            0 <= i < MAX_OTC_ORDERS ==> (#[trigger] initial_book(
                creator_account,
                bump,
                min_dwell,
            ).spot_orders[i]).status == OtcOrderStatus::Uninitialized,
{
    let b = initial_book(creator_account, bump, min_dwell);
    crate::orders::lemma_count_none(b.perp_orders);
    crate::orders::lemma_count_none(b.spot_orders);
}

/// On a fresh book, creating one order with valid parameters takes slot 0,
/// marks it active and sets the counter of its class to one.
pub proof fn lemma_create_on_fresh_book(
    creator_account: Seq<u8>,
    bump: u8,
    min_dwell: u64,
    class: MarketClass,
    market_index: usize,
    side: Side,
    price: u64,
    size: u64,
    counterparty: AccountKey,
    expires: u64,
    now: u64,
)
    requires
        creator_account.len() == 32,
        price > 0,
        size > 0,
        expires > now,
    ensures
        ({
            let r = create_spec(
                initial_book(creator_account, bump, min_dwell),
                class,
                creator_account,
                market_index,
                side,
                price,
                size,
                counterparty,
                expires,
                now,
            );
            &&& r is Ok
            &&& r->Ok_0.1 == 0
            &&& r->Ok_0.0.len_of(class) == 1
            &&& r->Ok_0.0.orders(class)[0].status == OtcOrderStatus::Active
        }),
{
    let b = initial_book(creator_account, bump, min_dwell);
    lemma_init_empty(creator_account, bump, min_dwell);
    crate::orders::lemma_first_free(b.orders(class), 0);
}

/// Create, cancel, and delete after the dwell time give back the book as it
/// was before the create.
pub proof fn lemma_create_cancel_delete(
    b: BookView,
    class: MarketClass,
    market_index: usize,
    side: Side,
    price: u64,
    size: u64,
    counterparty: AccountKey,
    expires: u64,
    created: u64,
    cancelled: u64,
    deleted: u64,
)
    requires
        b.wf(),
        first_free(b.orders(class)) < MAX_OTC_ORDERS,
        price > 0,
        size > 0,
        expires > created,
        dwell_elapsed(cancelled, deleted, b.min_dwell),
    ensures
        ({
            let c = b.creator_account;
            let r1 = create_spec(
                b,
                class,
                c,
                market_index,
                side,
                price,
                size,
                counterparty,
                expires,
                created,
            );
            &&& r1 is Ok
            &&& cancel_spec(r1->Ok_0.0, class, r1->Ok_0.1, c, cancelled) is Ok
            &&& delete_spec(
                cancel_spec(r1->Ok_0.0, class, r1->Ok_0.1, c, cancelled)->Ok_0,
                class,
                r1->Ok_0.1,
                c,
                deleted,
            ) == Ok::<BookView, EntropyErrorCode>(b)
        }),
{
    let s = b.orders(class);
    let i = first_free(s);
    lemma_first_free_is_free(s);
    let b1 = create_spec(
        b,
        class,
        b.creator_account,
        market_index,
        side,
        price,
        size,
        counterparty,
        expires,
        created,
    )->Ok_0.0;
    let b2 = cancel_spec(b1, class, i as usize, b.creator_account, cancelled)->Ok_0;
    let b3 = delete_spec(b2, class, i as usize, b.creator_account, deleted)->Ok_0;
    assert(b3.orders(class) =~= s);
    crate::orders::lemma_count_le(s);
    assert(b3.len_of(class) == b.len_of(class));
    match class {
        MarketClass::Perp => assert(b3 =~= b),
        MarketClass::Spot => assert(b3 =~= b),
    }
}

/// The slot that `first_free` names, when there is one, is free.
proof fn lemma_first_free_is_free(s: Seq<crate::orders::OtcOrder>)
    ensures
        0 <= first_free(s) <= s.len(),
        first_free(s) < s.len() ==> !occupied(s[first_free(s)]),
    decreases s.len(),
{
    if s.len() > 0 && occupied(s[0]) {
        lemma_first_free_is_free(s.drop_first());
    }
}

/// Create, cancel, and a delete before the dwell time has passed fails with
/// the state error, the slot still cancelled.
pub proof fn lemma_delete_before_dwell(
    b: BookView,
    class: MarketClass,
    market_index: usize,
    side: Side,
    price: u64,
    size: u64,
    counterparty: AccountKey,
    expires: u64,
    created: u64,
    cancelled: u64,
    deleted: u64,
)
    requires
        b.wf(),
        first_free(b.orders(class)) < MAX_OTC_ORDERS,
        price > 0,
        size > 0,
        expires > created,
        !dwell_elapsed(cancelled, deleted, b.min_dwell),
    ensures
        ({
            let c = b.creator_account;
            let r1 = create_spec(
                b,
                class,
                c,
                market_index,
                side,
                price,
                size,
                counterparty,
                expires,
                created,
            );
            let b2 = cancel_spec(r1->Ok_0.0, class, r1->Ok_0.1, c, cancelled)->Ok_0;
            &&& r1 is Ok
            &&& cancel_spec(r1->Ok_0.0, class, r1->Ok_0.1, c, cancelled) is Ok
            &&& b2.orders(class)[r1->Ok_0.1 as int].status == OtcOrderStatus::Cancelled
            &&& delete_spec(b2, class, r1->Ok_0.1, c, deleted) == Err::<BookView, EntropyErrorCode>(
                EntropyErrorCode::InvalidAccountState,
            )
        }),
{
    lemma_first_free_is_free(b.orders(class));
}

/// Create and then delete without a cancel fails with the state error, the
/// slot still active.
pub proof fn lemma_delete_without_cancel(
    b: BookView,
    class: MarketClass,
    market_index: usize,
    side: Side,
    price: u64,
    size: u64,
    counterparty: AccountKey,
    expires: u64,
    created: u64,
    deleted: u64,
)
    requires
        b.wf(),
        first_free(b.orders(class)) < MAX_OTC_ORDERS,
        price > 0,
        size > 0,
        expires > created,
    ensures
        ({
            let c = b.creator_account;
            let r1 = create_spec(
                b,
                class,
                c,
                market_index,
                side,
                price,
                size,
                counterparty,
                expires,
                created,
            );
            &&& r1 is Ok
            &&& r1->Ok_0.0.orders(class)[r1->Ok_0.1 as int].status == OtcOrderStatus::Active
            &&& delete_spec(r1->Ok_0.0, class, r1->Ok_0.1, c, deleted) == Err::<
                BookView,
                EntropyErrorCode,
            >(EntropyErrorCode::InvalidAccountState)
        }),
{
    lemma_first_free_is_free(b.orders(class));
}

/// A take that succeeded leaves the slot filled, so any further take of it,
/// by anyone and at any time, fails with the state error.
pub proof fn lemma_take_once(
    b: BookView,
    class: MarketClass,
    index: usize,
    creator: AccountView,
    taker: AccountView,
    caller: Seq<u8>,
    now: u64,
    creator_health: i64,
    taker_health: i64,
    creator2: AccountView,
    taker2: AccountView,
    caller2: Seq<u8>,
    now2: u64,
    creator_health2: i64,
    taker_health2: i64,
)
    requires
        b.wf(),
        take_spec(b, class, index, creator, taker, caller, now, creator_health, taker_health) is Ok,
    ensures
        take_spec(
            take_spec(b, class, index, creator, taker, caller, now, creator_health, taker_health)->Ok_0.0,
            class,
            index,
            creator2,
            taker2,
            caller2,
            now2,
            creator_health2,
            taker_health2,
        ) == Err::<(BookView, AccountView, AccountView), EntropyErrorCode>(
            EntropyErrorCode::InvalidAccountState,
        ),
{
    let b1 = take_spec(b, class, index, creator, taker, caller, now, creator_health, taker_health)->Ok_0.0;
    match class {
        MarketClass::Perp => assert(b1.orders(class)[index as int].status == OtcOrderStatus::Filled),
        MarketClass::Spot => assert(b1.orders(class)[index as int].status == OtcOrderStatus::Filled),
    }
}

/// An accepted trade moves the creator's base by `-size` on an ask and by
/// `+size` on a bid, and the taker's base by the same amount the other way.
pub proof fn lemma_side_symmetry(
    b: BookView,
    class: MarketClass,
    index: usize,
    creator: AccountView,
    taker: AccountView,
    caller: Seq<u8>,
    now: u64,
)
    requires
        proposal_spec(b, class, index, creator, taker, caller, now) is Ok,
    ensures
        ({
            let o = b.orders(class)[index as int];
            let m = o.market_index as int;
            let (c2, t2) = proposal_spec(b, class, index, creator, taker, caller, now)->Ok_0;
            &&& o.side == Side::Ask ==> positions_of(c2, class)[m] == positions_of(creator, class)[m]
                - o.size && positions_of(t2, class)[m] == positions_of(taker, class)[m] + o.size
            &&& o.side == Side::Bid ==> positions_of(c2, class)[m] == positions_of(creator, class)[m]
                + o.size && positions_of(t2, class)[m] == positions_of(taker, class)[m] - o.size
        }),
{
}

/// A take on behalf of an account whose owner is not the order's
/// counterparty fails with the authorization error.
pub proof fn lemma_wrong_counterparty(
    b: BookView,
    class: MarketClass,
    index: usize,
    creator: AccountView,
    taker: AccountView,
    caller: Seq<u8>,
    now: u64,
    creator_health: i64,
    taker_health: i64,
)
    requires
        index < MAX_OTC_ORDERS,
        b.orders(class)[index as int].status == OtcOrderStatus::Active,
        taker.owner != b.orders(class)[index as int].counterparty@,
    ensures
        take_spec(b, class, index, creator, taker, caller, now, creator_health, taker_health) == Err::<
            (BookView, AccountView, AccountView),
            EntropyErrorCode,
        >(EntropyErrorCode::InvalidAccount),
{
}

/// A take that passes every other check fails with the solvency error when
/// either account's health after the trade is negative.
pub proof fn lemma_insufficient_health(
    b: BookView,
    class: MarketClass,
    index: usize,
    creator: AccountView,
    taker: AccountView,
    caller: Seq<u8>,
    now: u64,
    creator_health: i64,
    taker_health: i64,
)
    requires
        proposal_spec(b, class, index, creator, taker, caller, now) is Ok,
        creator_health < 0 || taker_health < 0,
    ensures
        take_spec(b, class, index, creator, taker, caller, now, creator_health, taker_health) == Err::<
            (BookView, AccountView, AccountView),
            EntropyErrorCode,
        >(EntropyErrorCode::InsufficientHealth),
{
}

/// An authorised take of an active order at or after its expiry fails with
/// the expiry error, whatever the health of the accounts.
pub proof fn lemma_expired(
    b: BookView,
    class: MarketClass,
    index: usize,
    creator: AccountView,
    taker: AccountView,
    now: u64,
    creator_health: i64,
    taker_health: i64,
)
    requires
        index < MAX_OTC_ORDERS,
        b.orders(class)[index as int].status == OtcOrderStatus::Active,
        creator.key == b.creator_account,
        taker.owner == b.orders(class)[index as int].counterparty@,
        now >= b.orders(class)[index as int].expires,
    ensures
        take_spec(b, class, index, creator, taker, taker.owner, now, creator_health, taker_health)
            == Err::<(BookView, AccountView, AccountView), EntropyErrorCode>(
            EntropyErrorCode::OrderExpired,
        ),
{
}

/// Cancel, delete and take of a slot index at or past the capacity fail with
/// the range error (cancel and delete once the owner is checked).
pub proof fn lemma_index_out_of_range(
    b: BookView,
    class: MarketClass,
    index: usize,
    creator: AccountView,
    taker: AccountView,
    caller: Seq<u8>,
    now: u64,
    creator_health: i64,
    taker_health: i64,
)
    requires
        index >= MAX_OTC_ORDERS,
    ensures
        take_spec(b, class, index, creator, taker, caller, now, creator_health, taker_health) == Err::<
            (BookView, AccountView, AccountView),
            EntropyErrorCode,
        >(EntropyErrorCode::InvalidOrderId),
        cancel_spec(b, class, index, b.creator_account, now) == Err::<BookView, EntropyErrorCode>(
            EntropyErrorCode::InvalidOrderId,
        ),
        delete_spec(b, class, index, b.creator_account, now) == Err::<BookView, EntropyErrorCode>(
            EntropyErrorCode::InvalidOrderId,
        ),
{
}

} // verus!
