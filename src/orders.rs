//! The order slot store: a fixed number of slots per market class, each an
//! order record whose index stays its identity until the slot is deleted.

use crate::error::{error_at, fails_with, EntropyError, EntropyErrorCode, MangoResult, SourceFileId};
use vstd::prelude::*;

verus! {

/// Number of order slots for each market class.
pub const MAX_OTC_ORDERS: usize = 32;

/// Identity of an account on the ledger.
pub type AccountKey = [u8; 32];

/// The key made of zero bytes, held by cleared slots.
pub open spec fn zero_key() -> AccountKey {
    choose|k: AccountKey| k@ == Seq::new(32, |i: int| 0u8)
}

proof fn lemma_zero_key(k: AccountKey)
    requires
        forall|i: int| 0 <= i < 32 ==> k@[i] == 0u8,
    ensures
        k == zero_key(),
{
    assert(k@ =~= Seq::new(32, |i: int| 0u8));
    let z = zero_key();
    assert(z@ =~= k@);
    assert(z =~= k);
}

/// Where a slot stands in its lifecycle.
#[derive(Debug, Clone, Copy, PartialEq, Eq, Structural)]
pub enum OtcOrderStatus {
    Uninitialized,
    Active,
    Cancelled,
    Filled,
}

/// Direction of an order, from its creator's point of view.
#[derive(Debug, Clone, Copy, PartialEq, Eq, Structural)]
pub enum Side {
    Bid,
    Ask,
}

/// The two slot arrays of a book: perpetual markets and spot markets.
#[derive(Debug, Clone, Copy, PartialEq, Eq, Structural)]
pub enum MarketClass {
    Perp,
    Spot,
}

/// One slot of a book.
#[derive(Debug, Clone, Copy, PartialEq, Eq)]
pub struct OtcOrder {
    pub status: OtcOrderStatus,
    pub market_index: usize,
    pub side: Side,
    pub price: u64,
    pub size: u64,
    pub counterparty: AccountKey,
    pub expires: u64,
    pub created_at: u64,
    pub last_changed_at: u64,
}

/// A slot with every field cleared.
pub open spec fn cleared_order() -> OtcOrder {
    OtcOrder {
        status: OtcOrderStatus::Uninitialized,
        market_index: 0,
        side: Side::Bid,
        price: 0,
        size: 0,
        counterparty: zero_key(),
        expires: 0,
        created_at: 0,
        last_changed_at: 0,
    }
}

impl OtcOrder {
    /// A cleared slot.
    pub fn cleared() -> (r: OtcOrder)
        ensures
            r == cleared_order(),
    {
        let zero: AccountKey = [0u8; 32];
        proof {
            lemma_zero_key(zero);
        }
        OtcOrder {
            status: OtcOrderStatus::Uninitialized,
            market_index: 0,
            side: Side::Bid,
            price: 0,
            size: 0,
            counterparty: zero,
            expires: 0,
            created_at: 0,
            last_changed_at: 0,
        }
    }
}


/// Whether a slot holds an order (any status but `Uninitialized`).
pub open spec fn occupied(o: OtcOrder) -> bool {
    o.status != OtcOrderStatus::Uninitialized
}

/// Number of occupied slots in `s`.
pub open spec fn count_occupied(s: Seq<OtcOrder>) -> nat
    decreases s.len(),
{
    if s.len() == 0 {
        0
    } else {
        count_occupied(s.drop_last()) + if occupied(s.last()) {
            1nat
        } else {
            0nat
        }
    }
}

/// Index of the first free slot of `s`; `s.len()` when every slot is occupied.
pub open spec fn first_free(s: Seq<OtcOrder>) -> int
    decreases s.len(),
{
    if s.len() == 0 {
        0
    } else if !occupied(s[0]) {
        0
    } else {
        1 + first_free(s.drop_first())
    }
}

/// A slot array of the fixed capacity whose counter matches its occupied
/// slots, and whose free slots are cleared.
pub open spec fn slots_wf(s: Seq<OtcOrder>, len: usize) -> bool {
    &&& s.len() == MAX_OTC_ORDERS
    &&& len == count_occupied(s)
    &&& forall|i: int| 0 <= i < s.len() && !occupied(#[trigger] s[i]) ==> s[i] == cleared_order()
}

/// The contents of an order book.
#[verifier::ext_equal]
pub struct BookView {
    pub creator_account: Seq<u8>,
    pub bump: u8,
    pub min_dwell: u64,
    pub perp_orders: Seq<OtcOrder>,
    pub spot_orders: Seq<OtcOrder>,
    pub perp_orders_len: usize,
    pub spot_orders_len: usize,
}

impl BookView {
    pub open spec fn orders(self, class: MarketClass) -> Seq<OtcOrder> {
        match class {
            MarketClass::Perp => self.perp_orders,
            MarketClass::Spot => self.spot_orders,
        }
    }

    pub open spec fn len_of(self, class: MarketClass) -> usize {
        match class {
            MarketClass::Perp => self.perp_orders_len,
            MarketClass::Spot => self.spot_orders_len,
        }
    }

    /// This book with the slots and counter of `class` replaced.
    pub open spec fn with_class(self, class: MarketClass, s: Seq<OtcOrder>, len: usize) -> BookView {
        match class {
            MarketClass::Perp => BookView { perp_orders: s, perp_orders_len: len, ..self },
            MarketClass::Spot => BookView { spot_orders: s, spot_orders_len: len, ..self },
        }
    }

    pub open spec fn wf(self) -> bool {
        &&& self.creator_account.len() == 32
        &&& self.min_dwell > 0
        &&& slots_wf(self.perp_orders, self.perp_orders_len)
        &&& slots_wf(self.spot_orders, self.spot_orders_len)
    }
}

/// The OTC orders offered by one margin account: a fixed number of slots for
/// perpetual markets and as many for spot markets.
#[derive(Debug, Clone, PartialEq, Eq)]
pub struct OrderBook {
    /// Key of the margin account that owns the book; owner-only operations
    /// compare their `caller` with it.
    pub creator_account: AccountKey,
    pub bump: u8,
    /// Logical time that must pass between cancelling an order and deleting it.
    pub min_dwell: u64,
    pub perp_orders: Vec<OtcOrder>,
    pub spot_orders: Vec<OtcOrder>,
    pub perp_orders_len: usize,
    pub spot_orders_len: usize,
}

impl View for OrderBook {
    type V = BookView;

    open spec fn view(&self) -> BookView {
        BookView {
            creator_account: self.creator_account@,
            bump: self.bump,
            min_dwell: self.min_dwell,
            perp_orders: self.perp_orders@,
            spot_orders: self.spot_orders@,
            perp_orders_len: self.perp_orders_len,
            spot_orders_len: self.spot_orders_len,
        }
    }
}

/// The order that `create_order` writes.
pub open spec fn new_order(
    market_index: usize,
    side: Side,
    price: u64,
    size: u64,
    counterparty: AccountKey,
    expires: u64,
    now: u64,
) -> OtcOrder {
    OtcOrder {
        status: OtcOrderStatus::Active,
        market_index,
        side,
        price,
        size,
        counterparty,
        expires,
        created_at: now,
        last_changed_at: now,
    }
}

/// Outcome of creating an order: the new book and the slot taken, or the error.
pub open spec fn create_spec(
    b: BookView,
    class: MarketClass,
    caller: Seq<u8>,
    market_index: usize,
    side: Side,
    price: u64,
    size: u64,
    counterparty: AccountKey,
    expires: u64,
    now: u64,
) -> Result<(BookView, usize), EntropyErrorCode> {
    let s = b.orders(class);
    let i = first_free(s);
    if caller != b.creator_account {
        Err(EntropyErrorCode::InvalidAccount)
    } else if i >= MAX_OTC_ORDERS {
        Err(EntropyErrorCode::OutOfSpace)
    } else if price == 0 || size == 0 || expires <= now {
        Err(EntropyErrorCode::InvalidParam)
    } else {
        Ok(
            (
                b.with_class(
                    class,
                    s.update(i, new_order(market_index, side, price, size, counterparty, expires, now)),
                    (b.len_of(class) + 1) as usize,
                ),
                i as usize,
            ),
        )
    }
}

/// Whether the dwell time has passed since `last_changed_at`.
pub open spec fn dwell_elapsed(last_changed_at: u64, now: u64, min_dwell: u64) -> bool {
    now >= last_changed_at && now - last_changed_at >= min_dwell
}

/// Outcome of cancelling the order at `index`.
pub open spec fn cancel_spec(
    b: BookView,
    class: MarketClass,
    index: usize,
    caller: Seq<u8>,
    now: u64,
) -> Result<BookView, EntropyErrorCode> {
    let s = b.orders(class);
    if caller != b.creator_account {
        Err(EntropyErrorCode::InvalidAccount)
    } else if index >= MAX_OTC_ORDERS {
        Err(EntropyErrorCode::InvalidOrderId)
    } else if s[index as int].status != OtcOrderStatus::Active {
        Err(EntropyErrorCode::InvalidAccountState)
    } else {
        Ok(
            b.with_class(
                class,
                s.update(
                    index as int,
                    OtcOrder {
                        status: OtcOrderStatus::Cancelled,
                        last_changed_at: now,
                        ..s[index as int]
                    },
                ),
                b.len_of(class),
            ),
        )
    }
}

/// Outcome of deleting the order at `index`.
pub open spec fn delete_spec(
    b: BookView,
    class: MarketClass,
    index: usize,
    caller: Seq<u8>,
    now: u64,
) -> Result<BookView, EntropyErrorCode> {
    let s = b.orders(class);
    if caller != b.creator_account {
        Err(EntropyErrorCode::InvalidAccount)
    } else if index >= MAX_OTC_ORDERS {
        Err(EntropyErrorCode::InvalidOrderId)
    } else if s[index as int].status != OtcOrderStatus::Cancelled {
        Err(EntropyErrorCode::InvalidAccountState)
    } else if !dwell_elapsed(s[index as int].last_changed_at, now, b.min_dwell) {
        Err(EntropyErrorCode::InvalidAccountState)
    } else {
        Ok(
            b.with_class(
                class,
                s.update(index as int, cleared_order()),
                (b.len_of(class) - 1) as usize,
            ),
        )
    }
}

/// A freshly initialised book of `creator_account`.
pub open spec fn initial_book(creator_account: Seq<u8>, bump: u8, min_dwell: u64) -> BookView {
    BookView {
        creator_account,
        bump,
        min_dwell,
        perp_orders: Seq::new(MAX_OTC_ORDERS as nat, |i: int| cleared_order()),
        spot_orders: Seq::new(MAX_OTC_ORDERS as nat, |i: int| cleared_order()),
        perp_orders_len: 0,
        spot_orders_len: 0,
    }
}

pub(crate) proof fn lemma_count_le(s: Seq<OtcOrder>)
    ensures
        count_occupied(s) <= s.len(),
    decreases s.len(),
{
    if s.len() > 0 {
        lemma_count_le(s.drop_last());
    }
}

pub(crate) proof fn lemma_count_none(s: Seq<OtcOrder>)
    requires
        forall|i: int| 0 <= i < s.len() ==> !occupied(#[trigger] s[i]),
    ensures
        count_occupied(s) == 0,
    decreases s.len(),
{
    if s.len() > 0 {
        lemma_count_none(s.drop_last());
    }
}

/// Writing `x` at `i` changes the count by the occupancy of `x` less that of the old slot.
pub(crate) proof fn lemma_count_update(s: Seq<OtcOrder>, i: int, x: OtcOrder)
    requires
        0 <= i < s.len(),
    ensures
        count_occupied(s.update(i, x)) + (if occupied(s[i]) { 1int } else { 0int }) == count_occupied(s)
            + (if occupied(x) { 1int } else { 0int }),
    decreases s.len(),
{
    let t = s.update(i, x);
    if i == s.len() - 1 {
        assert(t.drop_last() =~= s.drop_last());
    } else {
        assert(t.drop_last() =~= s.drop_last().update(i, x));
        lemma_count_update(s.drop_last(), i, x);
    }
}

pub(crate) proof fn lemma_first_free(s: Seq<OtcOrder>, i: int)
    requires
        0 <= i <= s.len(),
        forall|j: int| 0 <= j < i ==> occupied(#[trigger] s[j]),
        i == s.len() || !occupied(s[i]),
    ensures
        first_free(s) == i,
    decreases i,
{
    if i > 0 {
        let t = s.drop_first();
        assert forall|j: int| 0 <= j < i - 1 implies occupied(#[trigger] t[j]) by {
            assert(t[j] == s[j + 1]);
        }
        lemma_first_free(t, i - 1);
    }
}

/// Whether two keys are the same.
pub fn keys_equal(a: &AccountKey, b: &AccountKey) -> (r: bool)
    ensures
        r == (a@ == b@),
{
    let mut i: usize = 0;
    while i < 32
        invariant
            0 <= i <= 32,
            a@.len() == 32,
            b@.len() == 32,
            forall|j: int| 0 <= j < i ==> a@[j] == b@[j],
        decreases 32 - i,
    {
        if a[i] != b[i] {
            return false;
        }
        i = i + 1;
    }
    assert(a@ =~= b@);
    true
}

/// Whether `o` is a cleared slot.
fn is_cleared_slot(o: &OtcOrder) -> (r: bool)
    ensures
        r == (*o == cleared_order()),
{
    let zero: AccountKey = [0u8; 32];
    proof {
        lemma_zero_key(zero);
    }
    let r = o.status == OtcOrderStatus::Uninitialized && o.market_index == 0 && o.side == Side::Bid
        && o.price == 0 && o.size == 0 && keys_equal(&o.counterparty, &zero) && o.expires == 0
        && o.created_at == 0 && o.last_changed_at == 0;
    proof {
        if r {
            lemma_zero_key(o.counterparty);
        }
    }
    r
}

/// Whether `orders` and `len` form a well-formed slot array.
fn slots_well_formed(orders: &Vec<OtcOrder>, len: usize) -> (r: bool)
    ensures
        r == slots_wf(orders@, len),
{
    if orders.len() != MAX_OTC_ORDERS {
        return false;
    }
    let mut count: usize = 0;
    let mut i: usize = 0;
    while i < orders.len()
        invariant
            0 <= i <= orders@.len(),
            orders@.len() == MAX_OTC_ORDERS,
            count == count_occupied(orders@.subrange(0, i as int)),
            forall|j: int|
                0 <= j < i && !occupied(#[trigger] orders@[j]) ==> orders@[j] == cleared_order(),
        decreases orders@.len() - i,
    {
        let ghost prefix = orders@.subrange(0, i as int);
        let ghost next = orders@.subrange(0, i + 1);
        assert(next.drop_last() =~= prefix);
        proof {
            lemma_count_le(prefix);
        }
        if orders[i].status == OtcOrderStatus::Uninitialized {
            if !is_cleared_slot(&orders[i]) {
                return false;
            }
        } else {
            count = count + 1;
        }
        i = i + 1;
    }
    assert(orders@.subrange(0, orders@.len() as int) =~= orders@);
    count == len
}

/// Index of the first free slot, or the capacity when there is none.
fn first_free_slot(orders: &Vec<OtcOrder>) -> (r: usize)
    requires
        orders@.len() == MAX_OTC_ORDERS,
    ensures
        r == first_free(orders@),
        r <= MAX_OTC_ORDERS,
        r < MAX_OTC_ORDERS ==> !occupied(orders@[r as int]),
{
    let mut i: usize = 0;
    while i < orders.len()
        invariant
            0 <= i <= orders@.len(),
            orders@.len() == MAX_OTC_ORDERS,
            forall|j: int| 0 <= j < i ==> occupied(#[trigger] orders@[j]),
        decreases orders@.len() - i,
    {
        if orders[i].status == OtcOrderStatus::Uninitialized {
            proof {
                lemma_first_free(orders@, i as int);
            }
            return i;
        }
        i = i + 1;
    }
    proof {
        lemma_first_free(orders@, i as int);
    }
    i
}

fn cleared_slots() -> (r: Vec<OtcOrder>)
    ensures
        r@ == Seq::new(MAX_OTC_ORDERS as nat, |i: int| cleared_order()),
{
    let mut v: Vec<OtcOrder> = Vec::new();
    let mut i: usize = 0;
    while i < MAX_OTC_ORDERS
        invariant
            0 <= i <= MAX_OTC_ORDERS,
            v@ == Seq::new(i as nat, |j: int| cleared_order()),
        decreases MAX_OTC_ORDERS - i,
    {
        v.push(OtcOrder::cleared());
        i = i + 1;
        assert(v@ =~= Seq::new(i as nat, |j: int| cleared_order()));
    }
    v
}

/// Initialises the book of `creator_account`. Fails with `AlreadyInitialized`
/// when a record already exists at the book's address, and with `InvalidParam`
/// when `min_dwell` is zero.
pub fn init_order_book(
    record_exists: bool,
    creator_account: AccountKey,
    bump: u8,
    min_dwell: u64,
) -> (r: MangoResult<OrderBook>)
    ensures
        record_exists ==> fails_with(r, EntropyErrorCode::AlreadyInitialized),
        !record_exists && min_dwell == 0 ==> fails_with(r, EntropyErrorCode::InvalidParam),
        !record_exists && min_dwell > 0 ==> r is Ok && r->Ok_0@ == initial_book(
            creator_account@,
            bump,
            min_dwell,
        ),
        r is Ok ==> r->Ok_0@.wf(),
{
    if record_exists {
        return Err(error_at(EntropyErrorCode::AlreadyInitialized, 571, SourceFileId::State));
    }
    if min_dwell == 0 {
        return Err(error_at(EntropyErrorCode::InvalidParam, 574, SourceFileId::State));
    }
    let book = OrderBook {
        creator_account,
        bump,
        min_dwell,
        perp_orders: cleared_slots(),
        spot_orders: cleared_slots(),
        perp_orders_len: 0,
        spot_orders_len: 0,
    };
    proof {
        lemma_count_none(book.perp_orders@);
        lemma_count_none(book.spot_orders@);
        assert(book@ =~= initial_book(creator_account@, bump, min_dwell));
    }
    Ok(book)
}

impl OrderBook {
    /// Writes a new active order into the first free slot of `class` and
    /// returns its index.
    ///
    /// `caller` is the margin account on whose behalf the call is made; the
    /// host passes that account's key after checking that its owner signed,
    /// and only the book's `creator_account` is accepted.
    pub fn create_order(
        &mut self,
        class: MarketClass,
        caller: &AccountKey,
        market_index: usize,
        side: Side,
        price: u64,
        size: u64,
        counterparty: AccountKey,
        expires: u64,
        now: u64,
    ) -> (r: MangoResult<usize>)
        requires
            old(self)@.wf(),
        ensures
            final(self)@.wf(),
            match create_spec(
                old(self)@,
                class,
                caller@,
                market_index,
                side,
                price,
                size,
                counterparty,
                expires,
                now,
            ) {
                Ok((b, i)) => r == Ok::<usize, EntropyError>(i) && final(self)@ == b,
                Err(c) => fails_with(r, c) && final(self)@ == old(self)@,
            },
    {
        if !keys_equal(caller, &self.creator_account) {
            return Err(error_at(EntropyErrorCode::InvalidAccount, 633, SourceFileId::State));
        }
        let i = match class {
            MarketClass::Perp => first_free_slot(&self.perp_orders),
            MarketClass::Spot => first_free_slot(&self.spot_orders),
        };
        if i >= MAX_OTC_ORDERS {
            return Err(error_at(EntropyErrorCode::OutOfSpace, 640, SourceFileId::State));
        }
        if price == 0 || size == 0 || expires <= now {
            return Err(error_at(EntropyErrorCode::InvalidParam, 643, SourceFileId::State));
        }
        let order = OtcOrder {
            status: OtcOrderStatus::Active,
            market_index,
            side,
            price,
            size,
            counterparty,
            expires,
            created_at: now,
            last_changed_at: now,
        };
        match class {
            MarketClass::Perp => {
                proof {
                    lemma_count_update(self.perp_orders@, i as int, order);
                    lemma_count_le(self.perp_orders@.update(i as int, order));
                }
                self.perp_orders.set(i, order);
                self.perp_orders_len = self.perp_orders_len + 1;
            },
            MarketClass::Spot => {
                proof {
                    lemma_count_update(self.spot_orders@, i as int, order);
                    lemma_count_le(self.spot_orders@.update(i as int, order));
                }
                self.spot_orders.set(i, order);
                self.spot_orders_len = self.spot_orders_len + 1;
            },
        }
        Ok(i)
    }

    /// Whether the book satisfies its invariant; a book read back from
    /// storage is checked with this before any operation.
    pub fn is_well_formed(&self) -> (r: bool)
        ensures
            r == self@.wf(),
    {
        self.min_dwell > 0 && slots_well_formed(&self.perp_orders, self.perp_orders_len)
            && slots_well_formed(&self.spot_orders, self.spot_orders_len)
    }

    /// The order in slot `index` of `class`.
    pub fn order_at(&self, class: MarketClass, index: usize) -> (r: OtcOrder)
        requires
            self@.wf(),
            index < MAX_OTC_ORDERS,
        ensures
            r == self@.orders(class)[index as int],
    {
        match class {
            MarketClass::Perp => self.perp_orders[index],
            MarketClass::Spot => self.spot_orders[index],
        }
    }

    /// Marks the active order at `index` as cancelled, stamping the time.
    ///
    /// `caller` is the margin account on whose behalf the call is made; the
    /// host passes that account's key after checking that its owner signed,
    /// and only the book's `creator_account` is accepted.
    pub fn cancel_order(&mut self, class: MarketClass, index: usize, caller: &AccountKey, now: u64) -> (r:
        MangoResult<()>)
        requires
            old(self)@.wf(),
        ensures
            final(self)@.wf(),
            match cancel_spec(old(self)@, class, index, caller@, now) {
                Ok(b) => r is Ok && final(self)@ == b,
                Err(c) => fails_with(r, c) && final(self)@ == old(self)@,
            },
    {
        if !keys_equal(caller, &self.creator_account) {
            return Err(error_at(EntropyErrorCode::InvalidAccount, 718, SourceFileId::State));
        }
        if index >= MAX_OTC_ORDERS {
            return Err(error_at(EntropyErrorCode::InvalidOrderId, 721, SourceFileId::State));
        }
        let o = self.order_at(class, index);
        if o.status != OtcOrderStatus::Active {
            return Err(error_at(EntropyErrorCode::InvalidAccountState, 725, SourceFileId::State));
        }
        let updated = OtcOrder { status: OtcOrderStatus::Cancelled, last_changed_at: now, ..o };
        match class {
            MarketClass::Perp => {
                proof {
                    lemma_count_update(self.perp_orders@, index as int, updated);
                }
                self.perp_orders.set(index, updated);
            },
            MarketClass::Spot => {
                proof {
                    lemma_count_update(self.spot_orders@, index as int, updated);
                }
                self.spot_orders.set(index, updated);
            },
        }
        Ok(())
    }

    /// Clears the cancelled order at `index` once the dwell time has passed,
    /// freeing the slot.
    ///
    /// `caller` is the margin account on whose behalf the call is made; the
    /// host passes that account's key after checking that its owner signed,
    /// and only the book's `creator_account` is accepted.
    pub fn delete_order(&mut self, class: MarketClass, index: usize, caller: &AccountKey, now: u64) -> (r:
        MangoResult<()>)
        requires
            old(self)@.wf(),
        ensures
            final(self)@.wf(),
            match delete_spec(old(self)@, class, index, caller@, now) {
                Ok(b) => r is Ok && final(self)@ == b,
                Err(c) => fails_with(r, c) && final(self)@ == old(self)@,
            },
    {
        if !keys_equal(caller, &self.creator_account) {
            return Err(error_at(EntropyErrorCode::InvalidAccount, 763, SourceFileId::State));
        }
        if index >= MAX_OTC_ORDERS {
            return Err(error_at(EntropyErrorCode::InvalidOrderId, 766, SourceFileId::State));
        }
        let o = self.order_at(class, index);
        if o.status != OtcOrderStatus::Cancelled {
            return Err(error_at(EntropyErrorCode::InvalidAccountState, 770, SourceFileId::State));
        }
        if now < o.last_changed_at || now - o.last_changed_at < self.min_dwell {
            return Err(error_at(EntropyErrorCode::InvalidAccountState, 773, SourceFileId::State));
        }
        let cleared = OtcOrder::cleared();
        match class {
            MarketClass::Perp => {
                proof {
                    lemma_count_update(self.perp_orders@, index as int, cleared);
                }
                self.perp_orders.set(index, cleared);
                self.perp_orders_len = self.perp_orders_len - 1;
            },
            MarketClass::Spot => {
                proof {
                    lemma_count_update(self.spot_orders@, index as int, cleared);
                }
                self.spot_orders.set(index, cleared);
                self.spot_orders_len = self.spot_orders_len - 1;
            },
        }
        Ok(())
    }
}

} // verus!
