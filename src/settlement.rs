//! Settlement of an OTC order: the trade is checked, applied to copies of the
//! two margin accounts, and committed to the accounts and the slot only when
//! both accounts stay healthy.

use crate::error::{error_at, fails_with, EntropyError, EntropyErrorCode, MangoResult, SourceFileId};
use crate::orders::{
    keys_equal, AccountKey, BookView, MarketClass, OrderBook, OtcOrder, OtcOrderStatus, Side,
    MAX_OTC_ORDERS,
};
use vstd::prelude::*;

verus! {

/// The part of a margin account that settlement reads and writes.
#[derive(Debug, Clone, PartialEq, Eq)]
pub struct MarginAccount {
    /// Identity of the margin account itself.
    pub key: AccountKey,
    /// Identity of the wallet that owns it.
    pub owner: AccountKey,
    /// Signed base position in each perpetual market.
    pub perp_base_positions: Vec<i64>,
    /// Signed base token balance of each spot market.
    pub spot_base_balances: Vec<i64>,
    /// Signed quote token balance.
    pub quote_balance: i64,
}

pub struct AccountView {
    pub key: Seq<u8>,
    pub owner: Seq<u8>,
    pub perp_base_positions: Seq<i64>,
    pub spot_base_balances: Seq<i64>,
    pub quote_balance: i64,
}

impl View for MarginAccount {
    type V = AccountView;

    open spec fn view(&self) -> AccountView {
        AccountView {
            key: self.key@,
            owner: self.owner@,
            perp_base_positions: self.perp_base_positions@,
            spot_base_balances: self.spot_base_balances@,
            quote_balance: self.quote_balance,
        }
    }
}

/// How much the creator's base position moves: `+size` on a bid, `-size` on an ask.
/// The taker's moves by the negation.
pub open spec fn creator_delta(o: OtcOrder) -> int {
    match o.side {
        Side::Bid => o.size as int,
        Side::Ask => -(o.size as int),
    }
}

/// The base amounts of `class` held by `a`, one per market.
pub open spec fn positions_of(a: AccountView, class: MarketClass) -> Seq<i64> {
    match class {
        MarketClass::Perp => a.perp_base_positions,
        MarketClass::Spot => a.spot_base_balances,
    }
}

pub open spec fn fits_i64(x: int) -> bool {
    i64::MIN <= x <= i64::MAX
}

/// Base amount of market `m` after moving it by `d`.
pub open spec fn base_after(a: AccountView, class: MarketClass, m: int, d: int) -> int {
    positions_of(a, class)[m] + d
}

/// Quote balance after moving the base by `d` at `price`: a spot trade pays
/// `price` per unit of base; a perpetual trade leaves it alone.
pub open spec fn quote_after(a: AccountView, class: MarketClass, price: u64, d: int) -> int {
    match class {
        MarketClass::Perp => a.quote_balance as int,
        MarketClass::Spot => a.quote_balance - d * price,
    }
}

/// Whether the account's new amounts fit the fixed-point range.
pub open spec fn trade_fits(a: AccountView, class: MarketClass, m: int, price: u64, d: int) -> bool {
    fits_i64(base_after(a, class, m, d)) && fits_i64(quote_after(a, class, price, d))
}

/// The account after moving the base of market `m` by `d` at `price`.
pub open spec fn apply_trade(a: AccountView, class: MarketClass, m: int, price: u64, d: int) -> AccountView {
    match class {
        MarketClass::Perp => AccountView {
            perp_base_positions: a.perp_base_positions.update(m, base_after(a, class, m, d) as i64),
            ..a
        },
        MarketClass::Spot => AccountView {
            spot_base_balances: a.spot_base_balances.update(m, base_after(a, class, m, d) as i64),
            quote_balance: quote_after(a, class, price, d) as i64,
            ..a
        },
    }
}

/// Outcome of checking a take of the order at `index`: the two accounts as
/// they would be after the trade, or the first check that fails.
pub open spec fn proposal_spec(
    b: BookView,
    class: MarketClass,
    index: usize,
    creator: AccountView,
    taker: AccountView,
    caller: Seq<u8>,
    now: u64,
) -> Result<(AccountView, AccountView), EntropyErrorCode> {
    if index >= MAX_OTC_ORDERS {
        Err(EntropyErrorCode::InvalidOrderId)
    } else {
        let o = b.orders(class)[index as int];
        let m = o.market_index as int;
        let d = creator_delta(o);
        if o.status != OtcOrderStatus::Active {
            Err(EntropyErrorCode::InvalidAccountState)
        } else if creator.key != b.creator_account || taker.owner != o.counterparty@ || caller
            != taker.owner {
            Err(EntropyErrorCode::InvalidAccount)
        } else if now >= o.expires {
            Err(EntropyErrorCode::OrderExpired)
        } else if m >= positions_of(creator, class).len() || m >= positions_of(taker, class).len() {
            Err(EntropyErrorCode::InvalidMarket)
        } else if !trade_fits(creator, class, m, o.price, d) || !trade_fits(
            taker,
            class,
            m,
            o.price,
            -d,
        ) {
            Err(EntropyErrorCode::MathError)
        } else {
            Ok((apply_trade(creator, class, m, o.price, d), apply_trade(taker, class, m, o.price, -d)))
        }
    }
}

/// Outcome of a take, given the health of the two proposed accounts: the
/// book with the slot filled and the two accounts traded, or the error.
pub open spec fn take_spec(
    b: BookView,
    class: MarketClass,
    index: usize,
    creator: AccountView,
    taker: AccountView,
    caller: Seq<u8>,
    now: u64,
    creator_health: i64,
    taker_health: i64,
) -> Result<(BookView, AccountView, AccountView), EntropyErrorCode> {
    match proposal_spec(b, class, index, creator, taker, caller, now) {
        Err(c) => Err(c),
        Ok((c2, t2)) => {
            if creator_health < 0 || taker_health < 0 {
                Err(EntropyErrorCode::InsufficientHealth)
            } else {
                let s = b.orders(class);
                let o = s[index as int];
                Ok(
                    (
                        b.with_class(
                            class,
                            s.update(
                                index as int,
                                OtcOrder {
                                    status: OtcOrderStatus::Filled,
                                    last_changed_at: now,
                                    ..o
                                },
                            ),
                            b.len_of(class),
                        ),
                        c2,
                        t2,
                    ),
                )
            }
        },
    }
}

fn copy_amounts(v: &Vec<i64>) -> (r: Vec<i64>)
    ensures
        r@ == v@,
{
    let mut r: Vec<i64> = Vec::new();
    let mut i: usize = 0;
    while i < v.len()
        invariant
            0 <= i <= v@.len(),
            r@ == v@.subrange(0, i as int),
        decreases v@.len() - i,
    {
        r.push(v[i]);
        i = i + 1;
        assert(r@ =~= v@.subrange(0, i as int));
    }
    assert(v@.subrange(0, v@.len() as int) =~= v@);
    r
}

/// The account after a trade in market `m` of `class` that buys (`buys`) or
/// sells `size` units of base at `price`; `None` when an amount would leave
/// the fixed-point range.
fn traded_account(
    a: &MarginAccount,
    class: MarketClass,
    m: usize,
    price: u64,
    size: u64,
    buys: bool,
) -> (r: Option<MarginAccount>)
    requires
        m < positions_of(a@, class).len(),
    ensures
        ({
            let d = if buys {
                size as int
            } else {
                -(size as int)
            };
            match r {
                Some(x) => trade_fits(a@, class, m as int, price, d) && x@ == apply_trade(
                    a@,
                    class,
                    m as int,
                    price,
                    d,
                ),
                None => !trade_fits(a@, class, m as int, price, d),
            }
        }),
{
    let ghost d: int = if buys {
        size as int
    } else {
        -(size as int)
    };
    let base: i64 = match class {
        MarketClass::Perp => a.perp_base_positions[m],
        MarketClass::Spot => a.spot_base_balances[m],
    };
    let delta: i128 = if buys {
        size as i128
    } else {
        -(size as i128)
    };
    let new_base: i128 = base as i128 + delta;
    if new_base < i64::MIN as i128 || new_base > i64::MAX as i128 {
        return None;
    }
    let mut quote: i64 = a.quote_balance;
    if let MarketClass::Spot = class {
        proof {
            assert((size as int) * (price as int) <= (u64::MAX as int) * (u64::MAX as int))
                by (nonlinear_arith)
                requires
                    size <= u64::MAX,
                    price <= u64::MAX,
            ;
            assert(d * price == if buys {
                (size as int) * (price as int)
            } else {
                -((size as int) * (price as int))
            }) by (nonlinear_arith)
                requires
                    d == if buys {
                        size as int
                    } else {
                        -(size as int)
                    },
            ;
        }
        let notional: u128 = (size as u128) * (price as u128);
        if notional > u64::MAX as u128 {
            return None;
        }
        let n: i128 = notional as i128;
        let q: i128 = if buys {
            a.quote_balance as i128 - n
        } else {
            a.quote_balance as i128 + n
        };
        if q < i64::MIN as i128 || q > i64::MAX as i128 {
            return None;
        }
        quote = q as i64;
    }
    let mut perp = copy_amounts(&a.perp_base_positions);
    let mut spot = copy_amounts(&a.spot_base_balances);
    match class {
        MarketClass::Perp => perp.set(m, new_base as i64),
        MarketClass::Spot => spot.set(m, new_base as i64),
    }
    let r = MarginAccount {
        key: a.key,
        owner: a.owner,
        perp_base_positions: perp,
        spot_base_balances: spot,
        quote_balance: quote,
    };
    proof {
        assert(r@ =~= apply_trade(a@, class, m as int, price, d));
    }
    Some(r)
}


impl OrderBook {
    /// Checks a take of the order at `index` by `caller`, on behalf of the
    /// margin account `taker`, at logical time `now`, and returns both
    /// accounts as they would stand after the trade. Nothing is written.
    ///
    /// `caller` is the wallet that signed the take (the host checks the
    /// signature); it must own `taker`, and `taker`'s owner must be the
    /// order's counterparty. `creator` must be the book's `creator_account`.
    pub fn propose_take(
        &self,
        class: MarketClass,
        index: usize,
        creator: &MarginAccount,
        taker: &MarginAccount,
        caller: &AccountKey,
        now: u64,
    ) -> (r: MangoResult<(MarginAccount, MarginAccount)>)
        requires
            self@.wf(),
        ensures
            match proposal_spec(self@, class, index, creator@, taker@, caller@, now) {
                Ok((c, t)) => r is Ok && r->Ok_0.0@ == c && r->Ok_0.1@ == t,
                Err(c) => fails_with(r, c),
            },
    {
        if index >= MAX_OTC_ORDERS {
            return Err(error_at(EntropyErrorCode::InvalidOrderId, 343, SourceFileId::Processor));
        }
        let o = self.order_at(class, index);
        if o.status != OtcOrderStatus::Active {
            return Err(error_at(EntropyErrorCode::InvalidAccountState, 347, SourceFileId::Processor));
        }
        if !keys_equal(&creator.key, &self.creator_account) || !keys_equal(
            &taker.owner,
            &o.counterparty,
        ) || !keys_equal(caller, &taker.owner) {
            return Err(error_at(EntropyErrorCode::InvalidAccount, 353, SourceFileId::Processor));
        }
        if now >= o.expires {
            return Err(error_at(EntropyErrorCode::OrderExpired, 356, SourceFileId::Processor));
        }
        let m = o.market_index;
        let in_range = match class {
            MarketClass::Perp => m < creator.perp_base_positions.len() && m
                < taker.perp_base_positions.len(),
            MarketClass::Spot => m < creator.spot_base_balances.len() && m
                < taker.spot_base_balances.len(),
        };
        if !in_range {
            return Err(error_at(EntropyErrorCode::InvalidMarket, 366, SourceFileId::Processor));
        }
        let creator_buys = match o.side {
            Side::Bid => true,
            Side::Ask => false,
        };
        let c2 = match traded_account(creator, class, m, o.price, o.size, creator_buys) {
            Some(a) => a,
            None => {
                return Err(error_at(EntropyErrorCode::MathError, 375, SourceFileId::Processor));
            },
        };
        let t2 = match traded_account(taker, class, m, o.price, o.size, !creator_buys) {
            Some(a) => a,
            None => {
                return Err(error_at(EntropyErrorCode::MathError, 381, SourceFileId::Processor));
            },
        };
        Ok((c2, t2))
    }

    /// Settles the order at `index`: checks it as `propose_take` does, then
    /// commits the trade to both accounts and marks the slot filled, provided
    /// neither `creator_health` nor `taker_health` is negative. These are the
    /// health values of the accounts that `propose_take` returns. On any
    /// failure the book and both accounts are left as they were.
    pub fn take(
        &mut self,
        class: MarketClass,
        index: usize,
        creator: &mut MarginAccount,
        taker: &mut MarginAccount,
        caller: &AccountKey,
        now: u64,
        creator_health: i64,
        taker_health: i64,
    ) -> (r: MangoResult<()>)
        requires
            old(self)@.wf(),
        ensures
            final(self)@.wf(),
            match take_spec(
                old(self)@,
                class,
                index,
                old(creator)@,
                old(taker)@,
                caller@,
                now,
                creator_health,
                taker_health,
            ) {
                Ok((b, c, t)) => r is Ok && final(self)@ == b && final(creator)@ == c && final(taker)@
                    == t,
                Err(c) => fails_with(r, c) && final(self)@ == old(self)@ && final(creator)@ == old(
                    creator,
                )@ && final(taker)@ == old(taker)@,
            },
    {
        let (c2, t2) = match self.propose_take(class, index, &*creator, &*taker, caller, now) {
            Ok(p) => p,
            Err(e) => {
                return Err(e);
            },
        };
        if creator_health < 0 || taker_health < 0 {
            return Err(error_at(EntropyErrorCode::InsufficientHealth, 432, SourceFileId::Processor));
        }
        let o = self.order_at(class, index);
        let filled = OtcOrder { status: OtcOrderStatus::Filled, last_changed_at: now, ..o };
        match class {
            MarketClass::Perp => {
                proof {
                    crate::orders::lemma_count_update(self.perp_orders@, index as int, filled);
                }
                self.perp_orders.set(index, filled);
            },
            MarketClass::Spot => {
                proof {
                    crate::orders::lemma_count_update(self.spot_orders@, index as int, filled);
                }
                self.spot_orders.set(index, filled);
            },
        }
        *creator = c2;
        *taker = t2;
        Ok(())
    }
}

} // verus!
