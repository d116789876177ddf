//! Valuation of the pooled account in quote units.
//!
//! Token positions are indexed by token; the spot and perp markets are
//! indexed by market, one per non-quote token, and the quote token comes
//! last, at the index equal to the number of markets.
use crate::error::{fixed_result, BlenderError};
use crate::fixed_point::{
    abs, fixed_opt, fx_add, fx_div, fx_mul, fx_neg, trunc_div, Fixed, FIXED_ONE,
};
use vstd::prelude::*;

verus! {

/// Interest multipliers of one token since its ledger amounts were settled.
#[derive(Clone, Copy, Debug, PartialEq, Eq, Structural)]
pub struct RootBankCache {
    pub deposit_index: Fixed,
    pub borrow_index: Fixed,
}

/// What rests unfilled on one spot market's order book for the account.
#[derive(Clone, Copy, Debug, PartialEq, Eq, Structural)]
pub struct OpenOrdersSnapshot {
    pub quote_free: Fixed,
    pub quote_locked: Fixed,
    pub base_free: Fixed,
    pub base_locked: Fixed,
}

/// The (base, quote) value of one perp position, as the venue values it.
#[derive(Clone, Copy, Debug, PartialEq, Eq, Structural)]
pub struct PerpValue {
    pub base: Fixed,
    pub quote: Fixed,
}

/// What one market adds to the pool's value.
#[derive(Clone, Copy, Debug)]
pub enum AssetContribution {
    /// A spot token's net exposure, its price and what rests on its book.
    Spot {
        base_net: Fixed,
        price: Fixed,
        open_orders: Option<OpenOrdersSnapshot>,
        in_margin_basket: bool,
    },
    /// A perp position, valued by the venue.
    Derivative(PerpValue),
}

/// The pooled margin account, as read from the venue.
pub struct PooledAccount {
    /// Raw deposit amount of each token.
    pub deposits: Vec<Fixed>,
    /// Raw borrow amount of each token.
    pub borrows: Vec<Fixed>,
    /// Whether each spot market may hold resting orders.
    pub in_margin_basket: Vec<bool>,
    /// The value of the position on each perp market.
    pub perp_values: Vec<PerpValue>,
}

/// Prices and interest multipliers, already checked to be fresh.
pub struct MarketCache {
    /// Quote units per base unit on each market.
    pub prices: Vec<Fixed>,
    /// Interest multipliers of each token.
    pub root_bank_cache: Vec<RootBankCache>,
}

/// The markets on which the account has any exposure.
pub struct UserActiveAssets {
    pub spot: Vec<bool>,
    pub perps: Vec<bool>,
}

impl PooledAccount {
    /// Number of markets; also the index of the quote token.
    pub open spec fn num_markets(&self) -> nat {
        self.in_margin_basket@.len()
    }

    pub open spec fn wf(&self) -> bool {
        &&& self.deposits@.len() == self.num_markets() + 1
        &&& self.borrows@.len() == self.num_markets() + 1
        &&& self.perp_values@.len() == self.num_markets()
    }

    pub fn quote_index(&self) -> (r: usize)
        ensures
            r == self.num_markets(),
    {
        self.in_margin_basket.len()
    }
}

/// The account, cache, open orders and active markets describe the same markets.
pub open spec fn inputs_wf(
    account: PooledAccount,
    cache: MarketCache,
    open_orders: Seq<Option<OpenOrdersSnapshot>>,
    active: UserActiveAssets,
) -> bool {
    let n = account.num_markets();
    &&& account.wf()
    &&& cache.prices@.len() == n
    &&& cache.root_bank_cache@.len() == n + 1
    &&& open_orders.len() == n
    &&& active.spot@.len() == n
    &&& active.perps@.len() == n
}

/// Whether the valuation inputs describe the same markets.
pub fn inputs_consistent(
    account: &PooledAccount,
    cache: &MarketCache,
    open_orders: &Vec<Option<OpenOrdersSnapshot>>,
    active: &UserActiveAssets,
) -> (r: bool)
    ensures
        r == inputs_wf(*account, *cache, open_orders@, *active),
{
    let n = account.in_margin_basket.len();
    let tokens_ok = account.deposits.len() > 0 && account.deposits.len() - 1 == n
        && account.borrows.len() > 0 && account.borrows.len() - 1 == n
        && cache.root_bank_cache.len() > 0 && cache.root_bank_cache.len() - 1 == n;
    tokens_ok && account.perp_values.len() == n && cache.prices.len() == n && open_orders.len()
        == n && active.spot.len() == n && active.perps.len() == n
}

pub open spec fn add_opt(a: Option<int>, b: Option<int>) -> Option<int> {
    match (a, b) {
        (Some(x), Some(y)) => fx_add(x, y),
        _ => None,
    }
}

pub open spec fn mul_opt(a: Option<int>, b: Option<int>) -> Option<int> {
    match (a, b) {
        (Some(x), Some(y)) => fx_mul(x, y),
        _ => None,
    }
}

/// Net exposure of one token: the deposit grown by the deposit index, or the
/// borrow grown by the borrow index and negated, or zero.
pub open spec fn base_net(deposit: int, borrow: int, deposit_index: int, borrow_index: int) -> Option<
    int,
> {
    if deposit > 0 {
        fx_mul(deposit, deposit_index)
    } else if borrow > 0 {
        match fx_mul(borrow, borrow_index) {
            Some(p) => fx_neg(p),
            None => None,
        }
    } else {
        Some(0)
    }
}

/// Base exposure if every resting bid fills at `price`.
pub open spec fn bids_base_net(base_net: int, oo: OpenOrdersSnapshot, price: int) -> Option<int> {
    add_opt(
        add_opt(fx_add(base_net, oo.base_free@), Some(oo.base_locked@)),
        fx_div(oo.quote_locked@, price),
    )
}

/// Base exposure if every resting ask fills at `price`.
pub open spec fn asks_base_net(base_net: int, oo: OpenOrdersSnapshot) -> Option<int> {
    fx_add(base_net, oo.base_free@)
}

/// Quote value of one spot token. With resting orders, the scenario whose
/// base exposure is larger in absolute value is reported; a tie goes to the
/// asks scenario.
pub open spec fn spot_value(
    base_net: int,
    price: int,
    open_orders: Option<OpenOrdersSnapshot>,
    in_margin_basket: bool,
) -> Option<int> {
    match open_orders {
        Some(oo) if in_margin_basket => match (
            bids_base_net(base_net, oo, price),
            asks_base_net(base_net, oo),
        ) {
            (Some(bids), Some(asks)) => if abs(bids) > abs(asks) {
                add_opt(fx_mul(bids, price), Some(oo.quote_free@))
            } else {
                add_opt(
                    fx_mul(asks, price),
                    add_opt(
                        add_opt(fx_mul(oo.base_locked@, price), Some(oo.quote_free@)),
                        Some(oo.quote_locked@),
                    ),
                )
            },
            _ => None,
        },
        _ => fx_mul(base_net, price),
    }
}

pub open spec fn contribution_value(c: AssetContribution) -> Option<int> {
    match c {
        AssetContribution::Spot { base_net, price, open_orders, in_margin_basket } => spot_value(
            base_net@,
            price@,
            open_orders,
            in_margin_basket,
        ),
        AssetContribution::Derivative(p) => fx_add(p.base@, p.quote@),
    }
}

pub open spec fn token_net(account: PooledAccount, cache: MarketCache, i: int) -> Option<int> {
    base_net(
        account.deposits@[i]@,
        account.borrows@[i]@,
        cache.root_bank_cache@[i].deposit_index@,
        cache.root_bank_cache@[i].borrow_index@,
    )
}

pub open spec fn spot_term(
    account: PooledAccount,
    cache: MarketCache,
    open_orders: Seq<Option<OpenOrdersSnapshot>>,
    i: int,
) -> Option<int> {
    match token_net(account, cache, i) {
        Some(net) => spot_value(
            net,
            cache.prices@[i]@,
            open_orders[i],
            account.in_margin_basket@[i],
        ),
        None => None,
    }
}

pub open spec fn perp_term(account: PooledAccount, i: int) -> Option<int> {
    fx_add(account.perp_values@[i].base@, account.perp_values@[i].quote@)
}

/// Running total over the first `n` markets: each market's active spot
/// value, then its active perp value, every partial sum in range.
pub open spec fn value_through(
    account: PooledAccount,
    cache: MarketCache,
    open_orders: Seq<Option<OpenOrdersSnapshot>>,
    active: UserActiveAssets,
    n: nat,
) -> Option<int>
    decreases n,
{
    if n == 0 {
        Some(0)
    } else {
        let i = n - 1;
        let prev = value_through(account, cache, open_orders, active, (n - 1) as nat);
        let with_spot = if active.spot@[i] {
            add_opt(prev, spot_term(account, cache, open_orders, i))
        } else {
            prev
        };
        if active.perps@[i] {
            add_opt(with_spot, perp_term(account, i))
        } else {
            with_spot
        }
    }
}

/// Value of the whole account: all active markets, then the quote token's
/// own net exposure.
pub open spec fn pool_value(
    account: PooledAccount,
    cache: MarketCache,
    open_orders: Seq<Option<OpenOrdersSnapshot>>,
    active: UserActiveAssets,
) -> Option<int> {
    let n = account.num_markets();
    add_opt(
        value_through(account, cache, open_orders, active, n),
        token_net(account, cache, n as int),
    )
}

/// With non-negative resting amounts and a positive price, the base
/// exposure of the all-bids scenario is never below that of the all-asks
/// scenario.
pub proof fn lemma_bids_base_at_least_asks(base_net: int, oo: OpenOrdersSnapshot, price: int)
    requires
        oo.base_free@ >= 0,
        oo.base_locked@ >= 0,
        oo.quote_locked@ >= 0,
        price > 0,
    ensures
        bids_base_net(base_net, oo, price) is Some ==> {
            &&& asks_base_net(base_net, oo) is Some
            &&& bids_base_net(base_net, oo, price)->0 >= asks_base_net(base_net, oo)->0
        },
{
    let n = oo.quote_locked@ * (FIXED_ONE as int);
    assert(n >= 0) by (nonlinear_arith)
        requires
            oo.quote_locked@ >= 0,
            n == oo.quote_locked@ * (FIXED_ONE as int),
    ;
    assert(trunc_div(n, price) >= 0) by (nonlinear_arith)
        requires
            n >= 0,
            price > 0,
            trunc_div(n, price) == n / price,
    ;
}

proof fn lemma_value_through_none(
    account: PooledAccount,
    cache: MarketCache,
    open_orders: Seq<Option<OpenOrdersSnapshot>>,
    active: UserActiveAssets,
    k: nat,
    m: nat,
)
    requires
        k <= m,
        value_through(account, cache, open_orders, active, k) is None,
    ensures
        value_through(account, cache, open_orders, active, m) is None,
    decreases m - k,
{
    if k < m {
        lemma_value_through_none(account, cache, open_orders, active, k, (m - 1) as nat);
    }
}

fn math(r: Option<Fixed>) -> (res: Result<Fixed, BlenderError>)
    ensures
        res == fixed_result(fixed_opt(r)),
{
    match r {
        Some(f) => Ok(f),
        None => Err(BlenderError::MathError),
    }
}

/// Net exposure of token `token_index`, corrected for accrued interest.
pub fn get_mango_account_base_net(
    account: &PooledAccount,
    bank_cache: &RootBankCache,
    token_index: usize,
) -> (r: Result<Fixed, BlenderError>)
    requires
        token_index < account.deposits@.len(),
        token_index < account.borrows@.len(),
    ensures
        r == fixed_result(
            base_net(
                account.deposits@[token_index as int]@,
                account.borrows@[token_index as int]@,
                bank_cache.deposit_index@,
                bank_cache.borrow_index@,
            ),
        ),
{
    let deposit = account.deposits[token_index];
    let borrow = account.borrows[token_index];
    if deposit.bits > 0 {
        math(deposit.checked_mul(bank_cache.deposit_index))
    } else if borrow.bits > 0 {
        let grown = math(borrow.checked_mul(bank_cache.borrow_index))?;
        math(grown.checked_neg())
    } else {
        Ok(Fixed::zero())
    }
}

/// Base exposure of the all-bids-fill scenario.
pub fn bids_base(base_net: Fixed, oo: &OpenOrdersSnapshot, price: Fixed) -> (r: Result<
    Fixed,
    BlenderError,
>)
    ensures
        r == fixed_result(bids_base_net(base_net@, *oo, price@)),
{
    let with_free = math(base_net.checked_add(oo.base_free))?;
    let with_locked = math(with_free.checked_add(oo.base_locked))?;
    let bought = math(oo.quote_locked.checked_div(price))?;
    math(with_locked.checked_add(bought))
}

/// Base exposure of the all-asks-fill scenario.
pub fn asks_base(base_net: Fixed, oo: &OpenOrdersSnapshot) -> (r: Result<Fixed, BlenderError>)
    ensures
        r == fixed_result(asks_base_net(base_net@, *oo)),
{
    math(base_net.checked_add(oo.base_free))
}

/// Quote value of one spot token, taking the worse of the two fill
/// scenarios when orders may rest on its book.
pub fn get_spot_val_in_quote(
    base_net: Fixed,
    price: Fixed,
    open_orders: Option<OpenOrdersSnapshot>,
    in_margin_basket: bool,
) -> (r: Result<Fixed, BlenderError>)
    ensures
        r == fixed_result(spot_value(base_net@, price@, open_orders, in_margin_basket)),
{
    match open_orders {
        Some(oo) if in_margin_basket => {
            let bids = bids_base(base_net, &oo, price)?;
            let asks = asks_base(base_net, &oo)?;
            if bids.abs_gt(asks) {
                let v = math(bids.checked_mul(price))?;
                math(v.checked_add(oo.quote_free))
            } else {
                let v = math(asks.checked_mul(price))?;
                let locked = math(oo.base_locked.checked_mul(price))?;
                let locked = math(locked.checked_add(oo.quote_free))?;
                let locked = math(locked.checked_add(oo.quote_locked))?;
                math(v.checked_add(locked))
            }
        },
        _ => math(base_net.checked_mul(price)),
    }
}

/// Quote value of one market's contribution: the conservative spot value,
/// or the sum of a perp position's base and quote values.
pub fn asset_value(c: &AssetContribution) -> (r: Result<Fixed, BlenderError>)
    ensures
        r == fixed_result(contribution_value(*c)),
{
    match c {
        AssetContribution::Spot { base_net, price, open_orders, in_margin_basket } => {
            get_spot_val_in_quote(*base_net, *price, *open_orders, *in_margin_basket)
        },
        AssetContribution::Derivative(p) => math(p.base.checked_add(p.quote)),
    }
}

/// Total value of the pooled account in quote units, open orders included.
pub fn calculate_pool_value(
    account: &PooledAccount,
    cache: &MarketCache,
    open_orders: &Vec<Option<OpenOrdersSnapshot>>,
    active_assets: &UserActiveAssets,
) -> (r: Result<Fixed, BlenderError>)
    requires
        inputs_wf(*account, *cache, open_orders@, *active_assets),
    ensures
        r == fixed_result(pool_value(*account, *cache, open_orders@, *active_assets)),
{
    let n = account.quote_index();
    let mut total = Fixed::zero();
    let mut i: usize = 0;
    while i < n
        invariant
            inputs_wf(*account, *cache, open_orders@, *active_assets),
            n == account.num_markets(),
            0 <= i <= n,
            value_through(*account, *cache, open_orders@, *active_assets, i as nat) == Some(
                total@,
            ),
        decreases n - i,
    {
        let ghost prev = total@;
        if active_assets.spot[i] {
            let term = match get_mango_account_base_net(account, &cache.root_bank_cache[i], i) {
                Ok(net) => asset_value(
                    &AssetContribution::Spot {
                        base_net: net,
                        price: cache.prices[i],
                        open_orders: open_orders[i],
                        in_margin_basket: account.in_margin_basket[i],
                    },
                ),
                Err(e) => Err(e),
            };
            let sum = match term {
                Ok(v) => total.checked_add(v),
                Err(_) => None,
            };
            match sum {
                Some(s) => {
                    total = s;
                },
                None => {
                    proof {
                        lemma_value_through_none(
                            *account,
                            *cache,
                            open_orders@,
                            *active_assets,
                            (i + 1) as nat,
                            n as nat,
                        );
                    }
                    return Err(BlenderError::MathError);
                },
            }
        }
        if active_assets.perps[i] {
            let sum = match asset_value(&AssetContribution::Derivative(account.perp_values[i])) {
                Ok(v) => total.checked_add(v),
                Err(_) => None,
            };
            match sum {
                Some(s) => {
                    total = s;
                },
                None => {
                    proof {
                        lemma_value_through_none(
                            *account,
                            *cache,
                            open_orders@,
                            *active_assets,
                            (i + 1) as nat,
                            n as nat,
                        );
                    }
                    return Err(BlenderError::MathError);
                },
            }
        }
        i += 1;
    }
    let quote = get_mango_account_base_net(account, &cache.root_bank_cache[n], n)?;
    math(total.checked_add(quote))
}

} // verus!
