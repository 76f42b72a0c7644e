use vstd::prelude::*;

verus! {

/// The least gas price the chain takes, in its fee denomination.
pub const INJECTIVE_MIN_GAS_PRICE: u128 = 2500;

/// An amount of one denomination.
#[derive(Debug, Clone, PartialEq, Eq)]
pub struct Coin {
    pub denom: String,
    pub amount: u128,
}

impl Coin {
    pub fn new(amount: u128, denom: &str) -> (r: Coin)
        ensures
            r.amount == amount,
            r.denom@ == denom@,
    {
        Coin { denom: denom.to_owned(), amount }
    }
}

/// The factor by which simulated gas is scaled, as the exact fraction
/// `numerator / denominator` (1.3 is `13 / 10`).
#[derive(Debug, Clone, Copy, PartialEq, Eq)]
pub struct GasAdjustment {
    pub numerator: u64,
    pub denominator: u64,
}

impl GasAdjustment {
    pub open spec fn wf(self) -> bool {
        self.denominator > 0
    }

    pub fn new(numerator: u64, denominator: u64) -> (r: GasAdjustment)
        requires
            denominator > 0,
        ensures
            r.numerator == numerator,
            r.denominator == denominator,
            r.wf(),
    {
        GasAdjustment { numerator, denominator }
    }
}

/// How the fee of a transaction is chosen.
#[derive(Debug, Clone, PartialEq, Eq)]
pub enum FeeSetting {
    /// Simulate the transaction first, then scale the gas it used.
    Auto { gas_price: Coin, gas_adjustment: GasAdjustment },
    /// A fixed fee; no simulation is made.
    Custom { amount: Coin, gas_limit: u64 },
}

impl FeeSetting {
    pub open spec fn wf(&self) -> bool {
        match self {
            FeeSetting::Auto { gas_adjustment, .. } => gas_adjustment.wf(),
            FeeSetting::Custom { .. } => true,
        }
    }

    pub open spec fn is_auto(&self) -> bool {
        self is Auto
    }

    /// Two settings that say the same: same variant, same denomination text,
    /// same numbers.
    pub open spec fn same_as(&self, other: FeeSetting) -> bool {
        match (*self, other) {
            (
                FeeSetting::Auto { gas_price: p, gas_adjustment: a },
                FeeSetting::Auto { gas_price: q, gas_adjustment: b },
            ) => p.denom@ == q.denom@ && p.amount == q.amount && a == b,
            (
                FeeSetting::Custom { amount: p, gas_limit: g },
                FeeSetting::Custom { amount: q, gas_limit: h },
            ) => p.denom@ == q.denom@ && p.amount == q.amount && g == h,
            _ => false,
        }
    }

    /// A copy of this setting.
    pub fn copy(&self) -> (r: FeeSetting)
        ensures
            r.same_as(*self),
            r.wf() == self.wf(),
    {
        match self {
            FeeSetting::Auto { gas_price, gas_adjustment } => FeeSetting::Auto {
                gas_price: Coin { denom: gas_price.denom.clone(), amount: gas_price.amount },
                gas_adjustment: *gas_adjustment,
            },
            FeeSetting::Custom { amount, gas_limit } => FeeSetting::Custom {
                amount: Coin { denom: amount.denom.clone(), amount: amount.amount },
                gas_limit: *gas_limit,
            },
        }
    }

    /// Whether a fee under this setting has to be estimated by simulation.
    pub fn requires_estimation(&self) -> (r: bool)
        ensures
            r == self.is_auto(),
    {
        match self {
            FeeSetting::Auto { .. } => true,
            FeeSetting::Custom { .. } => false,
        }
    }
}

/// The fee attached to a transaction.
#[derive(Debug, Clone, PartialEq, Eq)]
pub struct Fee {
    pub amount: Coin,
    pub gas_limit: u64,
}

/// `a / b` rounded up.
pub open spec fn ceil_div(a: int, b: int) -> int {
    (a + b - 1) / b
}

pub open spec fn min_int(a: int, b: int) -> int {
    if a <= b { a } else { b }
}

/// `ceil(gas_used * adjustment)`, held to what a `u64` can carry.
pub open spec fn gas_limit_of(gas_used: u64, adj: GasAdjustment) -> int {
    min_int(ceil_div(gas_used * adj.numerator, adj.denominator as int), u64::MAX as int)
}

/// `gas_limit * price`, held to what a `u128` can carry.
pub open spec fn fee_amount_of(gas_limit: u64, price: u128) -> int {
    min_int(gas_limit * price, u128::MAX as int)
}

/// The gas limit for a transaction that used `gas_used` in simulation:
/// the used gas scaled by the adjustment and rounded up.
pub fn scaled_gas_limit(gas_used: u64, adj: GasAdjustment) -> (r: u64)
    requires
        adj.wf(),
    ensures
        r == gas_limit_of(gas_used, adj),
{
    let num: u128 = adj.numerator as u128;
    let den: u128 = adj.denominator as u128;
    let used: u128 = gas_used as u128;
    assert(used * num <= (u64::MAX as int) * (u64::MAX as int)) by (nonlinear_arith)
        requires
            used <= u64::MAX,
            num <= u64::MAX,
    ;
    let product: u128 = used * num;
    let q: u128 = (product + (den - 1)) / den;
    if q > u64::MAX as u128 {
        u64::MAX
    } else {
        q as u64
    }
}

/// `gas_limit * price` in the price's units, saturating at `u128::MAX`.
pub fn fee_amount(gas_limit: u64, price: u128) -> (r: u128)
    ensures
        r == fee_amount_of(gas_limit, price),
{
    match (gas_limit as u128).checked_mul(price) {
        Some(v) => v,
        None => u128::MAX,
    }
}

/// The fee for a transaction whose simulation used `gas_used`, under an
/// `Auto` setting: `gas_limit = ceil(gas_used * adjustment)` and
/// `amount = gas_limit * gas_price`, in the gas price's denomination.
/// Calling it under a `Custom` setting is a programming error.
pub fn estimate_fee(gas_used: u64, setting: &FeeSetting) -> (r: Fee)
    requires
        setting.wf(),
        setting.is_auto(),
    ensures
        match setting {
            FeeSetting::Auto { gas_price, gas_adjustment } => {
                &&& r.gas_limit == gas_limit_of(gas_used, *gas_adjustment)
                &&& r.amount.amount == fee_amount_of(r.gas_limit, gas_price.amount)
                &&& r.amount.denom@ == gas_price.denom@
            },
            FeeSetting::Custom { .. } => false,
        },
{
    match setting {
        FeeSetting::Auto { gas_price, gas_adjustment } => {
            let gas_limit = scaled_gas_limit(gas_used, *gas_adjustment);
            let amount = fee_amount(gas_limit, gas_price.amount);
            Fee { amount: Coin { denom: gas_price.denom.clone(), amount }, gas_limit }
        },
        FeeSetting::Custom { .. } => {
            proof {
                assert(false);
            }
            Fee { amount: Coin { denom: String::new(), amount: 0 }, gas_limit: 0 }
        },
    }
}

/// The fee that a `Custom` setting fixes.
pub fn custom_fee(setting: &FeeSetting) -> (r: Fee)
    requires
        !setting.is_auto(),
    ensures
        match setting {
            FeeSetting::Custom { amount, gas_limit } => {
                &&& r.gas_limit == *gas_limit
                &&& r.amount.amount == amount.amount
                &&& r.amount.denom@ == amount.denom@
            },
            FeeSetting::Auto { .. } => false,
        },
{
    match setting {
        FeeSetting::Custom { amount, gas_limit } => Fee {
            amount: Coin { denom: amount.denom.clone(), amount: amount.amount },
            gas_limit: *gas_limit,
        },
        FeeSetting::Auto { .. } => {
            proof {
                assert(false);
            }
            Fee { amount: Coin { denom: String::new(), amount: 0 }, gas_limit: 0 }
        },
    }
}

} // verus!
