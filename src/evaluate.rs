//! Whether a company's figures pass the screening policy.
use vstd::prelude::*;

use crate::company::{Company, FetchError};

verus! {

/// The screening policy: bounds on market cap and net debt, and the
/// multiplier (a ratio of integers) that weighs market cap into net debt.
/// A bound of `None` is no bound. Free cash flow must always be positive:
/// the derived figures divide by it.
pub struct Policy {
    pub min_market_cap: Option<i64>,
    pub max_market_cap: Option<i64>,
    pub max_net_debt: Option<i64>,
    pub cap_multiplier_num: u32,
    pub cap_multiplier_den: u32,
}

/// The outcome for one ticker symbol.
pub enum Verdict {
    Accepted(Company),
    Rejected,
    Failed(FetchError),
}

impl Policy {
    pub open spec fn wf(&self) -> bool {
        self.cap_multiplier_den > 0
    }

    /// Market cap within `[100_000_000, 1_000_000_000]`, net debt at most
    /// `1_000_000_000`, with market cap weighed in at 1.45.
    pub fn standard() -> (r: Policy)
        ensures
            r.wf(),
            r.min_market_cap == Some(100_000_000i64),
            r.max_market_cap == Some(1_000_000_000i64),
            r.max_net_debt == Some(1_000_000_000i64),
            r.cap_multiplier_num == 145,
            r.cap_multiplier_den == 100,
    {
        Policy {
            min_market_cap: Some(100_000_000),
            max_market_cap: Some(1_000_000_000),
            max_net_debt: Some(1_000_000_000),
            cap_multiplier_num: 145,
            cap_multiplier_den: 100,
        }
    }

    /// No bound but a positive free cash flow; net debt weighs market cap
    /// in at 1.45.
    pub fn cash_flow_only() -> (r: Policy)
        ensures
            r.wf(),
            r.min_market_cap is None,
            r.max_market_cap is None,
            r.max_net_debt is None,
            r.cap_multiplier_num == 145,
            r.cap_multiplier_den == 100,
    {
        Policy {
            min_market_cap: None,
            max_market_cap: None,
            max_net_debt: None,
            cap_multiplier_num: 145,
            cap_multiplier_den: 100,
        }
    }
}

/// Net debt times the multiplier's denominator:
/// `den * (total_debt - total_cash) + num * market_cap`.
pub open spec fn scaled_net_debt_of(
    market_cap: int,
    total_debt: int,
    free_cash: int,
    p: Policy,
) -> int {
    p.cap_multiplier_den * (total_debt - free_cash) + p.cap_multiplier_num * market_cap
}

/// Whether figures pass the policy: market cap within its bounds, net debt
/// at most its bound, and a positive free cash flow.
pub open spec fn passes(
    market_cap: int,
    total_debt: int,
    free_cash: int,
    free_cash_flow: int,
    p: Policy,
) -> bool {
    &&& (p.min_market_cap matches Some(lo) ==> lo <= market_cap)
    &&& (p.max_market_cap matches Some(hi) ==> market_cap <= hi)
    &&& (p.max_net_debt matches Some(hi) ==> scaled_net_debt_of(market_cap, total_debt, free_cash, p)
        <= hi * p.cap_multiplier_den)
    &&& free_cash_flow > 0
}

pub open spec fn company_passes(c: Company, p: Policy) -> bool {
    passes(c.market_cap as int, c.total_debt as int, c.free_cash as int, c.free_cash_flow as int, p)
}

/// The verdict on an outcome of fetching a company's figures.
pub open spec fn verdict_of(outcome: Result<Company, FetchError>, p: Policy) -> Verdict {
    match outcome {
        Err(e) => Verdict::Failed(e),
        Ok(c) => if company_passes(c, p) {
            Verdict::Accepted(c)
        } else {
            Verdict::Rejected
        },
    }
}

/// Net debt, exactly, as a multiple of `1 / cap_multiplier_den`.
pub fn scaled_net_debt(c: &Company, p: &Policy) -> (r: i128)
    ensures
        r == scaled_net_debt_of(c.market_cap as int, c.total_debt as int, c.free_cash as int, *p),
{
    let den = p.cap_multiplier_den as i128;
    let num = p.cap_multiplier_num as i128;
    let diff = c.total_debt as i128 - c.free_cash as i128;
    assert(-0x1_0000_0000_0000_0000 <= diff <= 0x1_0000_0000_0000_0000);
    assert(0 <= den <= 0xffff_ffff);
    assert(-0x1_0000_0000_0000_0000_0000_0000 <= den * diff <= 0x1_0000_0000_0000_0000_0000_0000)
        by (nonlinear_arith)
        requires
            -0x1_0000_0000_0000_0000 <= diff <= 0x1_0000_0000_0000_0000,
            0 <= den <= 0xffff_ffff,
    ;
    let cap = c.market_cap as i128;
    assert(-0x1_0000_0000_0000_0000_0000_0000 <= num * cap <= 0x1_0000_0000_0000_0000_0000_0000)
        by (nonlinear_arith)
        requires
            -0x8000_0000_0000_0000 <= cap <= 0x8000_0000_0000_0000,
            0 <= num <= 0xffff_ffff,
    ;
    den * diff + num * cap
}

/// Whether the company's figures pass the policy.
pub fn evaluate(c: &Company, p: &Policy) -> (r: bool)
    requires
        p.wf(),
    ensures
        r == company_passes(*c, *p),
{
    if let Some(lo) = p.min_market_cap {
        if c.market_cap < lo {
            return false;
        }
    }
    if let Some(hi) = p.max_market_cap {
        if c.market_cap > hi {
            return false;
        }
    }
    if let Some(hi) = p.max_net_debt {
        let h = hi as i128;
        let d = p.cap_multiplier_den as i128;
        assert(-0x8000_0000_0000_0000_0000_0000_0000 <= h * d <= 0x8000_0000_0000_0000_0000_0000_0000)
            by (nonlinear_arith)
            requires
                -0x8000_0000_0000_0000 <= h <= 0x8000_0000_0000_0000,
                0 <= d <= 0xffff_ffff,
        ;
        let bound = h * d;
        if scaled_net_debt(c, p) > bound {
            return false;
        }
    }
    c.free_cash_flow > 0
}

/// The verdict on one symbol: a failed fetch gives `Failed` with its error;
/// figures that pass the policy give `Accepted`, others `Rejected`.
pub fn verdict(outcome: Result<Company, FetchError>, p: &Policy) -> (r: Verdict)
    requires
        p.wf(),
    ensures
        r == verdict_of(outcome, *p),
{
    match outcome {
        Err(e) => Verdict::Failed(e),
        Ok(c) => if evaluate(&c, p) {
            Verdict::Accepted(c)
        } else {
            Verdict::Rejected
        },
    }
}

/// The verdict depends on the four figures and the policy alone: two
/// companies with the same figures, under the same policy, get the same
/// verdict, whatever their names.
pub proof fn verdict_is_deterministic(a: Company, b: Company, p: Policy)
    requires
        a.market_cap == b.market_cap,
        a.total_debt == b.total_debt,
        a.free_cash == b.free_cash,
        a.free_cash_flow == b.free_cash_flow,
    ensures
        company_passes(a, p) == company_passes(b, p),
        verdict_of(Ok(a), p) is Accepted <==> verdict_of(Ok(b), p) is Accepted,
        verdict_of(Ok(a), p) is Rejected <==> verdict_of(Ok(b), p) is Rejected,
{
}

/// A company whose free cash flow is zero is rejected, under every policy:
/// nothing is ever divided by it.
pub proof fn zero_cash_flow_is_rejected(c: Company, p: Policy)
    requires
        c.free_cash_flow == 0,
    ensures
        !company_passes(c, p),
        verdict_of(Ok(c), p) == Verdict::Rejected,
{
}

/// Under the standard policy the market-cap bounds are inclusive: a company
/// with market cap exactly 100_000_000 or exactly 1_000_000_000 passes where
/// its other figures do, and one just outside either bound is rejected.
pub proof fn standard_bounds_are_inclusive(c: Company, p: Policy)
    requires
        p.min_market_cap == Some(100_000_000i64),
        p.max_market_cap == Some(1_000_000_000i64),
    ensures
        c.market_cap < 100_000_000 ==> !company_passes(c, p),
        c.market_cap > 1_000_000_000 ==> !company_passes(c, p),
        100_000_000 <= c.market_cap <= 1_000_000_000 ==> (company_passes(c, p) <==> (
        (p.max_net_debt matches Some(hi) ==> scaled_net_debt_of(
            c.market_cap as int,
            c.total_debt as int,
            c.free_cash as int,
            p,
        ) <= hi * p.cap_multiplier_den) && c.free_cash_flow > 0)),
{
}

} // verus!
