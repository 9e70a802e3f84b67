//! Business analytics: cumulative counters, the best day, a window of daily
//! revenues and the profit margin of every sale.
//!
//! Margins are held in basis points (hundredths of a percent), averages of
//! revenue in hundredths of a currency unit.

use vstd::prelude::*;

verus! {

/// The number of days that the revenue window keeps.
pub const REVENUE_WINDOW: usize = 30;

/// The number of most recent days that the daily average looks at.
pub const RECENT_DAYS: usize = 7;

/// Counters and samples of the business so far.
#[derive(Debug)]
pub struct BusinessAnalytics {
    pub total_revenue: u32,
    pub total_purchases: u32,
    pub orders_completed: u32,
    pub orders_expired: u32,
    pub best_day_revenue: u32,
    pub cards_sold: u32,
    pub cards_expired: u32,
    /// Revenue per day, oldest first; the last entry is today.
    pub daily_revenues: Vec<u32>,
    /// The profit margin of each sale with revenue, in basis points.
    pub profit_margins: Vec<i64>,
}

/// `a / b` rounded towards zero.
pub open spec fn truncated_div(a: int, b: int) -> int
    recommends
        b > 0,
{
    if a >= 0 {
        a / b
    } else {
        -((-a) / b)
    }
}

/// The profit margin of a sale in basis points: profit over revenue, times
/// ten thousand, rounded towards zero.
pub open spec fn margin_basis_points(revenue: u32, cost: u32) -> int
    recommends
        revenue > 0,
{
    truncated_div((revenue as int - cost as int) * 10_000, revenue as int)
}

/// The sum of a sequence of margins.
pub open spec fn margin_sum(s: Seq<i64>) -> int
    decreases s.len(),
{
    if s.len() == 0 {
        0
    } else {
        margin_sum(s.drop_last()) + s.last()
    }
}

/// The sum of a sequence of revenues.
pub open spec fn revenue_sum(s: Seq<u32>) -> nat
    decreases s.len(),
{
    if s.len() == 0 {
        0
    } else {
        revenue_sum(s.drop_last()) + s.last() as nat
    }
}

/// The last `k` entries of a sequence of revenues.
pub open spec fn recent(s: Seq<u32>, k: int) -> Seq<u32>
    recommends
        0 <= k <= s.len(),
{
    s.subrange(s.len() - k, s.len() as int)
}

/// The revenue window after a new day began: a zero appended, and the
/// oldest day dropped where that makes more than thirty.
pub open spec fn with_new_day(s: Seq<u32>) -> Seq<u32> {
    if s.len() + 1 > 30 {
        s.push(0).remove(0)
    } else {
        s.push(0)
    }
}

/// Whether `after` is `before` with a sale recorded: revenue, one more
/// order and the cards sold added to their counters, the sale's margin
/// appended where there is revenue, the revenue added to today's, and the
/// best day raised to today where today is better.
pub open spec fn recorded_sale(
    before: BusinessAnalytics,
    after: BusinessAnalytics,
    revenue: u32,
    cost: u32,
    cards_sold: u32,
) -> bool {
    let days = before.daily_revenues@;
    &&& after.total_revenue == before.total_revenue + revenue
    &&& after.orders_completed == before.orders_completed + 1
    &&& after.cards_sold == before.cards_sold + cards_sold
    &&& after.total_purchases == before.total_purchases
    &&& after.orders_expired == before.orders_expired
    &&& after.cards_expired == before.cards_expired
    &&& after.profit_margins@ == (if revenue > 0 {
        before.profit_margins@.push(margin_basis_points(revenue, cost) as i64)
    } else {
        before.profit_margins@
    })
    &&& after.daily_revenues@ == (if days.len() > 0 {
        days.update(days.len() - 1, (days.last() + revenue) as u32)
    } else {
        days
    })
    &&& after.best_day_revenue == (if days.len() > 0 && days.last() + revenue > before.best_day_revenue {
        (days.last() + revenue) as u32
    } else {
        before.best_day_revenue
    })
}

impl BusinessAnalytics {
    /// Whether the revenue window holds between one and thirty days.
    pub open spec fn wf(&self) -> bool {
        1 <= self.daily_revenues@.len() <= 30
    }

    /// Whether a sale of `cards_sold` cards for `revenue` can be recorded
    /// without a counter passing the largest 32-bit number.
    pub open spec fn sale_fits(&self, revenue: u32, cards_sold: u32) -> bool {
        &&& self.total_revenue + revenue <= u32::MAX
        &&& self.orders_completed + 1 <= u32::MAX
        &&& self.cards_sold + cards_sold <= u32::MAX
        &&& self.daily_revenues@.len() > 0 ==> self.daily_revenues@.last() + revenue <= u32::MAX
    }

    /// The average profit margin in basis points: zero without samples.
    pub open spec fn spec_average_profit_margin(&self) -> int {
        if self.profit_margins@.len() == 0 {
            0
        } else {
            truncated_div(margin_sum(self.profit_margins@), self.profit_margins@.len() as int)
        }
    }

    /// The average revenue of the last seven days (of all days, where there
    /// are fewer), in hundredths; zero while there is at most one day.
    pub open spec fn spec_recent_daily_average(&self) -> nat {
        let days = self.daily_revenues@;
        if days.len() <= 1 {
            0
        } else {
            let k: int = if days.len() < 7 {
                days.len() as int
            } else {
                7
            };
            revenue_sum(recent(days, k)) * 100 / (k as nat)
        }
    }

    /// Analytics at the start of a game: all counters zero, and a first day
    /// without revenue.
    pub fn new() -> (a: BusinessAnalytics)
        ensures
            a.total_revenue == 0,
            a.total_purchases == 0,
            a.orders_completed == 0,
            a.orders_expired == 0,
            a.best_day_revenue == 0,
            a.cards_sold == 0,
            a.cards_expired == 0,
            a.daily_revenues@ == seq![0u32],
            a.profit_margins@ == Seq::<i64>::empty(),
            a.wf(),
    {
        let mut daily_revenues: Vec<u32> = Vec::new();
        daily_revenues.push(0);
        assert(daily_revenues@ =~= seq![0u32]);
        BusinessAnalytics {
            total_revenue: 0,
            total_purchases: 0,
            orders_completed: 0,
            orders_expired: 0,
            best_day_revenue: 0,
            cards_sold: 0,
            cards_expired: 0,
            daily_revenues,
            profit_margins: Vec::new(),
        }
    }

    /// Whether the revenue window holds between one and thirty days.
    pub fn is_valid(&self) -> (valid: bool)
        ensures
            valid == self.wf(),
    {
        1 <= self.daily_revenues.len() && self.daily_revenues.len() <= REVENUE_WINDOW
    }

    /// Adds a purchase to the money spent.
    pub fn record_purchase(&mut self, amount: u32)
        requires
            old(self).total_purchases + amount <= u32::MAX,
        ensures
            *final(self) == (BusinessAnalytics {
                total_purchases: (old(self).total_purchases + amount) as u32,
                ..*old(self)
            }),
    {
        self.total_purchases = self.total_purchases + amount;
    }

    /// Whether a sale of `cards_sold` cards for `revenue` can be recorded.
    pub fn can_record_sale(&self, revenue: u32, cards_sold: u32) -> (fits: bool)
        ensures
            fits == self.sale_fits(revenue, cards_sold),
    {
        let n = self.daily_revenues.len();
        self.total_revenue <= u32::MAX - revenue && self.orders_completed < u32::MAX && self.cards_sold
            <= u32::MAX - cards_sold && (n == 0 || self.daily_revenues[n - 1] <= u32::MAX - revenue)
    }

    /// Records a completed sale: revenue, one more order, the cards sold,
    /// the sale's margin where there is revenue, and today's revenue with
    /// the best day so far.
    pub fn record_sale(&mut self, revenue: u32, cost: u32, cards_sold: u32)
        requires
            old(self).sale_fits(revenue, cards_sold),
        ensures
            recorded_sale(*old(self), *final(self), revenue, cost, cards_sold),
            old(self).wf() ==> final(self).wf(),
    {
        self.total_revenue = self.total_revenue + revenue;
        self.orders_completed = self.orders_completed + 1;
        self.cards_sold = self.cards_sold + cards_sold;
        if revenue > 0 {
            let margin = profit_margin(revenue, cost);
            self.profit_margins.push(margin);
        }
        let n = self.daily_revenues.len();
        if n > 0 {
            let today: u32 = self.daily_revenues[n - 1] + revenue;
            self.daily_revenues[n - 1] = today;
            if today > self.best_day_revenue {
                self.best_day_revenue = today;
            }
        }
    }

    /// Counts one more expired order.
    pub fn record_expired_order(&mut self)
        requires
            old(self).orders_expired < u32::MAX,
        ensures
            *final(self) == (BusinessAnalytics {
                orders_expired: (old(self).orders_expired + 1) as u32,
                ..*old(self)
            }),
    {
        self.orders_expired = self.orders_expired + 1;
    }

    /// Counts `count` more expired cards.
    pub fn record_expired_cards(&mut self, count: u32)
        requires
            old(self).cards_expired + count <= u32::MAX,
        ensures
            *final(self) == (BusinessAnalytics {
                cards_expired: (old(self).cards_expired + count) as u32,
                ..*old(self)
            }),
    {
        self.cards_expired = self.cards_expired + count;
    }

    /// Opens a new day without revenue; the window keeps the last thirty.
    pub fn start_new_day(&mut self)
        ensures
            final(self).daily_revenues@ == with_new_day(old(self).daily_revenues@),
            final(self).total_revenue == old(self).total_revenue,
            final(self).total_purchases == old(self).total_purchases,
            final(self).orders_completed == old(self).orders_completed,
            final(self).orders_expired == old(self).orders_expired,
            final(self).best_day_revenue == old(self).best_day_revenue,
            final(self).cards_sold == old(self).cards_sold,
            final(self).cards_expired == old(self).cards_expired,
            final(self).profit_margins == old(self).profit_margins,
            old(self).daily_revenues@.len() <= 30 ==> final(self).wf(),
    {
        self.daily_revenues.push(0);
        if self.daily_revenues.len() > REVENUE_WINDOW {
            self.daily_revenues.remove(0);
        }
    }

    /// The average profit margin over all sales, in basis points.
    pub fn average_profit_margin(&self) -> (average: i64)
        ensures
            average == self.spec_average_profit_margin(),
    {
        let n = self.profit_margins.len();
        if n == 0 {
            return 0;
        }
        let mut gains: u128 = 0;
        let mut losses: u128 = 0;
        let mut i: usize = 0;
        while i < n
            invariant
                n == self.profit_margins@.len(),
                i <= n,
                gains - losses == margin_sum(self.profit_margins@.take(i as int)),
                gains <= i * 0x7fff_ffff_ffff_ffff,
                losses <= i * 0x8000_0000_0000_0000,
            decreases n - i,
        {
            let m = self.profit_margins[i];
            proof {
                assert(self.profit_margins@.take(i + 1).drop_last() =~= self.profit_margins@.take(i as int));
                lemma_scaled_count(i as int);
            }
            if m >= 0 {
                gains = gains + m as u128;
            } else if m == i64::MIN {
                losses = losses + 0x8000_0000_0000_0000u128;
            } else {
                losses = losses + (-m) as u128;
            }
            i = i + 1;
        }
        assert(self.profit_margins@.take(n as int) =~= self.profit_margins@);
        let count: u128 = n as u128;
        if gains >= losses {
            let q: u128 = (gains - losses) / count;
            proof {
                lemma_quotient_bound((gains - losses) as int, count as int, 0x7fff_ffff_ffff_ffff);
            }
            q as i64
        } else {
            let q: u128 = (losses - gains) / count;
            proof {
                lemma_quotient_bound((losses - gains) as int, count as int, 0x8000_0000_0000_0000);
            }
            if q >= 0x8000_0000_0000_0000u128 {
                i64::MIN
            } else {
                -(q as i64)
            }
        }
    }

    /// The average revenue per day over the last seven days, in hundredths.
    pub fn recent_daily_average(&self) -> (average: u64)
        ensures
            average == self.spec_recent_daily_average(),
    {
        let n = self.daily_revenues.len();
        if n <= 1 {
            return 0;
        }
        let k: usize = if n < RECENT_DAYS {
            n
        } else {
            RECENT_DAYS
        };
        let start: usize = n - k;
        let mut sum: u64 = 0;
        let mut j: usize = start;
        while j < n
            invariant
                n == self.daily_revenues@.len(),
                start <= j <= n,
                start == n - k,
                k <= 7,
                sum == revenue_sum(self.daily_revenues@.subrange(start as int, j as int)),
                sum <= (j - start) * 0xffff_ffff,
            decreases n - j,
        {
            assert(self.daily_revenues@.subrange(start as int, j + 1).drop_last()
                =~= self.daily_revenues@.subrange(start as int, j as int));
            sum = sum + self.daily_revenues[j] as u64;
            j = j + 1;
        }
        sum * 100 / (k as u64)
    }

    /// Revenue less purchases.
    pub fn total_profit(&self) -> (profit: i64)
        ensures
            profit == self.total_revenue - self.total_purchases,
    {
        self.total_revenue as i64 - self.total_purchases as i64
    }
}

/// The profit margin of a sale with revenue, in basis points.
pub fn profit_margin(revenue: u32, cost: u32) -> (margin: i64)
    requires
        revenue > 0,
    ensures
        margin == margin_basis_points(revenue, cost),
{
    if revenue >= cost {
        let gain: u64 = (revenue - cost) as u64;
        assert(gain * 10_000 <= 0xffff_ffff * 10_000) by (nonlinear_arith)
            requires
                gain <= 0xffff_ffff,
        ;
        (gain * 10_000 / revenue as u64) as i64
    } else {
        let loss: u64 = (cost - revenue) as u64;
        assert(loss * 10_000 <= 0xffff_ffff * 10_000) by (nonlinear_arith)
            requires
                loss <= 0xffff_ffff,
        ;
        assert((revenue as int - cost as int) * 10_000 == -(loss * 10_000)) by (nonlinear_arith)
            requires
                loss == cost - revenue,
        ;
        -((loss * 10_000 / revenue as u64) as i64)
    }
}

/// One more sample raises the bounds on the sums by one sample's bound.
proof fn lemma_scaled_count(i: int)
    requires
        0 <= i < 0x1_0000_0000_0000_0000,
    ensures
        (i + 1) * 0x7fff_ffff_ffff_ffff == i * 0x7fff_ffff_ffff_ffff + 0x7fff_ffff_ffff_ffff,
        (i + 1) * 0x8000_0000_0000_0000 == i * 0x8000_0000_0000_0000 + 0x8000_0000_0000_0000,
        (i + 1) * 0x8000_0000_0000_0000 <= 0x1_0000_0000_0000_0000 * 0x8000_0000_0000_0000,
{
    assert((i + 1) * 0x7fff_ffff_ffff_ffff == i * 0x7fff_ffff_ffff_ffff + 0x7fff_ffff_ffff_ffff)
        by (nonlinear_arith);
    assert((i + 1) * 0x8000_0000_0000_0000 == i * 0x8000_0000_0000_0000 + 0x8000_0000_0000_0000)
        by (nonlinear_arith);
    assert((i + 1) * 0x8000_0000_0000_0000 <= 0x1_0000_0000_0000_0000 * 0x8000_0000_0000_0000)
        by (nonlinear_arith)
        requires
            i + 1 <= 0x1_0000_0000_0000_0000,
    ;
}

/// The average of `count` samples, none above `bound`, is not above `bound`.
proof fn lemma_quotient_bound(total: int, count: int, bound: int)
    requires
        0 <= total <= count * bound,
        count >= 1,
        bound >= 0,
    ensures
        0 <= total / count <= bound,
{
    assert(0 <= total / count <= bound) by (nonlinear_arith)
        requires
            0 <= total <= count * bound,
            count >= 1,
            bound >= 0,
    ;
}

} // verus!
