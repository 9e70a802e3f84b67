//! The tracker's counters and streaks, the goals that they unlock, and the
//! lists and sums that the tracker reports.

use vstd::prelude::*;
use crate::achievement::{Achievement, AchievementType};
use crate::activity::ActivityLog;
use crate::analytics::BusinessAnalytics;
use crate::multiplier::Multiplier;
use crate::tracker::{
    check_step, first_locked, lemma_first_locked, lemma_seasons_bound, lemma_unlocked_bounds,
    lemma_unlocked_update, next_efficiency_streak, next_perfect_streak, quiet_unlock, selected,
    unlocked_count, unlocked_rewards, AchievementTracker,
};

verus! {

/// The number of orders in a day that unlocks the speed goal.
pub const SPEED_ORDERS: u32 = 5;

/// The number of perfect days in a row that unlocks the perfect-week goal.
pub const PERFECT_DAYS: u32 = 7;

/// The number of efficient days in a row that unlocks the efficiency goal.
pub const EFFICIENT_DAYS: u32 = 30;

/// The largest price multiplier, in hundredths, at which a purchase counts
/// as made in a favorable market.
pub const FAVORABLE_HUNDREDTHS: u32 = 90;

impl AchievementTracker {
    /// Unlocks the first locked goal of a kind, without a log line.
    pub fn unlock_quietly(&mut self, achievement_type: AchievementType, day: u32)
        requires
            old(self).wf(),
        ensures
            forall|log: Seq<Seq<char>>| #[trigger]
                final(self).unlocks(log) == quiet_unlock(old(self).unlocks(log), achievement_type, day),
            final(self).same_counters(old(self)),
            final(self).wf(),
    {
        let ghost before = self.achievements@;
        let t = achievement_type;
        let mut i: usize = 0;
        proof {
            assert(before.skip(0) =~= before);
            lemma_first_locked(before, t);
        }
        while i < self.achievements.len() && !(self.achievements[i].achievement_type == t
            && !self.achievements[i].unlocked)
            invariant
                self.achievements@ == before,
                i <= before.len(),
                first_locked(before, t) == i + first_locked(before.skip(i as int), t),
            decreases before.len() - i,
        {
            proof {
                assert(before.skip(i as int)[0] == before[i as int]);
                assert(before.skip(i as int).skip(1) =~= before.skip(i + 1));
            }
            i = i + 1;
        }
        if i < self.achievements.len() {
            proof {
                assert(before.skip(i as int)[0] == before[i as int]);
                lemma_unlocked_bounds(before);
                lemma_unlocked_update(before, i as int, before[i as int].spec_unlock(day));
            }
            self.achievements[i].unlocked = true;
            self.achievements[i].unlock_date = Some(day);
            assert(self.achievements@ =~= before.update(i as int, before[i as int].spec_unlock(day)));
            self.total_unlocked = self.total_unlocked + 1;
            self.recent_unlock = Some(self.achievements[i].name.clone());
        }
    }

    /// Counts a completed order towards the day; from the fifth order of a
    /// day on, the speed goal is unlocked.
    pub fn record_order_completion(&mut self, day: u32)
        requires
            old(self).wf(),
            old(self).orders_today < u32::MAX,
        ensures
            final(self).orders_today == old(self).orders_today + 1,
            forall|log: Seq<Seq<char>>| #[trigger]
                final(self).unlocks(log) == (if old(self).orders_today + 1 >= 5 {
                    quiet_unlock(old(self).unlocks(log), AchievementType::SpeedDemon, day)
                } else {
                    old(self).unlocks(log)
                }),
            final(self).consecutive_perfect_days == old(self).consecutive_perfect_days,
            final(self).consecutive_efficiency_days == old(self).consecutive_efficiency_days,
            final(self).favorable_market_purchases == old(self).favorable_market_purchases,
            final(self).seasonal_winter_profit == old(self).seasonal_winter_profit,
            final(self).seasons_survived@ == old(self).seasons_survived@,
            final(self).events_survived == old(self).events_survived,
            final(self).wf(),
    {
        self.orders_today = self.orders_today + 1;
        if self.orders_today >= SPEED_ORDERS {
            self.unlock_quietly(AchievementType::SpeedDemon, day);
        }
    }

    /// Counts a purchase made while the price multiplier was 0.9 or less,
    /// and checks the market goal against the count.
    pub fn record_market_purchase(&mut self, price_multiplier: Multiplier, day: u32, activities: &mut ActivityLog)
        requires
            old(self).wf(),
            price_multiplier.billionths <= 900_000_000 ==> old(self).favorable_market_purchases < u32::MAX,
        ensures
            price_multiplier.billionths > 900_000_000 ==> {
                &&& final(self).favorable_market_purchases == old(self).favorable_market_purchases
                &&& final(self).unlocks(final(activities)@) == old(self).unlocks(old(activities)@)
            },
            price_multiplier.billionths <= 900_000_000 ==> {
                &&& final(self).favorable_market_purchases == old(self).favorable_market_purchases + 1
                &&& final(self).unlocks(final(activities)@) == check_step(
                    old(self).unlocks(old(activities)@),
                    AchievementType::MarketMaster,
                    (old(self).favorable_market_purchases + 1) as u32,
                    day,
                )
            },
            final(self).consecutive_perfect_days == old(self).consecutive_perfect_days,
            final(self).consecutive_efficiency_days == old(self).consecutive_efficiency_days,
            final(self).orders_today == old(self).orders_today,
            final(self).seasonal_winter_profit == old(self).seasonal_winter_profit,
            final(self).seasons_survived@ == old(self).seasons_survived@,
            final(self).events_survived == old(self).events_survived,
            final(self).wf(),
            old(activities).wf() ==> final(activities).wf(),
    {
        if !price_multiplier.exceeds_hundredths(FAVORABLE_HUNDREDTHS) {
            self.favorable_market_purchases = self.favorable_market_purchases + 1;
            let count = self.favorable_market_purchases;
            self.check_and_unlock(&AchievementType::MarketMaster, count, day, activities);
        }
    }

    /// Closes a day: the day's order count starts over; the streak of
    /// perfect days grows after a day with completions and without
    /// expirations and else breaks, and a streak of seven unlocks the
    /// perfect-week goal; the streak of efficient days grows while nine in
    /// ten of all orders so far were completed and breaks below that, and a
    /// streak of thirty unlocks the efficiency goal.
    pub fn process_daily_achievements(
        &mut self,
        orders_completed_today: u32,
        orders_expired_today: u32,
        analytics: &BusinessAnalytics,
        day: u32,
    )
        requires
            old(self).wf(),
            next_perfect_streak(old(self).consecutive_perfect_days, orders_completed_today, orders_expired_today)
                <= u32::MAX,
            next_efficiency_streak(
                old(self).consecutive_efficiency_days,
                analytics.orders_completed,
                analytics.orders_expired,
            ) <= u32::MAX,
        ensures
            final(self).orders_today == 0,
            final(self).consecutive_perfect_days == next_perfect_streak(
                old(self).consecutive_perfect_days,
                orders_completed_today,
                orders_expired_today,
            ),
            final(self).consecutive_efficiency_days == next_efficiency_streak(
                old(self).consecutive_efficiency_days,
                analytics.orders_completed,
                analytics.orders_expired,
            ),
            forall|log: Seq<Seq<char>>| #[trigger]
                final(self).unlocks(log) == ({
                    let week = if final(self).consecutive_perfect_days >= 7 {
                        quiet_unlock(old(self).unlocks(log), AchievementType::PerfectWeek, day)
                    } else {
                        old(self).unlocks(log)
                    };
                    if final(self).consecutive_efficiency_days >= 30 {
                        quiet_unlock(week, AchievementType::Efficiency, day)
                    } else {
                        week
                    }
                }),
            final(self).favorable_market_purchases == old(self).favorable_market_purchases,
            final(self).seasonal_winter_profit == old(self).seasonal_winter_profit,
            final(self).seasons_survived@ == old(self).seasons_survived@,
            final(self).events_survived == old(self).events_survived,
            final(self).wf(),
    {
        self.orders_today = 0;
        if orders_expired_today == 0 && orders_completed_today > 0 {
            self.consecutive_perfect_days = self.consecutive_perfect_days + 1;
        } else {
            self.consecutive_perfect_days = 0;
        }
        let ghost counted = *self;
        if self.consecutive_perfect_days >= PERFECT_DAYS {
            self.unlock_quietly(AchievementType::PerfectWeek, day);
        }
        let ghost week = *self;
        proof {
            assert forall|log: Seq<Seq<char>>| #[trigger]
                week.unlocks(log) == (if week.consecutive_perfect_days >= 7 {
                    quiet_unlock(old(self).unlocks(log), AchievementType::PerfectWeek, day)
                } else {
                    old(self).unlocks(log)
                }) by {
                assert(counted.unlocks(log) == old(self).unlocks(log));
            }
        }
        let completed: u64 = analytics.orders_completed as u64;
        let total: u64 = completed + analytics.orders_expired as u64;
        if total > 0 {
            if completed * 10 >= total * 9 {
                self.consecutive_efficiency_days = self.consecutive_efficiency_days + 1;
            } else {
                self.consecutive_efficiency_days = 0;
            }
        }
        let ghost rated = *self;
        if self.consecutive_efficiency_days >= EFFICIENT_DAYS {
            self.unlock_quietly(AchievementType::Efficiency, day);
        }
        proof {
            assert forall|log: Seq<Seq<char>>| #[trigger]
                self.unlocks(log) == (if self.consecutive_efficiency_days >= 30 {
                    quiet_unlock(week.unlocks(log), AchievementType::Efficiency, day)
                } else {
                    week.unlocks(log)
                }) by {
                assert(rated.unlocks(log) == week.unlocks(log));
            }
        }
    }

    /// Counts a market event as survived, and checks the survivor goal
    /// against the count.
    pub fn record_event_survival(&mut self, day: u32, activities: &mut ActivityLog)
        requires
            old(self).wf(),
            old(self).events_survived < u32::MAX,
        ensures
            final(self).events_survived == old(self).events_survived + 1,
            final(self).unlocks(final(activities)@) == check_step(
                old(self).unlocks(old(activities)@),
                AchievementType::EventSurvivor,
                (old(self).events_survived + 1) as u32,
                day,
            ),
            final(self).consecutive_perfect_days == old(self).consecutive_perfect_days,
            final(self).consecutive_efficiency_days == old(self).consecutive_efficiency_days,
            final(self).orders_today == old(self).orders_today,
            final(self).favorable_market_purchases == old(self).favorable_market_purchases,
            final(self).seasonal_winter_profit == old(self).seasonal_winter_profit,
            final(self).seasons_survived@ == old(self).seasons_survived@,
            final(self).wf(),
            old(activities).wf() ==> final(activities).wf(),
    {
        self.events_survived = self.events_survived + 1;
        let count = self.events_survived;
        self.check_and_unlock(&AchievementType::EventSurvivor, count, day, activities);
    }

    /// Hands out the name of the goal unlocked last, once.
    pub fn get_recent_unlock(&mut self) -> (name: Option<String>)
        ensures
            name == old(self).recent_unlock,
            final(self).recent_unlock.is_none(),
            final(self).achievements == old(self).achievements,
            final(self).total_unlocked == old(self).total_unlocked,
            final(self).same_counters(old(self)),
    {
        self.recent_unlock.take()
    }

    /// The unlocked goals, in catalog order.
    pub fn get_unlocked_achievements(&self) -> (goals: Vec<&Achievement>)
        ensures
            goals@.len() == selected(self.achievements@, false).len(),
            forall|i: int| 0 <= i < goals@.len() ==> *(#[trigger] goals@[i]) == selected(self.achievements@, false)[i],
    {
        self.select(false)
    }

    /// The locked goals with some progress, in catalog order.
    pub fn get_in_progress_achievements(&self) -> (goals: Vec<&Achievement>)
        ensures
            goals@.len() == selected(self.achievements@, true).len(),
            forall|i: int| 0 <= i < goals@.len() ==> *(#[trigger] goals@[i]) == selected(self.achievements@, true)[i],
    {
        self.select(true)
    }

    /// The unlocked goals, or, for `in_progress`, the locked goals with some
    /// progress, in catalog order.
    pub fn select(&self, in_progress: bool) -> (goals: Vec<&Achievement>)
        ensures
            goals@.len() == selected(self.achievements@, in_progress).len(),
            forall|i: int|
                0 <= i < goals@.len() ==> *(#[trigger] goals@[i]) == selected(self.achievements@, in_progress)[i],
    {
        let mut goals: Vec<&Achievement> = Vec::new();
        let mut i: usize = 0;
        assert(self.achievements@.take(0) =~= Seq::<Achievement>::empty());
        while i < self.achievements.len()
            invariant
                i <= self.achievements@.len(),
                goals@.len() == selected(self.achievements@.take(i as int), in_progress).len(),
                forall|j: int|
                    0 <= j < goals@.len() ==> *(#[trigger] goals@[j]) == selected(
                        self.achievements@.take(i as int),
                        in_progress,
                    )[j],
            decreases self.achievements@.len() - i,
        {
            assert(self.achievements@.take(i + 1).drop_last() =~= self.achievements@.take(i as int));
            let a = &self.achievements[i];
            let chosen = if in_progress {
                !a.unlocked && a.progress > 0
            } else {
                a.unlocked
            };
            if chosen {
                goals.push(a);
            }
            i = i + 1;
        }
        assert(self.achievements@.take(i as int) =~= self.achievements@);
        goals
    }

    /// Whether the tracker is well formed.
    pub fn is_valid(&self) -> (valid: bool)
        ensures
            valid == self.wf(),
    {
        let ghost s = self.achievements@;
        if self.achievements.len() > 0xffff_ffff {
            return false;
        }
        let mut count: u32 = 0;
        let mut i: usize = 0;
        proof {
            assert(s.skip(0) =~= s);
        }
        while i < self.achievements.len()
            invariant
                s == self.achievements@,
                s.len() <= u32::MAX,
                i <= s.len(),
                count <= i,
                count + unlocked_count(s.skip(i as int)) == unlocked_count(s),
            decreases s.len() - i,
        {
            proof {
                assert(s.skip(i as int).skip(1) =~= s.skip(i + 1));
            }
            if self.achievements[i].unlocked {
                count = count + 1;
            }
            i = i + 1;
        }
        if count != self.total_unlocked {
            return false;
        }
        let ghost seen = self.seasons_survived@;
        if self.seasons_survived.len() > 4 {
            proof {
                if seen.no_duplicates() {
                    lemma_seasons_bound(seen);
                }
            }
            return false;
        }
        let mut a: usize = 0;
        while a < self.seasons_survived.len()
            invariant
                seen == self.seasons_survived@,
                a <= seen.len(),
                forall|x: int, y: int| 0 <= x < a && x < y < seen.len() ==> seen[x] != seen[y],
            decreases seen.len() - a,
        {
            let mut b: usize = a + 1;
            while b < self.seasons_survived.len()
                invariant
                    seen == self.seasons_survived@,
                    a < seen.len(),
                    a < b <= seen.len(),
                    forall|y: int| a < y < b ==> seen[a as int] != seen[y],
                decreases seen.len() - b,
            {
                if self.seasons_survived[a] == self.seasons_survived[b] {
                    return false;
                }
                b = b + 1;
            }
            a = a + 1;
        }
        true
    }

    /// The rewards of all unlocked goals together.
    pub fn calculate_total_rewards(&self) -> (total: u64)
        requires
            self.achievements@.len() <= u32::MAX,
        ensures
            total == unlocked_rewards(self.achievements@),
    {
        let mut total: u64 = 0;
        let mut i: usize = 0;
        let ghost s = self.achievements@;
        proof {
            assert(s.skip(0) =~= s);
            lemma_unlocked_bounds(s);
            assert(s.len() * 0xffff_ffff <= 0xffff_ffff * 0xffff_ffff) by (nonlinear_arith)
                requires
                    s.len() <= 0xffff_ffff,
            ;
        }
        while i < self.achievements.len()
            invariant
                s == self.achievements@,
                i <= s.len(),
                total + unlocked_rewards(s.skip(i as int)) == unlocked_rewards(s),
                unlocked_rewards(s) <= 0xffff_ffff * 0xffff_ffff,
            decreases s.len() - i,
        {
            proof {
                assert(s.skip(i as int).skip(1) =~= s.skip(i + 1));
                lemma_unlocked_bounds(s.skip(i + 1));
            }
            if self.achievements[i].unlocked {
                total = total + self.achievements[i].reward_cash as u64;
            }
            i = i + 1;
        }
        total
    }
}

} // verus!
