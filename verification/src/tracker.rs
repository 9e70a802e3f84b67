//! The achievement tracker: the catalog with the player's progress, the
//! count of unlocked goals, and the streaks and counters that feed them.

use vstd::prelude::*;
use vstd::string::StringExecFns;
use crate::achievement::{catalog, Achievement, AchievementType};
use crate::activity::{with_entry, ActivityLog};
use crate::inventory::{ledger_cards, retailers_held, InventoryItem, Measure};
use crate::ledger::{count_retailers, sum_ledger};
use crate::market::Season;
use crate::text::{decimal, u64_to_string};

verus! {

/// The catalog with the player's progress, and the counters behind it.
#[derive(Debug)]
pub struct AchievementTracker {
    pub achievements: Vec<Achievement>,
    /// How many goals are unlocked.
    pub total_unlocked: u32,
    /// The name of the goal unlocked last, until it is collected.
    pub recent_unlock: Option<String>,
    pub consecutive_perfect_days: u32,
    pub consecutive_efficiency_days: u32,
    pub orders_today: u32,
    pub favorable_market_purchases: u32,
    pub seasonal_winter_profit: i32,
    /// The seasons seen so far, each once.
    pub seasons_survived: Vec<Season>,
    pub events_survived: u32,
}

/// The part of the state that a progress check reads and writes: the
/// goals, the count of unlocked goals, the name unlocked last, and the
/// activity log.
pub struct Unlocks {
    pub achievements: Seq<Achievement>,
    pub total_unlocked: int,
    pub recent_unlock: Option<Seq<char>>,
    pub log: Seq<Seq<char>>,
}

/// The position of the first goal of kind `t` that is still locked, or the
/// length of the list where there is none.
pub open spec fn first_locked(s: Seq<Achievement>, t: AchievementType) -> int
    decreases s.len(),
{
    if s.len() == 0 {
        0
    } else if s[0].achievement_type == t && !s[0].unlocked {
        0
    } else {
        1 + first_locked(s.skip(1), t)
    }
}

/// The number of unlocked goals.
pub open spec fn unlocked_count(s: Seq<Achievement>) -> int
    decreases s.len(),
{
    if s.len() == 0 {
        0
    } else {
        (if s[0].unlocked {
            1int
        } else {
            0int
        }) + unlocked_count(s.skip(1))
    }
}

/// The rewards of the unlocked goals, summed.
pub open spec fn unlocked_rewards(s: Seq<Achievement>) -> int
    decreases s.len(),
{
    if s.len() == 0 {
        0
    } else {
        (if s[0].unlocked {
            s[0].reward_cash as int
        } else {
            0int
        }) + unlocked_rewards(s.skip(1))
    }
}

/// The log line for a goal that was unlocked.
pub open spec fn unlocked_line(name: Seq<char>, reward: u32) -> Seq<char> {
    "🏆 Achievement Unlocked: "@ + name + " (+$"@ + decimal(reward as nat) + ")"@
}

/// The goal with its progress raised to `progress` where that is higher.
pub open spec fn raised(a: Achievement, progress: u32) -> Achievement {
    Achievement {
        progress: if progress > a.progress {
            progress
        } else {
            a.progress
        },
        ..a
    }
}

/// A progress check for kind `t`: the first locked goal of that kind has its
/// progress raised to `progress` where that is higher; where `progress`
/// meets its target it is unlocked on `day`, counted, named as the last
/// unlocked and logged with its reward. Without such a goal nothing changes.
pub open spec fn check_step(u: Unlocks, t: AchievementType, progress: u32, day: u32) -> Unlocks {
    let at = first_locked(u.achievements, t);
    if at >= u.achievements.len() {
        u
    } else {
        let a = u.achievements[at];
        if progress >= a.target {
            Unlocks {
                achievements: u.achievements.update(at, raised(a, progress).spec_unlock(day)),
                total_unlocked: u.total_unlocked + 1,
                recent_unlock: Some(a.name@),
                log: with_entry(u.log, unlocked_line(a.name@, a.reward_cash)),
            }
        } else {
            Unlocks { achievements: u.achievements.update(at, raised(a, progress)), ..u }
        }
    }
}

/// An unlock without a progress report or a log line: the first locked goal
/// of kind `t` is unlocked on `day`, counted and named as the last unlocked.
pub open spec fn quiet_unlock(u: Unlocks, t: AchievementType, day: u32) -> Unlocks {
    let at = first_locked(u.achievements, t);
    if at >= u.achievements.len() {
        u
    } else {
        let a = u.achievements[at];
        Unlocks {
            achievements: u.achievements.update(at, a.spec_unlock(day)),
            total_unlocked: u.total_unlocked + 1,
            recent_unlock: Some(a.name@),
            log: u.log,
        }
    }
}

/// The checks of the three cash goals against the cash at hand.
pub open spec fn cash_checks(u: Unlocks, cash: u32, day: u32) -> Unlocks {
    check_step(
        check_step(check_step(u, AchievementType::Entrepreneur, cash, day), AchievementType::BusinessMogul, cash, day),
        AchievementType::Millionaire,
        cash,
        day,
    )
}

/// The checks of the four order-count goals against the orders completed,
/// and of the reputation goal against the reputation.
pub open spec fn order_checks(u: Unlocks, total_orders: u32, reputation: u8, day: u32) -> Unlocks {
    check_step(
        check_step(
            check_step(
                check_step(
                    check_step(u, AchievementType::FirstSale, total_orders, day),
                    AchievementType::EarlyBird,
                    total_orders,
                    day,
                ),
                AchievementType::CustomerFavorite,
                total_orders,
                day,
            ),
            AchievementType::TrustedSeller,
            total_orders,
            day,
        ),
        AchievementType::LegendaryStatus,
        reputation as u32,
        day,
    )
}

/// The checks of the collector goal against the number of cards held, and
/// of the portfolio goal against the number of retailers held.
pub open spec fn inventory_checks(u: Unlocks, inventory: Seq<InventoryItem>, day: u32) -> Unlocks {
    check_step(
        check_step(u, AchievementType::Collector, ledger_cards(inventory) as u32, day),
        AchievementType::DiversifiedPortfolio,
        retailers_held(inventory).len() as u32,
        day,
    )
}

/// The checks of the veteran goal against the number of seasons seen, and
/// in winter, with a winter profit of 5000 or more, of the winter goal
/// against that profit.
pub open spec fn seasonal_checks(u: Unlocks, seen: Seq<Season>, season: Season, winter_profit: i32, day: u32) -> Unlocks {
    let veteran = check_step(u, AchievementType::SeasonVeteran, seen.len() as u32, day);
    if season == Season::Winter && winter_profit >= 5000 {
        check_step(veteran, AchievementType::WinterWinner, winter_profit as u32, day)
    } else {
        veteran
    }
}

/// The first locked goal of a kind is of that kind and locked, and no
/// earlier goal is.
pub proof fn lemma_first_locked(s: Seq<Achievement>, t: AchievementType)
    ensures
        0 <= first_locked(s, t) <= s.len(),
        first_locked(s, t) < s.len() ==> s[first_locked(s, t)].achievement_type == t && !s[first_locked(
            s,
            t,
        )].unlocked,
        forall|j: int|
            0 <= j < first_locked(s, t) ==> !((#[trigger] s[j]).achievement_type == t && !s[j].unlocked),
    decreases s.len(),
{
    if s.len() > 0 && !(s[0].achievement_type == t && !s[0].unlocked) {
        let rest = s.skip(1);
        lemma_first_locked(rest, t);
        assert forall|j: int| 0 <= j < first_locked(s, t) implies !((#[trigger] s[j]).achievement_type == t
            && !s[j].unlocked) by {
            if j > 0 {
                assert(s[j] == rest[j - 1]);
            }
        }
    }
}

/// Replacing a goal changes the count of unlocked goals, and the sum of
/// their rewards, by the difference between the two goals.
pub proof fn lemma_unlocked_update(s: Seq<Achievement>, i: int, a: Achievement)
    requires
        0 <= i < s.len(),
    ensures
        unlocked_count(s.update(i, a)) + (if s[i].unlocked {
            1int
        } else {
            0int
        }) == unlocked_count(s) + (if a.unlocked {
            1int
        } else {
            0int
        }),
        unlocked_rewards(s.update(i, a)) + (if s[i].unlocked {
            s[i].reward_cash as int
        } else {
            0int
        }) == unlocked_rewards(s) + (if a.unlocked {
            a.reward_cash as int
        } else {
            0int
        }),
    decreases s.len(),
{
    if i == 0 {
        assert(s.update(i, a).skip(1) =~= s.skip(1));
    } else {
        assert(s.update(i, a).skip(1) =~= s.skip(1).update(i - 1, a));
        lemma_unlocked_update(s.skip(1), i - 1, a);
    }
}

/// There are no more unlocked goals than goals, fewer where one is locked,
/// and their rewards sum to less than the goals times 2^32.
pub proof fn lemma_unlocked_bounds(s: Seq<Achievement>)
    ensures
        0 <= unlocked_count(s) <= s.len(),
        0 <= unlocked_rewards(s) <= s.len() * 0xffff_ffff,
        (exists|i: int| 0 <= i < s.len() && !(#[trigger] s[i]).unlocked) ==> unlocked_count(s) < s.len(),
    decreases s.len(),
{
    if s.len() > 0 {
        let rest = s.skip(1);
        lemma_unlocked_bounds(rest);
        assert(s.len() * 0xffff_ffff == rest.len() * 0xffff_ffff + 0xffff_ffff) by (nonlinear_arith)
            requires
                s.len() == rest.len() + 1,
        ;
        if exists|i: int| 0 <= i < s.len() && !(#[trigger] s[i]).unlocked {
            let i = choose|i: int| 0 <= i < s.len() && !(#[trigger] s[i]).unlocked;
            if i > 0 {
                assert(!rest[i - 1].unlocked);
            }
        }
    }
}

impl AchievementTracker {
    /// The part of the state that a progress check reads and writes, beside
    /// the given log.
    pub open spec fn unlocks(&self, log: Seq<Seq<char>>) -> Unlocks {
        Unlocks {
            achievements: self.achievements@,
            total_unlocked: self.total_unlocked as int,
            recent_unlock: match self.recent_unlock {
                Some(name) => Some(name@),
                None => None,
            },
            log,
        }
    }

    /// Whether the counters and streaks of two trackers agree.
    pub open spec fn same_counters(&self, other: &AchievementTracker) -> bool {
        &&& self.consecutive_perfect_days == other.consecutive_perfect_days
        &&& self.consecutive_efficiency_days == other.consecutive_efficiency_days
        &&& self.orders_today == other.orders_today
        &&& self.favorable_market_purchases == other.favorable_market_purchases
        &&& self.seasonal_winter_profit == other.seasonal_winter_profit
        &&& self.seasons_survived@ == other.seasons_survived@
        &&& self.events_survived == other.events_survived
    }

    /// A well-formed tracker counts exactly its unlocked goals, holds fewer
    /// than 2^32 goals, and has seen no season twice.
    pub open spec fn wf(&self) -> bool {
        &&& self.total_unlocked == unlocked_count(self.achievements@)
        &&& self.achievements@.len() <= u32::MAX
        &&& self.seasons_survived@.no_duplicates()
    }

    /// Whether the goals are those of the catalog, untouched.
    pub open spec fn is_fresh_catalog(s: Seq<Achievement>) -> bool {
        &&& s.len() == 18
        &&& forall|i: int| 0 <= i < 18 ==> (#[trigger] s[i])@ == catalog(i)
    }

    /// Checks progress for one kind of goal.
    pub fn check_and_unlock(
        &mut self,
        achievement_type: &AchievementType,
        progress: u32,
        day: u32,
        activities: &mut ActivityLog,
    )
        requires
            old(self).wf(),
        ensures
            final(self).unlocks(final(activities)@) == check_step(
                old(self).unlocks(old(activities)@),
                *achievement_type,
                progress,
                day,
            ),
            final(self).same_counters(old(self)),
            final(self).wf(),
            old(activities).wf() ==> final(activities).wf(),
    {
        let ghost before = self.achievements@;
        let t = *achievement_type;
        let mut i: usize = 0;
        proof {
            assert(before.skip(0) =~= before);
            lemma_first_locked(before, t);
        }
        while i < self.achievements.len() && !(self.achievements[i].achievement_type == t
            && !self.achievements[i].unlocked)
            invariant
                self.achievements@ == before,
                i <= before.len(),
                first_locked(before, t) == i + first_locked(before.skip(i as int), t),
            decreases before.len() - i,
        {
            proof {
                assert(before.skip(i as int)[0] == before[i as int]);
                assert(before.skip(i as int).skip(1) =~= before.skip(i + 1));
            }
            i = i + 1;
        }
        if i < self.achievements.len() {
            proof {
                assert(before.skip(i as int)[0] == before[i as int]);
                assert(first_locked(before, t) == i);
                lemma_unlocked_bounds(before);
            }
            if progress > self.achievements[i].progress {
                self.achievements[i].progress = progress;
            }
            assert(self.achievements@ =~= before.update(i as int, raised(before[i as int], progress)));
            proof {
                lemma_unlocked_update(before, i as int, raised(before[i as int], progress));
            }
            if progress >= self.achievements[i].target {
                self.achievements[i].unlocked = true;
                self.achievements[i].unlock_date = Some(day);
                assert(self.achievements@ =~= before.update(
                    i as int,
                    raised(before[i as int], progress).spec_unlock(day),
                ));
                proof {
                    lemma_unlocked_update(before, i as int, raised(before[i as int], progress).spec_unlock(day));
                }
                self.total_unlocked = self.total_unlocked + 1;
                let name = self.achievements[i].name.clone();
                let mut line = String::from_str("🏆 Achievement Unlocked: ");
                line.append(name.as_str());
                line.append(" (+$");
                let reward = u64_to_string(self.achievements[i].reward_cash as u64);
                line.append(reward.as_str());
                line.append(")");
                activities.record(line);
                self.recent_unlock = Some(name);
            }
        }
    }
}

/// The goals in list order that are unlocked, or, for `in_progress`, those
/// that are locked with some progress.
pub open spec fn selected(s: Seq<Achievement>, in_progress: bool) -> Seq<Achievement>
    decreases s.len(),
{
    if s.len() == 0 {
        s
    } else {
        let a = s.last();
        let chosen = if in_progress {
            !a.unlocked && a.progress > 0
        } else {
            a.unlocked
        };
        if chosen {
            selected(s.drop_last(), in_progress).push(a)
        } else {
            selected(s.drop_last(), in_progress)
        }
    }
}

/// The seasons seen after `season` was met: it joins the list unless it is
/// there already.
pub open spec fn with_season(seen: Seq<Season>, season: Season) -> Seq<Season> {
    if seen.contains(season) {
        seen
    } else {
        seen.push(season)
    }
}

/// The streak of perfect days after a day with the given completions and
/// expirations: one longer after a day with completions and without
/// expirations, else broken.
pub open spec fn next_perfect_streak(streak: u32, completed_today: u32, expired_today: u32) -> int {
    if expired_today == 0 && completed_today > 0 {
        streak + 1
    } else {
        0
    }
}

/// The streak of efficient days, given all orders completed and expired so
/// far: one longer while at least nine in ten were completed, broken
/// below that, and unchanged before the first order.
pub open spec fn next_efficiency_streak(streak: u32, completed: u32, expired: u32) -> int {
    if completed as int + expired as int == 0 {
        streak as int
    } else if completed as int * 10 >= (completed as int + expired as int) * 9 {
        streak + 1
    } else {
        0
    }
}

/// A list of seasons without repetition holds at most four.
pub proof fn lemma_seasons_bound(seen: Seq<Season>)
    requires
        seen.no_duplicates(),
    ensures
        seen.len() <= 4,
{
    seen.unique_seq_to_set();
    let all = Set::<Season>::empty().insert(Season::Spring).insert(Season::Summer).insert(Season::Fall).insert(
        Season::Winter,
    );
    assert(seen.to_set().subset_of(all)) by {
        assert forall|x: Season| seen.to_set().contains(x) implies all.contains(x) by {
            match x {
                Season::Spring => {},
                Season::Summer => {},
                Season::Fall => {},
                Season::Winter => {},
            }
        }
    }
    vstd::set_lib::lemma_len_subset(seen.to_set(), all);
}

impl AchievementTracker {
    /// A tracker at the start of a game: the catalog untouched, every
    /// counter zero.
    pub fn new() -> (tracker: AchievementTracker)
        ensures
            AchievementTracker::is_fresh_catalog(tracker.achievements@),
            tracker.total_unlocked == 0,
            tracker.recent_unlock.is_none(),
            tracker.consecutive_perfect_days == 0,
            tracker.consecutive_efficiency_days == 0,
            tracker.orders_today == 0,
            tracker.favorable_market_purchases == 0,
            tracker.seasonal_winter_profit == 0,
            tracker.seasons_survived@ == Seq::<Season>::empty(),
            tracker.events_survived == 0,
            tracker.wf(),
    {
        let mut tracker = AchievementTracker {
            achievements: Vec::new(),
            total_unlocked: 0,
            recent_unlock: None,
            consecutive_perfect_days: 0,
            consecutive_efficiency_days: 0,
            orders_today: 0,
            favorable_market_purchases: 0,
            seasonal_winter_profit: 0,
            seasons_survived: Vec::new(),
            events_survived: 0,
        };
        tracker.initialize_achievements();
        proof {
            lemma_fresh_catalog_locked(tracker.achievements@);
        }
        tracker
    }

    /// Replaces the goals by the untouched catalog.
    pub fn initialize_achievements(&mut self)
        ensures
            AchievementTracker::is_fresh_catalog(final(self).achievements@),
            final(self).total_unlocked == old(self).total_unlocked,
            final(self).recent_unlock == old(self).recent_unlock,
            final(self).same_counters(old(self)),
    {
        let mut goals: Vec<Achievement> = Vec::new();
        goals.push(
            Achievement::new(AchievementType::FirstSale, "First Sale", "Complete your first customer order", 1, 100),
        );
        goals.push(
            Achievement::new(AchievementType::EarlyBird, "Early Bird", "Complete your first 10 orders", 10, 500),
        );
        goals.push(
            Achievement::new(AchievementType::Entrepreneur, "Entrepreneur", "Accumulate $10,000 in cash", 10000, 1000),
        );
        goals.push(
            Achievement::new(
                AchievementType::BusinessMogul,
                "Business Mogul",
                "Accumulate $50,000 in cash",
                50000,
                5000,
            ),
        );
        goals.push(
            Achievement::new(
                AchievementType::Millionaire,
                "Millionaire",
                "Accumulate $1,000,000 in cash",
                1000000,
                50000,
            ),
        );
        goals.push(
            Achievement::new(
                AchievementType::PerfectWeek,
                "Perfect Week",
                "7 consecutive days with 100% order completion",
                7,
                2000,
            ),
        );
        goals.push(
            Achievement::new(AchievementType::SpeedDemon, "Speed Demon", "Fulfill 5 orders in a single day", 5, 1500),
        );
        goals.push(
            Achievement::new(
                AchievementType::Efficiency,
                "Efficiency Expert",
                "Maintain 90%+ success rate for 30 days",
                30,
                3000,
            ),
        );
        goals.push(
            Achievement::new(
                AchievementType::MarketMaster,
                "Market Master",
                "Make purchases during 5 favorable market events",
                5,
                2500,
            ),
        );
        goals.push(
            Achievement::new(
                AchievementType::LegendaryStatus,
                "Legendary Status",
                "Reach maximum 5-star reputation",
                5,
                2000,
            ),
        );
        goals.push(
            Achievement::new(
                AchievementType::CustomerFavorite,
                "Customer Favorite",
                "Complete 100 customer orders",
                100,
                3000,
            ),
        );
        goals.push(
            Achievement::new(
                AchievementType::TrustedSeller,
                "Trusted Seller",
                "Complete 500 customer orders",
                500,
                10000,
            ),
        );
        goals.push(
            Achievement::new(
                AchievementType::WinterWinner,
                "Winter Winner",
                "Earn $5,000 profit during Winter season",
                5000,
                2000,
            ),
        );
        goals.push(
            Achievement::new(AchievementType::SeasonVeteran, "Season Veteran", "Experience all 4 seasons", 4, 3000),
        );
        goals.push(
            Achievement::new(AchievementType::EventSurvivor, "Event Survivor", "Survive 10 market events", 10, 2500),
        );
        goals.push(
            Achievement::new(
                AchievementType::Collector,
                "Collector",
                "Own 100+ gift cards simultaneously",
                100,
                2000,
            ),
        );
        goals.push(
            Achievement::new(
                AchievementType::DiversifiedPortfolio,
                "Diversified Portfolio",
                "Own cards from all 5 retailers",
                5,
                1000,
            ),
        );
        goals.push(
            Achievement::new(
                AchievementType::QuickTurnaround,
                "Quick Turnaround",
                "Sell inventory within 3 days of purchase",
                1,
                1500,
            ),
        );
        self.achievements = goals;
    }

    /// Checks the three cash goals against the cash at hand.
    pub fn check_cash_achievements(&mut self, cash: u32, day: u32, activities: &mut ActivityLog)
        requires
            old(self).wf(),
        ensures
            final(self).unlocks(final(activities)@) == cash_checks(old(self).unlocks(old(activities)@), cash, day),
            final(self).same_counters(old(self)),
            final(self).wf(),
            old(activities).wf() ==> final(activities).wf(),
    {
        self.check_and_unlock(&AchievementType::Entrepreneur, cash, day, activities);
        self.check_and_unlock(&AchievementType::BusinessMogul, cash, day, activities);
        self.check_and_unlock(&AchievementType::Millionaire, cash, day, activities);
    }

    /// Checks the four order-count goals against the orders completed, and
    /// the reputation goal against the reputation.
    pub fn check_order_achievements(
        &mut self,
        total_orders: u32,
        reputation: u8,
        day: u32,
        activities: &mut ActivityLog,
    )
        requires
            old(self).wf(),
        ensures
            final(self).unlocks(final(activities)@) == order_checks(
                old(self).unlocks(old(activities)@),
                total_orders,
                reputation,
                day,
            ),
            final(self).same_counters(old(self)),
            final(self).wf(),
            old(activities).wf() ==> final(activities).wf(),
    {
        self.check_and_unlock(&AchievementType::FirstSale, total_orders, day, activities);
        self.check_and_unlock(&AchievementType::EarlyBird, total_orders, day, activities);
        self.check_and_unlock(&AchievementType::CustomerFavorite, total_orders, day, activities);
        self.check_and_unlock(&AchievementType::TrustedSeller, total_orders, day, activities);
        self.check_and_unlock(&AchievementType::LegendaryStatus, reputation as u32, day, activities);
    }

    /// Checks the collector goal against the number of cards held, and the
    /// portfolio goal against the number of retailers held.
    pub fn check_inventory_achievements(
        &mut self,
        inventory: &Vec<InventoryItem>,
        day: u32,
        activities: &mut ActivityLog,
    )
        requires
            old(self).wf(),
            ledger_cards(inventory@) <= u32::MAX,
        ensures
            final(self).unlocks(final(activities)@) == inventory_checks(
                old(self).unlocks(old(activities)@),
                inventory@,
                day,
            ),
            final(self).same_counters(old(self)),
            final(self).wf(),
            old(activities).wf() ==> final(activities).wf(),
    {
        let total_cards = sum_ledger(inventory, Measure::Cards) as u32;
        self.check_and_unlock(&AchievementType::Collector, total_cards, day, activities);
        let retailers = count_retailers(inventory);
        self.check_and_unlock(&AchievementType::DiversifiedPortfolio, retailers, day, activities);
    }

    /// Notes the season as seen, checks the veteran goal against the number
    /// of seasons seen, and in winter, with a winter profit of 5000 or
    /// more, the winter goal against that profit.
    pub fn check_seasonal_achievements(
        &mut self,
        season: &Season,
        winter_profit: i32,
        day: u32,
        activities: &mut ActivityLog,
    )
        requires
            old(self).wf(),
        ensures
            final(self).seasons_survived@ == with_season(old(self).seasons_survived@, *season),
            final(self).unlocks(final(activities)@) == seasonal_checks(
                old(self).unlocks(old(activities)@),
                with_season(old(self).seasons_survived@, *season),
                *season,
                winter_profit,
                day,
            ),
            final(self).consecutive_perfect_days == old(self).consecutive_perfect_days,
            final(self).consecutive_efficiency_days == old(self).consecutive_efficiency_days,
            final(self).orders_today == old(self).orders_today,
            final(self).favorable_market_purchases == old(self).favorable_market_purchases,
            final(self).seasonal_winter_profit == old(self).seasonal_winter_profit,
            final(self).events_survived == old(self).events_survived,
            final(self).wf(),
            old(activities).wf() ==> final(activities).wf(),
    {
        let mut found = false;
        let mut i: usize = 0;
        while i < self.seasons_survived.len()
            invariant
                i <= self.seasons_survived@.len(),
                found <==> exists|j: int| 0 <= j < i && #[trigger] self.seasons_survived@[j] == *season,
                *self == *old(self),
            decreases self.seasons_survived@.len() - i,
        {
            if self.seasons_survived[i] == *season {
                found = true;
            }
            i = i + 1;
        }
        if !found {
            self.seasons_survived.push(*season);
            assert(self.seasons_survived@.no_duplicates()) by {
                let now = self.seasons_survived@;
                let was = old(self).seasons_survived@;
                assert forall|a: int, b: int| 0 <= a < now.len() && 0 <= b < now.len() && a != b implies now[a]
                    != now[b] by {
                    if a < was.len() {
                        assert(was[a] == now[a]);
                    }
                    if b < was.len() {
                        assert(was[b] == now[b]);
                    }
                }
            }
        }
        proof {
            lemma_seasons_bound(self.seasons_survived@);
        }
        let seen_count = self.seasons_survived.len() as u32;
        self.check_and_unlock(&AchievementType::SeasonVeteran, seen_count, day, activities);
        let winter = match season {
            Season::Winter => true,
            _ => false,
        };
        if winter && winter_profit >= 5000 {
            self.check_and_unlock(&AchievementType::WinterWinner, winter_profit as u32, day, activities);
        }
    }
}

/// The untouched catalog has no unlocked goal.
pub proof fn lemma_fresh_catalog_locked(s: Seq<Achievement>)
    requires
        AchievementTracker::is_fresh_catalog(s),
    ensures
        unlocked_count(s) == 0,
        unlocked_rewards(s) == 0,
{
    lemma_all_locked(s);
    assert forall|i: int| 0 <= i < s.len() implies !(#[trigger] s[i]).unlocked by {
        assert(s[i]@ == catalog(i));
    }
}

/// A list of locked goals has no unlocked goal.
pub proof fn lemma_all_locked(s: Seq<Achievement>)
    ensures
        (forall|i: int| 0 <= i < s.len() ==> !(#[trigger] s[i]).unlocked) ==> unlocked_count(s) == 0
            && unlocked_rewards(s) == 0,
    decreases s.len(),
{
    if s.len() > 0 {
        lemma_all_locked(s.skip(1));
        if forall|i: int| 0 <= i < s.len() ==> !(#[trigger] s[i]).unlocked {
            assert forall|i: int| 0 <= i < s.skip(1).len() implies !(#[trigger] s.skip(1)[i]).unlocked by {
                assert(s.skip(1)[i] == s[i + 1]);
            }
        }
    }
}

} // verus!
