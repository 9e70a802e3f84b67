//! Achievements: a fixed catalog of goals, each with a target, a progress
//! that never falls and a reward, unlocked once and for all.

use vstd::prelude::*;
use vstd::string::StringExecFns;

verus! {

/// The kinds of achievement.
#[derive(Clone, Copy, Debug, PartialEq, Eq, Structural, Hash)]
pub enum AchievementType {
    FirstSale,
    EarlyBird,
    Entrepreneur,
    BusinessMogul,
    Millionaire,
    PerfectWeek,
    SpeedDemon,
    Efficiency,
    MarketMaster,
    LegendaryStatus,
    CustomerFavorite,
    TrustedSeller,
    WinterWinner,
    SeasonVeteran,
    EventSurvivor,
    Collector,
    DiversifiedPortfolio,
    QuickTurnaround,
}

/// A goal and how far the player has come towards it.
#[derive(Clone, Debug)]
pub struct Achievement {
    pub achievement_type: AchievementType,
    pub name: String,
    pub description: String,
    pub unlocked: bool,
    /// The day on which it was unlocked.
    pub unlock_date: Option<u32>,
    pub progress: u32,
    pub target: u32,
    pub reward_cash: u32,
}

/// What an achievement holds, with its texts as sequences of characters.
pub struct AchievementView {
    pub achievement_type: AchievementType,
    pub name: Seq<char>,
    pub description: Seq<char>,
    pub unlocked: bool,
    pub unlock_date: Option<u32>,
    pub progress: u32,
    pub target: u32,
    pub reward_cash: u32,
}

impl View for Achievement {
    type V = AchievementView;

    open spec fn view(&self) -> AchievementView {
        AchievementView {
            achievement_type: self.achievement_type,
            name: self.name@,
            description: self.description@,
            unlocked: self.unlocked,
            unlock_date: self.unlock_date,
            progress: self.progress,
            target: self.target,
            reward_cash: self.reward_cash,
        }
    }
}

/// A goal that nobody has worked on yet.
pub open spec fn fresh_achievement(
    achievement_type: AchievementType,
    name: Seq<char>,
    description: Seq<char>,
    target: u32,
    reward: u32,
) -> AchievementView {
    AchievementView {
        achievement_type,
        name,
        description,
        unlocked: false,
        unlock_date: None,
        progress: 0,
        target,
        reward_cash: reward,
    }
}

/// The number of goals in the catalog.
pub const CATALOG_LEN: usize = 18;

/// The goal at position `i` of the catalog, as the game starts.
pub open spec fn catalog(i: int) -> AchievementView {
    if i == 0 {
        fresh_achievement(AchievementType::FirstSale, "First Sale"@, "Complete your first customer order"@, 1, 100)
    } else if i == 1 {
        fresh_achievement(AchievementType::EarlyBird, "Early Bird"@, "Complete your first 10 orders"@, 10, 500)
    } else if i == 2 {
        fresh_achievement(
            AchievementType::Entrepreneur,
            "Entrepreneur"@,
            "Accumulate $10,000 in cash"@,
            10000,
            1000,
        )
    } else if i == 3 {
        fresh_achievement(
            AchievementType::BusinessMogul,
            "Business Mogul"@,
            "Accumulate $50,000 in cash"@,
            50000,
            5000,
        )
    } else if i == 4 {
        fresh_achievement(
            AchievementType::Millionaire,
            "Millionaire"@,
            "Accumulate $1,000,000 in cash"@,
            1000000,
            50000,
        )
    } else if i == 5 {
        fresh_achievement(
            AchievementType::PerfectWeek,
            "Perfect Week"@,
            "7 consecutive days with 100% order completion"@,
            7,
            2000,
        )
    } else if i == 6 {
        fresh_achievement(
            AchievementType::SpeedDemon,
            "Speed Demon"@,
            "Fulfill 5 orders in a single day"@,
            5,
            1500,
        )
    } else if i == 7 {
        fresh_achievement(
            AchievementType::Efficiency,
            "Efficiency Expert"@,
            "Maintain 90%+ success rate for 30 days"@,
            30,
            3000,
        )
    } else if i == 8 {
        fresh_achievement(
            AchievementType::MarketMaster,
            "Market Master"@,
            "Make purchases during 5 favorable market events"@,
            5,
            2500,
        )
    } else if i == 9 {
        fresh_achievement(
            AchievementType::LegendaryStatus,
            "Legendary Status"@,
            "Reach maximum 5-star reputation"@,
            5,
            2000,
        )
    } else if i == 10 {
        fresh_achievement(
            AchievementType::CustomerFavorite,
            "Customer Favorite"@,
            "Complete 100 customer orders"@,
            100,
            3000,
        )
    } else if i == 11 {
        fresh_achievement(
            AchievementType::TrustedSeller,
            "Trusted Seller"@,
            "Complete 500 customer orders"@,
            500,
            10000,
        )
    } else if i == 12 {
        fresh_achievement(
            AchievementType::WinterWinner,
            "Winter Winner"@,
            "Earn $5,000 profit during Winter season"@,
            5000,
            2000,
        )
    } else if i == 13 {
        fresh_achievement(AchievementType::SeasonVeteran, "Season Veteran"@, "Experience all 4 seasons"@, 4, 3000)
    } else if i == 14 {
        fresh_achievement(AchievementType::EventSurvivor, "Event Survivor"@, "Survive 10 market events"@, 10, 2500)
    } else if i == 15 {
        fresh_achievement(
            AchievementType::Collector,
            "Collector"@,
            "Own 100+ gift cards simultaneously"@,
            100,
            2000,
        )
    } else if i == 16 {
        fresh_achievement(
            AchievementType::DiversifiedPortfolio,
            "Diversified Portfolio"@,
            "Own cards from all 5 retailers"@,
            5,
            1000,
        )
    } else {
        fresh_achievement(
            AchievementType::QuickTurnaround,
            "Quick Turnaround"@,
            "Sell inventory within 3 days of purchase"@,
            1,
            1500,
        )
    }
}

impl Achievement {
    /// The goal after `new_progress` was reported: untouched once unlocked;
    /// else its progress raised to the report where that is higher, and
    /// unlocked where the progress then meets the target.
    pub open spec fn spec_update_progress(self, new_progress: u32) -> Achievement {
        if self.unlocked {
            self
        } else {
            let raised = if new_progress > self.progress {
                new_progress
            } else {
                self.progress
            };
            Achievement { progress: raised, unlocked: raised >= self.target, ..self }
        }
    }

    /// The goal after it was unlocked on `day`: untouched where it was
    /// unlocked before.
    pub open spec fn spec_unlock(self, day: u32) -> Achievement {
        if self.unlocked {
            self
        } else {
            Achievement { unlocked: true, unlock_date: Some(day), ..self }
        }
    }

    /// The progress as a share of the target in basis points, at most ten
    /// thousand; zero where the target is zero.
    pub open spec fn spec_progress_percentage(&self) -> nat {
        if self.target == 0 {
            0
        } else if self.progress >= self.target {
            10_000
        } else {
            (self.progress as nat * 10_000) / (self.target as nat)
        }
    }

    /// A goal that nobody has worked on yet.
    pub fn new(achievement_type: AchievementType, name: &str, description: &str, target: u32, reward: u32) -> (a:
        Achievement)
        ensures
            a@ == fresh_achievement(achievement_type, name@, description@, target, reward),
    {
        Achievement {
            achievement_type,
            name: String::from_str(name),
            description: String::from_str(description),
            unlocked: false,
            unlock_date: None,
            progress: 0,
            target,
            reward_cash: reward,
        }
    }

    /// Reports progress. Returns whether this call unlocked the goal.
    pub fn update_progress(&mut self, new_progress: u32) -> (unlocked_now: bool)
        ensures
            *final(self) == old(self).spec_update_progress(new_progress),
            unlocked_now == (!old(self).unlocked && final(self).unlocked),
    {
        if self.unlocked {
            return false;
        }
        if new_progress > self.progress {
            self.progress = new_progress;
        }
        if self.progress >= self.target {
            self.unlocked = true;
            true
        } else {
            false
        }
    }

    /// Unlocks the goal and stamps the day, unless it was unlocked before.
    pub fn unlock(&mut self, day: u32)
        ensures
            *final(self) == old(self).spec_unlock(day),
    {
        if !self.unlocked {
            self.unlocked = true;
            self.unlock_date = Some(day);
        }
    }

    /// The progress as a share of the target, in basis points.
    pub fn progress_percentage(&self) -> (share: u32)
        ensures
            share == self.spec_progress_percentage(),
    {
        if self.target == 0 {
            0
        } else if self.progress >= self.target {
            10_000
        } else {
            let p: u64 = self.progress as u64;
            assert(p * 10_000 <= 0xffff_ffff * 10_000) by (nonlinear_arith)
                requires
                    p <= 0xffff_ffff,
            ;
            let share: u64 = p * 10_000 / (self.target as u64);
            assert(share < 10_000) by (nonlinear_arith)
                requires
                    share as int == (p as int * 10_000) / (self.target as int),
                    0 <= p < self.target,
            ;
            share as u32
        }
    }
}

} // verus!
