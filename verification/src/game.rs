//! The aggregate: account, clock, ledger, order book, analytics, market,
//! achievements and narrative events under one owner, with the account's
//! own rules (cash, reputation) and the read accessors.

use std::collections::VecDeque;
use vstd::prelude::*;
use vstd::string::StringExecFns;
use crate::activity::{with_entry, ActivityLog};
use crate::analytics::BusinessAnalytics;
use crate::event_manager::RandomEventManager;
use crate::inventory::{
    expiring_soon_lots, ledger_cards, ledger_cost, ledger_value, ledger_wf, lemma_money_fits,
    lemma_sum_ends, lemma_sum_step, sum_by, with_purchase, GiftCard, InventoryItem, Measure,
};
use crate::ledger::{add_to_ledger, lemma_purchase_totals, sum_ledger};
use crate::market::MarketConditions;
use crate::order::CustomerOrder;
use crate::random_event::Effect;
use crate::retailer::same_text;
use crate::text::{decimal, two_digit_string, two_digits, u64_to_string};
use crate::tracker::AchievementTracker;

verus! {

/// The whole state of a game.
#[derive(Debug)]
pub struct GameData {
    pub cash: u32,
    /// One to five stars.
    pub reputation: u8,
    pub day: u32,
    pub hour: u8,
    pub minute: u8,
    pub recent_activities: ActivityLog,
    pub inventory: Vec<InventoryItem>,
    pub customer_orders: VecDeque<CustomerOrder>,
    pub next_order_id: u32,
    pub analytics: BusinessAnalytics,
    pub market_conditions: MarketConditions,
    pub achievements: AchievementTracker,
    pub random_events: RandomEventManager,
}

/// The lowest reputation.
pub const MIN_REPUTATION: u8 = 1;

/// The highest reputation.
pub const MAX_REPUTATION: u8 = 5;

/// The log line for a reputation that rose, by reason.
pub open spec fn improved_line(reason: Seq<char>) -> Seq<char> {
    if reason == "order_fulfilled"@ {
        "⭐ Reputation improved for excellent service!"@
    } else if reason == "fast_fulfillment"@ {
        "⭐ Reputation boosted for lightning-fast delivery!"@
    } else {
        "⭐ Reputation improved!"@
    }
}

/// The log line for a reputation that fell, by reason.
pub open spec fn decreased_line(reason: Seq<char>) -> Seq<char> {
    if reason == "order_expired"@ {
        "💔 Reputation damaged - customers disappointed by expired orders"@
    } else if reason == "slow_service"@ {
        "💔 Reputation declined due to slow service"@
    } else {
        "💔 Reputation decreased!"@
    }
}

/// `count` filled stars followed by `5 - count` empty ones.
pub open spec fn stars(count: int) -> Seq<char> {
    Seq::new(5, |i: int| if i < count { '★' } else { '☆' })
}

/// The name of a reputation.
pub open spec fn spec_reputation_description(reputation: u8) -> Seq<char> {
    if reputation == 5 {
        "Legendary"@
    } else if reputation == 4 {
        "Excellent"@
    } else if reputation == 3 {
        "Good"@
    } else if reputation == 2 {
        "Fair"@
    } else if reputation == 1 {
        "Poor"@
    } else {
        "Unknown"@
    }
}

/// The time of day on a twelve-hour clock, such as `9:05 AM`.
pub open spec fn spec_time_display(hour: u8, minute: u8) -> Seq<char> {
    let shown: nat = if hour == 0 {
        12
    } else if hour > 12 {
        (hour - 12) as nat
    } else {
        hour as nat
    };
    decimal(shown) + ":"@ + two_digits(minute as nat) + " "@ + (if hour < 12 {
        "AM"@
    } else {
        "PM"@
    })
}

/// The cash after an effect: the cash plus the effect's cash, kept between
/// zero and the largest 32-bit number.
pub open spec fn cash_after(cash: u32, delta: i32) -> u32 {
    let exact = cash as int + delta as int;
    if exact < 0 {
        0
    } else if exact > u32::MAX {
        u32::MAX
    } else {
        exact as u32
    }
}

/// The reputation after an effect: unchanged by an effect of zero, else the
/// reputation plus the effect's reputation, kept between one and five.
pub open spec fn reputation_after(reputation: u8, delta: i8) -> u8 {
    let exact = reputation as int + delta as int;
    if delta == 0 {
        reputation
    } else if exact < 1 {
        1
    } else if exact > 5 {
        5
    } else {
        exact as u8
    }
}

impl GameData {
    /// A well-formed state: a reputation of one to five, a day from one on,
    /// a time of day, a log of at most ten messages, a ledger without empty
    /// lots whose card count fits in 32 bits, a revenue window of one to
    /// thirty days, and a tracker that counts its unlocked goals.
    pub open spec fn wf(&self) -> bool {
        &&& 1 <= self.reputation <= 5
        &&& self.day >= 1
        &&& self.hour < 24
        &&& self.minute < 60
        &&& self.recent_activities.wf()
        &&& ledger_wf(self.inventory@)
        &&& self.analytics.wf()
        &&& self.achievements.wf()
    }

    /// Raises the reputation by one, up to five, and logs it where it rose.
    pub fn improve_reputation(&mut self, reason: &str)
        ensures
            final(self).reputation == (if old(self).reputation < 5 {
                (old(self).reputation + 1) as u8
            } else {
                old(self).reputation
            }),
            final(self).recent_activities@ == (if old(self).reputation < 5 {
                with_entry(old(self).recent_activities@, improved_line(reason@))
            } else {
                old(self).recent_activities@
            }),
            *final(self) == (GameData {
                reputation: final(self).reputation,
                recent_activities: final(self).recent_activities,
                ..*old(self)
            }),
            old(self).wf() ==> final(self).wf(),
    {
        if self.reputation < MAX_REPUTATION {
            self.reputation = self.reputation + 1;
            let message = if same_text(reason, "order_fulfilled") {
                "⭐ Reputation improved for excellent service!"
            } else if same_text(reason, "fast_fulfillment") {
                "⭐ Reputation boosted for lightning-fast delivery!"
            } else {
                "⭐ Reputation improved!"
            };
            self.recent_activities.record(String::from_str(message));
        }
    }

    /// Lowers the reputation by one, down to one, and logs it where it
    /// fell.
    pub fn decrease_reputation(&mut self, reason: &str)
        ensures
            final(self).reputation == (if old(self).reputation > 1 {
                (old(self).reputation - 1) as u8
            } else {
                old(self).reputation
            }),
            final(self).recent_activities@ == (if old(self).reputation > 1 {
                with_entry(old(self).recent_activities@, decreased_line(reason@))
            } else {
                old(self).recent_activities@
            }),
            *final(self) == (GameData {
                reputation: final(self).reputation,
                recent_activities: final(self).recent_activities,
                ..*old(self)
            }),
            old(self).wf() ==> final(self).wf(),
    {
        if self.reputation > MIN_REPUTATION {
            self.reputation = self.reputation - 1;
            let message = if same_text(reason, "order_expired") {
                "💔 Reputation damaged - customers disappointed by expired orders"
            } else if same_text(reason, "slow_service") {
                "💔 Reputation declined due to slow service"
            } else {
                "💔 Reputation decreased!"
            };
            self.recent_activities.record(String::from_str(message));
        }
    }

    /// Applies an effect to the account: the cash moves by the effect's
    /// cash and stays within its bounds, the reputation by the effect's
    /// reputation and stays between one and five.
    pub fn apply_effect(&mut self, effect: Effect)
        ensures
            final(self).cash == cash_after(old(self).cash, effect.cash),
            final(self).reputation == reputation_after(old(self).reputation, effect.reputation),
            *final(self) == (GameData {
                cash: final(self).cash,
                reputation: final(self).reputation,
                ..*old(self)
            }),
            old(self).wf() ==> final(self).wf(),
    {
        let cash: i64 = self.cash as i64 + effect.cash as i64;
        if cash < 0 {
            self.cash = 0;
        } else if cash > 0xffff_ffff {
            self.cash = u32::MAX;
        } else {
            self.cash = cash as u32;
        }
        if effect.reputation != 0 {
            let reputation: i16 = self.reputation as i16 + effect.reputation as i16;
            if reputation < 1 {
                self.reputation = MIN_REPUTATION;
            } else if reputation > 5 {
                self.reputation = MAX_REPUTATION;
            } else {
                self.reputation = reputation as u8;
            }
        }
    }

    /// The reputation as five stars, filled up to the reputation.
    pub fn reputation_stars(&self) -> (text: String)
        requires
            self.reputation <= 5,
        ensures
            text@ == stars(self.reputation as int),
    {
        let mut text = String::new();
        let mut i: u8 = 0;
        while i < 5
            invariant
                i <= 5,
                text@.len() == i,
                forall|j: int| 0 <= j < i ==> text@[j] == stars(self.reputation as int)[j],
            decreases 5 - i,
        {
            proof {
                reveal_strlit("★");
                reveal_strlit("☆");
            }
            if i < self.reputation {
                text.append("★");
            } else {
                text.append("☆");
            }
            i = i + 1;
        }
        assert(text@ =~= stars(self.reputation as int));
        text
    }

    /// The name of the reputation.
    pub fn reputation_description(&self) -> (name: &'static str)
        ensures
            name@ == spec_reputation_description(self.reputation),
    {
        if self.reputation == 5 {
            "Legendary"
        } else if self.reputation == 4 {
            "Excellent"
        } else if self.reputation == 3 {
            "Good"
        } else if self.reputation == 2 {
            "Fair"
        } else if self.reputation == 1 {
            "Poor"
        } else {
            "Unknown"
        }
    }

    /// The time of day on a twelve-hour clock.
    pub fn time_display(&self) -> (text: String)
        ensures
            text@ == spec_time_display(self.hour, self.minute),
    {
        let shown: u8 = if self.hour == 0 {
            12
        } else if self.hour > 12 {
            self.hour - 12
        } else {
            self.hour
        };
        let mut text = u64_to_string(shown as u64);
        text.append(":");
        text.append(two_digit_string(self.minute as u64).as_str());
        text.append(" ");
        if self.hour < 12 {
            text.append("AM");
        } else {
            text.append("PM");
        }
        text
    }

    /// The market value of the inventory: the sum over its lots of market
    /// value per card times quantity.
    pub fn total_inventory_value(&self) -> (value: u64)
        requires
            ledger_cards(self.inventory@) <= u32::MAX,
        ensures
            value == ledger_value(self.inventory@),
    {
        proof {
            lemma_money_fits(self.inventory@);
        }
        sum_ledger(&self.inventory, Measure::Value)
    }

    /// What the inventory cost: the sum over its lots of unit cost times
    /// quantity.
    pub fn total_inventory_cost(&self) -> (cost: u64)
        requires
            ledger_cards(self.inventory@) <= u32::MAX,
        ensures
            cost == ledger_cost(self.inventory@),
    {
        proof {
            lemma_money_fits(self.inventory@);
        }
        sum_ledger(&self.inventory, Measure::Cost)
    }

    /// The number of cards in the inventory.
    pub fn inventory_count(&self) -> (count: u32)
        requires
            ledger_cards(self.inventory@) <= u32::MAX,
        ensures
            count == ledger_cards(self.inventory@),
    {
        sum_ledger(&self.inventory, Measure::Cards) as u32
    }

    /// The number of lots that expire within 15 days.
    pub fn expiring_items_count(&self) -> (count: usize)
        ensures
            count == expiring_soon_lots(self.inventory@),
    {
        let mut count: usize = 0;
        let mut i: usize = 0;
        let ghost s = self.inventory@;
        proof {
            lemma_sum_ends(s, Measure::ExpiringSoon);
        }
        while i < self.inventory.len()
            invariant
                s == self.inventory@,
                i <= s.len(),
                count <= i,
                count + sum_by(s.skip(i as int), Measure::ExpiringSoon) == expiring_soon_lots(s),
            decreases s.len() - i,
        {
            proof {
                lemma_sum_step(s, i as int, Measure::ExpiringSoon);
            }
            if self.inventory[i].card.is_expiring_soon() {
                count = count + 1;
            }
            i = i + 1;
        }
        proof {
            lemma_sum_ends(s, Measure::ExpiringSoon);
        }
        count
    }

    /// Adds bought cards to the inventory: to the first lot of the same
    /// retailer, face value and unit cost, or as a new lot.
    pub fn add_to_inventory(&mut self, card: GiftCard, quantity: u32)
        requires
            ledger_cards(old(self).inventory@) + quantity <= u32::MAX,
        ensures
            final(self).inventory@ == with_purchase(old(self).inventory@, card, quantity),
            *final(self) == (GameData { inventory: final(self).inventory, ..*old(self) }),
            old(self).wf() && quantity > 0 ==> final(self).wf(),
    {
        proof {
            lemma_purchase_totals(self.inventory@, card, quantity);
        }
        add_to_ledger(&mut self.inventory, card, quantity);
    }

    /// Whether the cash covers a cost.
    pub fn can_afford(&self, cost: u32) -> (affordable: bool)
        ensures
            affordable == (self.cash >= cost),
    {
        self.cash >= cost
    }

    /// Pays an amount where the cash covers it. Returns whether it did;
    /// where it did not, nothing changes.
    pub fn spend_money(&mut self, amount: u32) -> (paid: bool)
        ensures
            paid == (old(self).cash >= amount),
            paid ==> final(self).cash == old(self).cash - amount,
            !paid ==> final(self).cash == old(self).cash,
            *final(self) == (GameData { cash: final(self).cash, ..*old(self) }),
            old(self).wf() ==> final(self).wf(),
    {
        if self.can_afford(amount) {
            self.cash = self.cash - amount;
            true
        } else {
            false
        }
    }
}

} // verus!
