//! The order book of the aggregate: drawing new orders, aging the book, and
//! fulfilling an order from the inventory.

use vstd::prelude::*;
use vstd::string::StringExecFns;
use crate::activity::with_entry;
use crate::analytics::{recorded_sale, BusinessAnalytics};
use crate::game::{decreased_line, improved_line, GameData};
use crate::inventory::{consumed, matching_cards};
use crate::ledger::{consume_cards, holds_enough, lemma_consumed_totals};
use crate::multiplier::Multiplier;
use crate::order::{
    age_orders, aged_orders, describe_new_order, expiring_orders, generate_order, new_order_line,
    spec_generate_order, CustomerOrder, OrderView,
};
use crate::text::{decimal, i64_to_string, signed_decimal, u64_to_string};
use crate::tracker::{cash_checks, order_checks, quiet_unlock};
use crate::achievement::AchievementType;

verus! {

/// The log line for orders that expired.
pub open spec fn expired_orders_line(count: nat) -> Seq<char> {
    "⏰ "@ + decimal(count) + " customer orders expired"@
}

/// The log line for an order that could not be fulfilled.
pub open spec fn cannot_fulfill_line(id: u32) -> Seq<char> {
    "❌ Cannot fulfill order #"@ + decimal(id as nat) + " - insufficient inventory"@
}

/// The log line for a completed order.
pub open spec fn completed_line(order: OrderView, earnings: nat, profit: int) -> Seq<char> {
    "✅ Completed order #"@ + decimal(order.id as nat) + ": "@ + decimal(order.quantity as nat) + " "@
        + order.retailer.spec_name() + " $"@ + decimal(order.denomination as nat) + " cards for $"@ + decimal(
        earnings,
    ) + " (profit: $"@ + signed_decimal(profit) + ")"@
}

/// The log after `line` was recorded `times` times.
pub open spec fn repeated_entry(log: Seq<Seq<char>>, line: Seq<char>, times: nat) -> Seq<Seq<char>>
    decreases times,
{
    if times == 0 {
        log
    } else {
        with_entry(repeated_entry(log, line, (times - 1) as nat), line)
    }
}

/// How many stars `expired` expired orders cost: one each, down to one
/// star.
pub open spec fn stars_lost(reputation: u8, expired: nat) -> nat {
    if reputation <= 1 {
        0
    } else if expired < reputation - 1 {
        expired
    } else {
        (reputation - 1) as nat
    }
}

/// Whether a day brings a new order: every day at five stars, every second
/// day at four or three, every third at two, every fourth at one; and on
/// odd days besides, while the market's base demand is above 1.0.
pub open spec fn order_due(reputation: u8, day: u32, base_demand: Multiplier) -> bool {
    let by_reputation = if reputation == 5 {
        true
    } else if reputation == 4 || reputation == 3 {
        day % 2 == 0
    } else if reputation == 2 {
        day % 3 == 0
    } else if reputation == 1 {
        day % 4 == 0
    } else {
        false
    };
    by_reputation || (base_demand.billionths > 1_000_000_000 && day % 2 == 1)
}

/// The approximate cost of the cards of an order: five below face value
/// for each card.
pub open spec fn cost_basis(order: &CustomerOrder) -> int {
    order.quantity as int * (order.denomination as int - 5)
}

impl GameData {
    /// The order that the present state draws.
    pub open spec fn next_order(&self) -> OrderView {
        spec_generate_order(self.day, self.hour, self.reputation, self.next_order_id, &self.market_conditions)
    }

    /// Whether the inventory holds the cards of an order, over all lots
    /// together.
    pub open spec fn fulfillable(&self, order: &CustomerOrder) -> bool {
        matching_cards(self.inventory@, order.retailer, order.denomination) >= order.quantity
    }

    /// Whether the proceeds of the order at `index` fit in the 32-bit
    /// counters that they are added to, and its face value is at least five.
    pub open spec fn settlement_fits(&self, index: int) -> bool {
        let order = self.customer_orders@[index];
        &&& order.denomination >= 5
        &&& self.cash + order.spec_total_offered() <= u32::MAX
        &&& cost_basis(&order) <= u32::MAX
        &&& self.analytics.sale_fits(order.spec_total_offered() as u32, order.quantity)
        &&& self.achievements.orders_today < u32::MAX
    }

    /// Draws a new order from the day, the hour, the reputation and the
    /// market, appends it to the order book and logs it.
    pub fn generate_random_order(&mut self)
        requires
            old(self).next_order_id < u32::MAX,
        ensures
            final(self).customer_orders@.len() == old(self).customer_orders@.len() + 1,
            final(self).customer_orders@.drop_last() == old(self).customer_orders@,
            final(self).customer_orders@.last()@ == old(self).next_order(),
            final(self).next_order_id == old(self).next_order_id + 1,
            final(self).recent_activities@ == with_entry(
                old(self).recent_activities@,
                new_order_line(old(self).next_order()),
            ),
            *final(self) == (GameData {
                customer_orders: final(self).customer_orders,
                next_order_id: final(self).next_order_id,
                recent_activities: final(self).recent_activities,
                ..*old(self)
            }),
            old(self).wf() ==> final(self).wf(),
    {
        let order = generate_order(self.day, self.hour, self.reputation, self.next_order_id, &self.market_conditions);
        let line = describe_new_order(&order);
        self.customer_orders.push_back(order);
        self.next_order_id = self.next_order_id + 1;
        self.recent_activities.record(line);
        assert(self.customer_orders@.drop_last() =~= old(self).customer_orders@);
    }

    /// A day in the order book: every order comes a day closer to its
    /// deadline; those that reach zero days leave, are counted as expired and
    /// cost one star each; then a new order is drawn where one is due.
    pub fn process_order_aging(&mut self)
        requires
            old(self).analytics.orders_expired + expiring_orders(old(self).customer_orders@) <= u32::MAX,
            order_due(
                (old(self).reputation - stars_lost(old(self).reputation, expiring_orders(old(self).customer_orders@))) as u8,
                old(self).day,
                old(self).market_conditions.base_demand_modifier,
            ) ==> old(self).next_order_id < u32::MAX,
        ensures
            ({
                let expired = expiring_orders(old(self).customer_orders@);
                let lost = stars_lost(old(self).reputation, expired);
                let aged_log = if expired > 0 {
                    repeated_entry(
                        with_entry(old(self).recent_activities@, expired_orders_line(expired)),
                        decreased_line("order_expired"@),
                        lost,
                    )
                } else {
                    old(self).recent_activities@
                };
                let aged = GameData {
                    reputation: (old(self).reputation - lost) as u8,
                    customer_orders: final(self).customer_orders,
                    recent_activities: final(self).recent_activities,
                    ..*old(self)
                };
                &&& final(self).reputation == old(self).reputation - lost
                &&& final(self).analytics == (BusinessAnalytics {
                    orders_expired: (old(self).analytics.orders_expired + expired) as u32,
                    ..old(self).analytics
                })
                &&& if order_due(final(self).reputation, old(self).day, old(self).market_conditions.base_demand_modifier) {
                    &&& final(self).customer_orders@.len() == aged_orders(old(self).customer_orders@).len() + 1
                    &&& final(self).customer_orders@.drop_last() == aged_orders(old(self).customer_orders@)
                    &&& final(self).customer_orders@.last()@ == aged.next_order()
                    &&& final(self).next_order_id == old(self).next_order_id + 1
                    &&& final(self).recent_activities@ == with_entry(aged_log, new_order_line(aged.next_order()))
                } else {
                    &&& final(self).customer_orders@ == aged_orders(old(self).customer_orders@)
                    &&& final(self).next_order_id == old(self).next_order_id
                    &&& final(self).recent_activities@ == aged_log
                }
            }),
            *final(self) == (GameData {
                reputation: final(self).reputation,
                analytics: final(self).analytics,
                customer_orders: final(self).customer_orders,
                next_order_id: final(self).next_order_id,
                recent_activities: final(self).recent_activities,
                ..*old(self)
            }),
            old(self).wf() ==> final(self).wf(),
    {
        let expired = age_orders(&mut self.customer_orders);
        if expired > 0 {
            self.analytics.orders_expired = self.analytics.orders_expired + expired as u32;
            let mut line = String::from_str("⏰ ");
            line.append(u64_to_string(expired as u64).as_str());
            line.append(" customer orders expired");
            self.recent_activities.record(line);
            let ghost noted = self.recent_activities@;
            let mut k: usize = 0;
            while k < expired && self.reputation > 1
                invariant
                    k <= expired,
                    old(self).reputation > 1 ==> k <= old(self).reputation - 1,
                    old(self).reputation <= 1 ==> k == 0,
                    self.reputation == old(self).reputation - k,
                    self.recent_activities@ == repeated_entry(noted, decreased_line("order_expired"@), k as nat),
                    *self == (GameData {
                        reputation: self.reputation,
                        recent_activities: self.recent_activities,
                        analytics: self.analytics,
                        customer_orders: self.customer_orders,
                        ..*old(self)
                    }),
                    self.analytics == (BusinessAnalytics {
                        orders_expired: (old(self).analytics.orders_expired + expired) as u32,
                        ..old(self).analytics
                    }),
                    self.customer_orders@ == aged_orders(old(self).customer_orders@),
                    old(self).wf() ==> self.wf(),
                decreases expired - k,
            {
                self.decrease_reputation("order_expired");
                k = k + 1;
            }
        }
        let by_reputation = if self.reputation == 5 {
            true
        } else if self.reputation == 4 || self.reputation == 3 {
            self.day % 2 == 0
        } else if self.reputation == 2 {
            self.day % 3 == 0
        } else if self.reputation == 1 {
            self.day % 4 == 0
        } else {
            false
        };
        let market_boost = self.market_conditions.base_demand_modifier.exceeds_hundredths(100);
        if by_reputation || (market_boost && self.day % 2 == 1) {
            self.generate_random_order();
        }
    }

    /// Whether the inventory holds the cards of an order, over all lots
    /// together.
    pub fn can_fulfill_order(&self, order: &CustomerOrder) -> (can: bool)
        ensures
            can == self.fulfillable(order),
    {
        holds_enough(&self.inventory, order.retailer, order.denomination, order.quantity)
    }

    /// Whether the order at `order_index` can be settled without a counter
    /// passing its limit; true where there is no such order.
    pub fn can_settle(&self, order_index: usize) -> (fits: bool)
        ensures
            fits == (order_index < self.customer_orders@.len() ==> self.settlement_fits(order_index as int)),
    {
        if order_index >= self.customer_orders.len() {
            return true;
        }
        let order = &self.customer_orders[order_index];
        if order.denomination < 5 {
            return false;
        }
        let earnings = order.total_offered();
        let quantity: u64 = order.quantity as u64;
        let margin: u64 = (order.denomination - 5) as u64;
        assert(quantity * margin <= 0xffff_ffff * 0xffff_ffff) by (nonlinear_arith)
            requires
                quantity <= 0xffff_ffff,
                margin <= 0xffff_ffff,
        ;
        let basis: u64 = quantity * margin;
        if earnings > 0xffff_ffff || self.cash as u64 + earnings > 0xffff_ffff || basis > 0xffff_ffff {
            return false;
        }
        self.analytics.can_record_sale(earnings as u32, order.quantity) && self.achievements.orders_today
            < u32::MAX
    }

    /// Fulfills the order at `order_index` from the inventory. Returns
    /// whether it did. Without such an order nothing changes; where the
    /// inventory does not hold the cards, only a log line tells so. Else the
    /// cards leave the inventory lot by lot, the customer's payment joins the
    /// cash and the analytics, with a cost of five below face value per card,
    /// the order counts towards the day and the goals, leaves the order
    /// book, and the reputation rises by a star.
    pub fn fulfill_order(&mut self, order_index: usize) -> (done: bool)
        requires
            old(self).wf(),
            order_index < old(self).customer_orders@.len() && old(self).fulfillable(
                &old(self).customer_orders@[order_index as int],
            ) ==> old(self).settlement_fits(order_index as int),
        ensures
            done == (order_index < old(self).customer_orders@.len() && old(self).fulfillable(
                &old(self).customer_orders@[order_index as int],
            )),
            order_index >= old(self).customer_orders@.len() ==> *final(self) == *old(self),
            order_index < old(self).customer_orders@.len() && !done ==> {
                &&& final(self).recent_activities@ == with_entry(
                    old(self).recent_activities@,
                    cannot_fulfill_line(old(self).customer_orders@[order_index as int].id),
                )
                &&& *final(self) == (GameData { recent_activities: final(self).recent_activities, ..*old(self) })
            },
            done ==> ({
                let order = old(self).customer_orders@[order_index as int];
                let earnings = order.spec_total_offered();
                let basis = cost_basis(&order);
                let reason = if order.deadline_days > (2 + old(self).day % 5) / 2 {
                    "fast_fulfillment"@
                } else {
                    "order_fulfilled"@
                };
                let before = old(self).achievements.unlocks(old(self).recent_activities@);
                let counted = if old(self).achievements.orders_today + 1 >= 5 {
                    quiet_unlock(before, AchievementType::SpeedDemon, old(self).day)
                } else {
                    before
                };
                let checked = cash_checks(
                    order_checks(
                        counted,
                        (old(self).analytics.orders_completed + 1) as u32,
                        old(self).reputation,
                        old(self).day,
                    ),
                    (old(self).cash + earnings) as u32,
                    old(self).day,
                );
                let told = with_entry(checked.log, completed_line(order@, earnings, earnings - basis));
                &&& final(self).inventory@ == consumed(
                    old(self).inventory@,
                    order.retailer,
                    order.denomination,
                    order.quantity as nat,
                )
                &&& matching_cards(final(self).inventory@, order.retailer, order.denomination) + order.quantity
                    == matching_cards(old(self).inventory@, order.retailer, order.denomination)
                &&& final(self).cash == old(self).cash + earnings
                &&& final(self).customer_orders@ == old(self).customer_orders@.remove(order_index as int)
                &&& recorded_sale(
                    old(self).analytics,
                    final(self).analytics,
                    earnings as u32,
                    basis as u32,
                    order.quantity,
                )
                &&& final(self).achievements.unlocks(checked.log) == checked
                &&& final(self).achievements.orders_today == old(self).achievements.orders_today + 1
                &&& final(self).achievements.consecutive_perfect_days == old(
                    self,
                ).achievements.consecutive_perfect_days
                &&& final(self).achievements.consecutive_efficiency_days == old(
                    self,
                ).achievements.consecutive_efficiency_days
                &&& final(self).achievements.favorable_market_purchases == old(
                    self,
                ).achievements.favorable_market_purchases
                &&& final(self).achievements.seasonal_winter_profit == old(self).achievements.seasonal_winter_profit
                &&& final(self).achievements.seasons_survived@ == old(self).achievements.seasons_survived@
                &&& final(self).achievements.events_survived == old(self).achievements.events_survived
                &&& final(self).reputation == (if old(self).reputation < 5 {
                    (old(self).reputation + 1) as u8
                } else {
                    old(self).reputation
                })
                &&& final(self).recent_activities@ == (if old(self).reputation < 5 {
                    with_entry(told, improved_line(reason))
                } else {
                    told
                })
                &&& final(self).day == old(self).day
                &&& final(self).hour == old(self).hour
                &&& final(self).minute == old(self).minute
                &&& final(self).next_order_id == old(self).next_order_id
                &&& final(self).market_conditions == old(self).market_conditions
                &&& final(self).random_events == old(self).random_events
            }),
            final(self).wf(),
    {
        if order_index >= self.customer_orders.len() {
            return false;
        }
        let order = &self.customer_orders[order_index];
        let id = order.id;
        let retailer = order.retailer;
        let denomination = order.denomination;
        let quantity = order.quantity;
        let deadline_days = order.deadline_days;
        let total_offered = order.total_offered();
        if !holds_enough(&self.inventory, retailer, denomination, quantity) {
            let mut line = String::from_str("❌ Cannot fulfill order #");
            line.append(u64_to_string(id as u64).as_str());
            line.append(" - insufficient inventory");
            self.recent_activities.record(line);
            return false;
        }
        proof {
            lemma_consumed_totals(self.inventory@, retailer, denomination, quantity as nat);
        }
        consume_cards(&mut self.inventory, retailer, denomination, quantity);
        let total_earnings: u32 = total_offered as u32;
        let margin: u32 = denomination - 5;
        assert(quantity as int * (denomination as int - 5) == cost_basis(&old(self).customer_orders@[order_index as int]));
        assert(quantity * margin <= u32::MAX) by (nonlinear_arith)
            requires
                quantity as int * (denomination as int - 5) <= u32::MAX,
                margin == denomination - 5,
        ;
        let basis: u32 = quantity * margin;
        let profit: i64 = total_earnings as i64 - basis as i64;
        self.analytics.record_sale(total_earnings, basis, quantity);
        self.cash = self.cash + total_earnings;
        self.achievements.record_order_completion(self.day);
        self.achievements.check_order_achievements(
            self.analytics.orders_completed,
            self.reputation,
            self.day,
            &mut self.recent_activities,
        );
        self.achievements.check_cash_achievements(self.cash, self.day, &mut self.recent_activities);
        self.customer_orders.remove(order_index);
        let mut line = String::from_str("✅ Completed order #");
        line.append(u64_to_string(id as u64).as_str());
        line.append(": ");
        line.append(u64_to_string(quantity as u64).as_str());
        line.append(" ");
        line.append(retailer.name());
        line.append(" $");
        line.append(u64_to_string(denomination as u64).as_str());
        line.append(" cards for $");
        line.append(u64_to_string(total_earnings as u64).as_str());
        line.append(" (profit: $");
        line.append(i64_to_string(profit).as_str());
        line.append(")");
        self.recent_activities.record(line);
        if deadline_days > (2 + self.day % 5) / 2 {
            self.improve_reputation("fast_fulfillment");
        } else {
            self.improve_reputation("order_fulfilled");
        }
        true
    }
}

} // verus!
