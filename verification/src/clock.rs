//! The clock and the daily tick: a new game, the advance of time, and what
//! a new day does to every part of the state, in a fixed order.

use std::collections::VecDeque;
use vstd::prelude::*;
use vstd::string::StringExecFns;
use crate::achievement::AchievementType;
use crate::activity::{with_entry, ActivityLog};
use crate::analytics::{with_new_day, BusinessAnalytics};
use crate::book::{expired_orders_line, order_due, repeated_entry, stars_lost};
use crate::event_manager::RandomEventManager;
use crate::game::{cash_after, decreased_line, reputation_after, GameData};
use crate::inventory::{
    aged_ledger, expiring_cards, expiring_cost, ledger_cards, ledger_wf, lemma_sum_monotone,
    lemma_sum_push, GiftCard, InventoryItem, Measure,
};
use crate::ledger::{age_ledger, ledger_is_valid, lemma_aged_totals, sum_ledger};
use crate::market::{MarketConditions, Season};
use crate::multiplier::Multiplier;
use crate::order::{aged_orders, expiring_orders, new_order_line, spec_generate_order, CustomerOrder, OrderView};
use crate::random_event::Effect;
use crate::retailer::{lemma_name_round_trip, Retailer};
use crate::text::{decimal, u64_to_string};
use crate::tracker::{
    cash_checks, inventory_checks, next_efficiency_streak, next_perfect_streak, quiet_unlock,
    seasonal_checks, with_season, AchievementTracker, Unlocks,
};

verus! {

/// The log line for cards lost to expiry.
pub open spec fn lost_line(cards: nat, cost: nat) -> Seq<char> {
    "❌ Lost "@ + decimal(cards) + " cards worth $"@ + decimal(cost) + " to expiration"@
}

/// The log line for the start of a day.
pub open spec fn day_begins_line(day: u32, season: Season) -> Seq<char> {
    "🌅 Day "@ + decimal(day as nat) + " begins ("@ + season.spec_display() + " season)"@
}

/// The cash after an effect, if there is one.
pub open spec fn cash_after_outcome(cash: u32, effect: Option<Effect>) -> u32 {
    match effect {
        Some(e) => cash_after(cash, e.cash),
        None => cash,
    }
}

/// The reputation after an effect, if there is one.
pub open spec fn reputation_after_outcome(reputation: u8, effect: Option<Effect>) -> u8 {
    match effect {
        Some(e) => reputation_after(reputation, e.reputation),
        None => reputation,
    }
}

/// What keeps a state from being well formed.
#[derive(Clone, Copy, Debug, PartialEq, Eq, Structural)]
pub enum StateError {
    /// The reputation is not one to five stars.
    Reputation,
    /// The day is zero, or the time is no time of day.
    Clock,
    /// The log holds more than ten messages.
    Log,
    /// A lot is empty, or the card count does not fit in 32 bits.
    Ledger,
    /// The revenue window does not hold one to thirty days.
    Analytics,
    /// The tracker miscounts its unlocked goals or has seen a season twice.
    Achievements,
}

impl StateError {
    /// The error in words.
    pub open spec fn spec_describe(self) -> Seq<char> {
        match self {
            StateError::Reputation => "the reputation is not one to five stars"@,
            StateError::Clock => "the day or the time of day is out of range"@,
            StateError::Log => "the activity log holds more than ten messages"@,
            StateError::Ledger => "the inventory holds an empty lot or too many cards"@,
            StateError::Analytics => "the daily revenues do not cover one to thirty days"@,
            StateError::Achievements => "the achievements are miscounted"@,
        }
    }

    /// The error in words.
    pub fn describe(&self) -> (text: &'static str)
        ensures
            text@ == self.spec_describe(),
    {
        match self {
            StateError::Reputation => "the reputation is not one to five stars",
            StateError::Clock => "the day or the time of day is out of range",
            StateError::Log => "the activity log holds more than ten messages",
            StateError::Ledger => "the inventory holds an empty lot or too many cards",
            StateError::Analytics => "the daily revenues do not cover one to thirty days",
            StateError::Achievements => "the achievements are miscounted",
        }
    }
}

/// The inventory at the start of a game.
pub open spec fn starting_inventory() -> Seq<InventoryItem> {
    seq![
        starting_lot(Retailer::Amazon, 25, 20, 45, 12),
        starting_lot(Retailer::Target, 50, 42, 30, 8),
        starting_lot(Retailer::Starbucks, 10, 8, 120, 15),
        starting_lot(Retailer::ITunes, 15, 12, 15, 3),
        starting_lot(Retailer::Walmart, 20, 17, 60, 6),
    ]
}

/// A lot from its retailer, face value, unit cost, days and quantity.
pub open spec fn starting_lot(retailer: Retailer, denomination: u32, purchase_price: u32, days: u32, quantity: u32) -> InventoryItem {
    InventoryItem {
        card: GiftCard { retailer, denomination, purchase_price, days_until_expiration: days },
        quantity,
    }
}

/// The hour after `minutes` more minutes, days not yet carried.
pub open spec fn hour_sum(hour: u8, minute: u8, minutes: u8) -> int {
    hour as int + (minute as int + minutes as int) / 60
}

/// The minute after `minutes` more minutes.
pub open spec fn minute_after(minute: u8, minutes: u8) -> u8 {
    ((minute as int + minutes as int) % 60) as u8
}

impl GameData {
    /// Whether the counters that the tick of `day` advances have room for
    /// it: the expired cards and orders, the order id where an order is due,
    /// and the streak of efficient days where it grows.
    pub open spec fn has_room_for(&self, day: u32) -> bool {
        &&& self.analytics.cards_expired + expiring_cards(self.inventory@) <= u32::MAX
        &&& self.analytics.orders_expired + expiring_orders(self.customer_orders@) <= u32::MAX
        &&& order_due(self.reputation_after_aging(), day, self.market_conditions.base_demand_modifier)
            ==> self.next_order_id < u32::MAX
        &&& next_efficiency_streak(
            self.achievements.consecutive_efficiency_days,
            self.analytics.orders_completed,
            (self.analytics.orders_expired + expiring_orders(self.customer_orders@)) as u32,
        ) <= u32::MAX
    }

    /// Whether the counters that the tick of the present day advances have
    /// room for it.
    pub open spec fn has_room_for_day(&self) -> bool {
        self.has_room_for(self.day)
    }

    /// The log once the day's expired cards are told.
    pub open spec fn log_after_expiry(&self) -> Seq<Seq<char>> {
        if expiring_cards(self.inventory@) > 0 {
            with_entry(
                self.recent_activities@,
                lost_line(expiring_cards(self.inventory@), expiring_cost(self.inventory@)),
            )
        } else {
            self.recent_activities@
        }
    }

    /// The reputation once the day's expired orders have cost their stars.
    pub open spec fn reputation_after_aging(&self) -> u8 {
        (self.reputation - stars_lost(self.reputation, expiring_orders(self.customer_orders@))) as u8
    }

    /// Whether the day brings a new order.
    pub open spec fn order_is_due(&self) -> bool {
        order_due(self.reputation_after_aging(), self.day, self.market_conditions.base_demand_modifier)
    }

    /// The order that the day brings where one is due: drawn with the
    /// reputation as the expired orders left it, from the market as it was
    /// the day before.
    pub open spec fn order_of_the_day(&self) -> OrderView {
        spec_generate_order(
            self.day,
            self.hour,
            self.reputation_after_aging(),
            self.next_order_id,
            &self.market_conditions,
        )
    }

    /// The log once the order book has aged: the expired orders and the
    /// stars that they cost, then the new order where one is due.
    pub open spec fn log_after_aging(&self) -> Seq<Seq<char>> {
        let expired = expiring_orders(self.customer_orders@);
        let told = if expired > 0 {
            repeated_entry(
                with_entry(self.log_after_expiry(), expired_orders_line(expired)),
                decreased_line("order_expired"@),
                stars_lost(self.reputation, expired),
            )
        } else {
            self.log_after_expiry()
        };
        if self.order_is_due() {
            with_entry(told, new_order_line(self.order_of_the_day()))
        } else {
            told
        }
    }

    /// The log once the market has had its day.
    pub open spec fn log_after_market(&self) -> Seq<Seq<char>> {
        self.market_conditions.daily_log(self.day, self.log_after_aging())
    }

    /// The streak of efficient days after the day's expired orders.
    pub open spec fn efficiency_after_aging(&self) -> int {
        next_efficiency_streak(
            self.achievements.consecutive_efficiency_days,
            self.analytics.orders_completed,
            (self.analytics.orders_expired + expiring_orders(self.customer_orders@)) as u32,
        )
    }

    /// The goals and the log once the day's checks are made: the streak
    /// goals, then the cash goals against the cash, the inventory goals
    /// against the aged inventory, and the seasonal goals against the season
    /// of the day.
    pub open spec fn unlocks_after_checks(&self) -> Unlocks {
        let season = Season::spec_from_day(self.day as int);
        let before = self.achievements.unlocks(self.log_after_market());
        let week = if next_perfect_streak(
            self.achievements.consecutive_perfect_days,
            0,
            expiring_cards(self.inventory@) as u32,
        ) >= 7 {
            quiet_unlock(before, AchievementType::PerfectWeek, self.day)
        } else {
            before
        };
        let rated = if self.efficiency_after_aging() >= 30 {
            quiet_unlock(week, AchievementType::Efficiency, self.day)
        } else {
            week
        };
        seasonal_checks(
            inventory_checks(cash_checks(rated, self.cash, self.day), aged_ledger(self.inventory@), self.day),
            with_season(self.achievements.seasons_survived@, season),
            season,
            self.achievements.seasonal_winter_profit,
            self.day,
        )
    }

    /// Whether `after` is this state after its daily tick. In order: the
    /// inventory ages and loses its expired lots; the order book ages, the
    /// expired orders cost a star each, and a new order is drawn where one is
    /// due; the analytics open a new day; the market takes the season of the
    /// day and has its own day; the streaks and the goals are checked; the
    /// narrative events have their day and their effects reach the account;
    /// and the log tells that the day begins.
    pub open spec fn day_passed(&self, after: &GameData) -> bool {
        let season = Season::spec_from_day(self.day as int);
        let expired_orders = expiring_orders(self.customer_orders@);
        let checked = self.unlocks_after_checks();
        let forced = self.random_events.forced_effect(self.day);
        let fired = self.random_events.fired_effect(self.day);
        &&& after.day == self.day
        &&& after.hour == self.hour
        &&& after.minute == self.minute
        &&& after.inventory@ == aged_ledger(self.inventory@)
        &&& after.analytics.cards_expired == self.analytics.cards_expired + expiring_cards(self.inventory@)
        &&& after.analytics.orders_expired == self.analytics.orders_expired + expired_orders
        &&& after.analytics.daily_revenues@ == with_new_day(self.analytics.daily_revenues@)
        &&& after.analytics.total_revenue == self.analytics.total_revenue
        &&& after.analytics.total_purchases == self.analytics.total_purchases
        &&& after.analytics.orders_completed == self.analytics.orders_completed
        &&& after.analytics.best_day_revenue == self.analytics.best_day_revenue
        &&& after.analytics.cards_sold == self.analytics.cards_sold
        &&& after.analytics.profit_margins == self.analytics.profit_margins
        &&& if self.order_is_due() {
            &&& after.customer_orders@.len() == aged_orders(self.customer_orders@).len() + 1
            &&& after.customer_orders@.drop_last() == aged_orders(self.customer_orders@)
            &&& after.customer_orders@.last()@ == self.order_of_the_day()
            &&& after.next_order_id == self.next_order_id + 1
        } else {
            &&& after.customer_orders@ == aged_orders(self.customer_orders@)
            &&& after.next_order_id == self.next_order_id
        }
        &&& after.market_conditions.current_season == season
        &&& after.market_conditions.base_demand_modifier == (if self.market_conditions.current_season == season {
            self.market_conditions.base_demand_modifier
        } else {
            season.spec_demand_modifier()
        })
        &&& self.market_conditions.events_after_day(&after.market_conditions, self.day)
        &&& after.achievements.unlocks(checked.log) == checked
        &&& after.achievements.orders_today == 0
        &&& after.achievements.consecutive_perfect_days == next_perfect_streak(
            self.achievements.consecutive_perfect_days,
            0,
            expiring_cards(self.inventory@) as u32,
        )
        &&& after.achievements.consecutive_efficiency_days == self.efficiency_after_aging()
        &&& after.achievements.seasons_survived@ == with_season(self.achievements.seasons_survived@, season)
        &&& after.achievements.favorable_market_purchases == self.achievements.favorable_market_purchases
        &&& after.achievements.seasonal_winter_profit == self.achievements.seasonal_winter_profit
        &&& after.achievements.events_survived == self.achievements.events_survived
        &&& self.random_events.after_day(&after.random_events, self.day)
        &&& after.cash == cash_after_outcome(cash_after_outcome(self.cash, forced), fired)
        &&& after.reputation == reputation_after_outcome(
            reputation_after_outcome(self.reputation_after_aging(), forced),
            fired,
        )
        &&& after.recent_activities@ == with_entry(
            self.random_events.daily_log(self.day, checked.log),
            day_begins_line(self.day, season),
        )
    }

    /// Ages the inventory by a day; the lots that reach zero days leave,
    /// and their cards are counted as expired and told in the log. Returns
    /// how many cards were lost.
    pub fn expire_inventory(&mut self) -> (lost_cards: u32)
        requires
            ledger_cards(old(self).inventory@) <= u32::MAX,
            old(self).analytics.cards_expired + expiring_cards(old(self).inventory@) <= u32::MAX,
        ensures
            lost_cards == expiring_cards(old(self).inventory@),
            final(self).inventory@ == aged_ledger(old(self).inventory@),
            final(self).analytics == (BusinessAnalytics {
                cards_expired: (old(self).analytics.cards_expired + lost_cards) as u32,
                ..old(self).analytics
            }),
            final(self).recent_activities@ == old(self).log_after_expiry(),
            *final(self) == (GameData {
                inventory: final(self).inventory,
                analytics: final(self).analytics,
                recent_activities: final(self).recent_activities,
                ..*old(self)
            }),
            old(self).wf() ==> final(self).wf(),
    {
        proof {
            lemma_aged_totals(self.inventory@);
        }
        let (lost_cards, lost_cost) = age_ledger(&mut self.inventory);
        if lost_cards > 0 {
            self.analytics.record_expired_cards(lost_cards);
            let mut line = String::from_str("❌ Lost ");
            line.append(u64_to_string(lost_cards as u64).as_str());
            line.append(" cards worth $");
            line.append(u64_to_string(lost_cost).as_str());
            line.append(" to expiration");
            self.recent_activities.record(line);
        }
        lost_cards
    }

    /// The daily tick.
    pub fn process_daily_events(&mut self)
        requires
            old(self).wf(),
            old(self).has_room_for_day(),
        ensures
            old(self).day_passed(final(self)),
            final(self).wf(),
    {
        let lost_cards = self.expire_inventory();
        self.process_order_aging();
        self.analytics.start_new_day();
        self.market_conditions.update_season(self.day);
        self.market_conditions.process_daily_events(self.day, &mut self.recent_activities);
        self.achievements.process_daily_achievements(0, lost_cards, &self.analytics, self.day);
        let ghost log_at_checks = self.recent_activities@;
        assert(log_at_checks == old(self).log_after_market());
        self.achievements.check_cash_achievements(self.cash, self.day, &mut self.recent_activities);
        self.achievements.check_inventory_achievements(&self.inventory, self.day, &mut self.recent_activities);
        let season = self.market_conditions.current_season;
        let winter_profit = self.achievements.seasonal_winter_profit;
        self.achievements.check_seasonal_achievements(&season, winter_profit, self.day, &mut self.recent_activities);
        assert(self.achievements.unlocks(self.recent_activities@) == old(self).unlocks_after_checks());
        let outcome = self.random_events.process_daily_events(self.day, &mut self.recent_activities);
        match outcome.forced {
            Some(effect) => {
                self.apply_effect(effect);
            },
            None => {},
        }
        match outcome.fired {
            Some(effect) => {
                self.apply_effect(effect);
            },
            None => {},
        }
        let mut line = String::from_str("🌅 Day ");
        line.append(u64_to_string(self.day as u64).as_str());
        line.append(" begins (");
        line.append(self.market_conditions.current_season.display());
        line.append(" season)");
        self.recent_activities.record(line);
    }

    /// Whether `minutes` more minutes carry the clock into a new day.
    pub open spec fn rolls_over(&self, minutes: u8) -> bool {
        hour_sum(self.hour, self.minute, minutes) >= 24
    }

    /// The first of the conditions of a well-formed state that fails, in
    /// the order reputation, clock, log, ledger, analytics, achievements.
    pub open spec fn first_fault(&self) -> Option<StateError> {
        if !(1 <= self.reputation <= 5) {
            Some(StateError::Reputation)
        } else if !(self.day >= 1 && self.hour < 24 && self.minute < 60) {
            Some(StateError::Clock)
        } else if !self.recent_activities.wf() {
            Some(StateError::Log)
        } else if !ledger_wf(self.inventory@) {
            Some(StateError::Ledger)
        } else if !self.analytics.wf() {
            Some(StateError::Analytics)
        } else if !self.achievements.wf() {
            Some(StateError::Achievements)
        } else {
            None
        }
    }

    /// Checks a state that came from outside, such as a saved game: accepts
    /// it where it is well formed, and else names the first condition that
    /// fails.
    pub fn validate(&self) -> (checked: Result<(), StateError>)
        ensures
            checked.is_ok() == self.wf(),
            checked == (match self.first_fault() {
                Some(fault) => Err::<(), StateError>(fault),
                None => Ok::<(), StateError>(()),
            }),
    {
        if !(1 <= self.reputation && self.reputation <= 5) {
            Err(StateError::Reputation)
        } else if !(self.day >= 1 && self.hour < 24 && self.minute < 60) {
            Err(StateError::Clock)
        } else if !self.recent_activities.is_valid() {
            Err(StateError::Log)
        } else if !ledger_is_valid(&self.inventory) {
            Err(StateError::Ledger)
        } else if !self.analytics.is_valid() {
            Err(StateError::Analytics)
        } else if !self.achievements.is_valid() {
            Err(StateError::Achievements)
        } else {
            Ok(())
        }
    }

    /// Whether the state is well formed.
    pub fn is_valid(&self) -> (valid: bool)
        ensures
            valid == self.wf(),
    {
        self.validate().is_ok()
    }

    /// Whether the counters that the tick of the present day advances have
    /// room for it.
    pub fn ready_for_day(&self) -> (ready: bool)
        requires
            ledger_cards(self.inventory@) <= u32::MAX,
        ensures
            ready == self.has_room_for_day(),
    {
        self.ready_for(self.day)
    }

    /// Whether the clock can advance by `minutes`: where that begins a new
    /// day, the day count and the counters that its tick advances have room.
    pub fn can_advance(&self, minutes: u8) -> (can: bool)
        requires
            ledger_cards(self.inventory@) <= u32::MAX,
        ensures
            can == (self.rolls_over(minutes) ==> self.day < u32::MAX && self.has_room_for((self.day + 1) as u32)),
    {
        let hours: u16 = self.hour as u16 + (self.minute as u16 + minutes as u16) / 60;
        if hours < 24 {
            true
        } else if self.day == u32::MAX {
            false
        } else {
            self.ready_for(self.day + 1)
        }
    }

    /// Whether the counters that the tick of `day` advances have room for
    /// it.
    pub fn ready_for(&self, day: u32) -> (ready: bool)
        requires
            ledger_cards(self.inventory@) <= u32::MAX,
        ensures
            ready == self.has_room_for(day),
    {
        proof {
            lemma_sum_monotone(self.inventory@, Measure::ExpiringCards, Measure::Cards);
        }
        let expiring = sum_ledger(&self.inventory, Measure::ExpiringCards);
        let ghost orders = self.customer_orders@;
        let mut due: u64 = 0;
        let mut i: usize = 0;
        assert(orders.take(0) =~= Seq::<CustomerOrder>::empty());
        while i < self.customer_orders.len()
            invariant
                orders == self.customer_orders@,
                i <= orders.len(),
                due == expiring_orders(orders.take(i as int)),
                due <= i,
            decreases orders.len() - i,
        {
            assert(orders.take(i + 1).drop_last() =~= orders.take(i as int));
            if self.customer_orders[i].deadline_days <= 1 {
                due = due + 1;
            }
            i = i + 1;
        }
        assert(orders.take(i as int) =~= orders);
        if self.analytics.cards_expired as u64 + expiring > 0xffff_ffff {
            return false;
        }
        if due > 0xffff_ffff || self.analytics.orders_expired as u64 + due > 0xffff_ffff {
            return false;
        }
        let completed: u64 = self.analytics.orders_completed as u64;
        let all: u64 = completed + self.analytics.orders_expired as u64 + due;
        let streak_grows = all > 0 && completed * 10 >= all * 9;
        if streak_grows && self.achievements.consecutive_efficiency_days == u32::MAX {
            return false;
        }
        let reputation: u8 = if self.reputation <= 1 {
            self.reputation
        } else if due < (self.reputation - 1) as u64 {
            self.reputation - due as u8
        } else {
            1
        };
        let by_reputation = if reputation == 5 {
            true
        } else if reputation == 4 || reputation == 3 {
            day % 2 == 0
        } else if reputation == 2 {
            day % 3 == 0
        } else if reputation == 1 {
            day % 4 == 0
        } else {
            false
        };
        let order_is_due = by_reputation || (self.market_conditions.base_demand_modifier.exceeds_hundredths(100)
            && day % 2 == 1);
        !(order_is_due && self.next_order_id == u32::MAX)
    }

    /// A new game: 5000 in cash, three stars, nine o'clock on day one, five
    /// lots in the inventory, a market in spring, and two first orders.
    pub fn new() -> (game: GameData)
        ensures
            game.cash == 5000,
            game.reputation == 3,
            game.day == 1,
            game.hour == 9,
            game.minute == 0,
            game.inventory@ == starting_inventory(),
            game.customer_orders@.len() == 2,
            game.customer_orders@[0]@ == spec_generate_order(1, 9, 3, 1000, &game.market_conditions),
            game.customer_orders@[1]@ == spec_generate_order(1, 9, 3, 1001, &game.market_conditions),
            game.next_order_id == 1002,
            game.recent_activities@ == seq![
                new_order_line(spec_generate_order(1, 9, 3, 1001, &game.market_conditions)),
                new_order_line(spec_generate_order(1, 9, 3, 1000, &game.market_conditions)),
                "Welcome to Gift Card Empire!"@,
                "Starting with $5,000 capital"@,
                "Visit the Market to buy your first cards"@,
            ],
            game.analytics.total_revenue == 0,
            game.analytics.total_purchases == 0,
            game.analytics.orders_completed == 0,
            game.analytics.orders_expired == 0,
            game.analytics.cards_sold == 0,
            game.analytics.cards_expired == 0,
            game.analytics.best_day_revenue == 0,
            game.analytics.daily_revenues@ == seq![0u32],
            game.analytics.profit_margins@.len() == 0,
            game.market_conditions.current_season == Season::Spring,
            game.market_conditions.active_events@.len() == 0,
            game.market_conditions.base_demand_modifier == Multiplier::spec_from_hundredths(100),
            game.market_conditions.next_event_in_days == 4,
            AchievementTracker::is_fresh_catalog(game.achievements.achievements@),
            game.achievements.total_unlocked == 0,
            game.achievements.recent_unlock.is_none(),
            game.achievements.consecutive_perfect_days == 0,
            game.achievements.consecutive_efficiency_days == 0,
            game.achievements.orders_today == 0,
            game.achievements.favorable_market_purchases == 0,
            game.achievements.seasonal_winter_profit == 0,
            game.achievements.seasons_survived@.len() == 0,
            game.achievements.events_survived == 0,
            game.random_events.active_event.is_none(),
            game.random_events.next_event_in_days == 4,
            game.random_events.event_history@.len() == 0,
            !game.random_events.player_choice_pending,
            game.random_events.choice_deadline == 0,
            game.random_events.temp_modifiers@.len() == 0,
            game.wf(),
    {
        let mut inventory: Vec<InventoryItem> = Vec::new();
        inventory.push(InventoryItem::new(GiftCard::new("Amazon", 25, 20, 45), 12));
        inventory.push(InventoryItem::new(GiftCard::new("Target", 50, 42, 30), 8));
        inventory.push(InventoryItem::new(GiftCard::new("Starbucks", 10, 8, 120), 15));
        inventory.push(InventoryItem::new(GiftCard::new("iTunes", 15, 12, 15), 3));
        inventory.push(InventoryItem::new(GiftCard::new("Walmart", 20, 17, 60), 6));
        proof {
            lemma_name_round_trip(Retailer::Amazon);
            lemma_name_round_trip(Retailer::Target);
            lemma_name_round_trip(Retailer::Starbucks);
            lemma_name_round_trip(Retailer::ITunes);
            lemma_name_round_trip(Retailer::Walmart);
            assert(inventory@ =~= starting_inventory());
            let s = starting_inventory();
            let empty = Seq::<InventoryItem>::empty();
            lemma_sum_push(empty, s[0], Measure::Cards);
            lemma_sum_push(empty.push(s[0]), s[1], Measure::Cards);
            lemma_sum_push(empty.push(s[0]).push(s[1]), s[2], Measure::Cards);
            lemma_sum_push(empty.push(s[0]).push(s[1]).push(s[2]), s[3], Measure::Cards);
            lemma_sum_push(empty.push(s[0]).push(s[1]).push(s[2]).push(s[3]), s[4], Measure::Cards);
            assert(empty.push(s[0]).push(s[1]).push(s[2]).push(s[3]).push(s[4]) =~= s);
            assert(ledger_cards(s) == 44);
        }
        let mut recent_activities = ActivityLog::new();
        recent_activities.record(String::from_str("Visit the Market to buy your first cards"));
        recent_activities.record(String::from_str("Starting with $5,000 capital"));
        recent_activities.record(String::from_str("Welcome to Gift Card Empire!"));
        let mut game = GameData {
            cash: 5000,
            reputation: 3,
            day: 1,
            hour: 9,
            minute: 0,
            recent_activities,
            inventory,
            customer_orders: VecDeque::new(),
            next_order_id: 1000,
            analytics: BusinessAnalytics::new(),
            market_conditions: MarketConditions::new(),
            achievements: AchievementTracker::new(),
            random_events: RandomEventManager::new(),
        };
        game.generate_random_order();
        game.generate_random_order();
        proof {
            assert(game.customer_orders@.drop_last().last() == game.customer_orders@[0]);
            assert(game.recent_activities@ =~= seq![
                new_order_line(spec_generate_order(1, 9, 3, 1001, &game.market_conditions)),
                new_order_line(spec_generate_order(1, 9, 3, 1000, &game.market_conditions)),
                "Welcome to Gift Card Empire!"@,
                "Starting with $5,000 capital"@,
                "Visit the Market to buy your first cards"@,
            ]);
        }
        game
    }

    /// Advances the clock by `minutes`: sixty minutes carry into an hour,
    /// twenty-four hours into a day, and a new day runs the daily tick once.
    pub fn advance_time(&mut self, minutes: u8)
        requires
            old(self).wf(),
            old(self).rolls_over(minutes) ==> old(self).day < u32::MAX && old(self).has_room_for(
                (old(self).day + 1) as u32,
            ),
        ensures
            !old(self).rolls_over(minutes) ==> *final(self) == (GameData {
                hour: hour_sum(old(self).hour, old(self).minute, minutes) as u8,
                minute: minute_after(old(self).minute, minutes),
                ..*old(self)
            }),
            old(self).rolls_over(minutes) ==> (GameData {
                day: (old(self).day + 1) as u32,
                hour: (hour_sum(old(self).hour, old(self).minute, minutes) - 24) as u8,
                minute: minute_after(old(self).minute, minutes),
                ..*old(self)
            }).day_passed(final(self)),
            final(self).wf(),
    {
        let total: u16 = self.minute as u16 + minutes as u16;
        let hours: u16 = self.hour as u16 + total / 60;
        self.minute = (total % 60) as u8;
        if hours >= 24 {
            self.day = self.day + (hours / 24) as u32;
            self.hour = (hours % 24) as u8;
            self.process_daily_events();
        } else {
            self.hour = hours as u8;
        }
    }
}

} // verus!
