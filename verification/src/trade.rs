//! The player's trades: buying a card at the market's price, selling a lot
//! directly, and resolving a narrative event by a choice.

use vstd::prelude::*;
use vstd::string::StringExecFns;
use crate::achievement::AchievementType;
use crate::activity::with_entry;
use crate::analytics::BusinessAnalytics;
use crate::event_manager::modifier_product;
use crate::game::{cash_after, reputation_after, GameData};
use crate::inventory::{ledger_cards, lemma_sum_remove, with_purchase, GiftCard, InventoryItem, Measure};
use crate::market::Factor;
use crate::multiplier::Multiplier;
use crate::random_event::{choice_cash, choice_modifiers, choice_reputation, modifier_views, Effect};
use crate::retailer::{catalog_entry, spec_catalog_entry, CatalogEntry, Retailer, CATALOG_SIZE};
use crate::text::{decimal, i128_to_string, signed_decimal, u64_to_string};
use crate::tracker::check_step;

verus! {

/// The least number of days before a bought card expires.
pub const SHELF_DAYS: u32 = 30;

/// The share of face value that a direct sale pays, in hundredths.
pub const DIRECT_SALE_HUNDREDTHS: u64 = 85;

/// The log line for a purchase.
pub open spec fn purchased_line(entry: CatalogEntry, cost: u32) -> Seq<char> {
    "💰 Purchased "@ + entry.retailer.spec_name() + " $"@ + decimal(entry.denomination as nat) + " card for $"@
        + decimal(cost as nat)
}

/// The log line for a purchase that the cash did not cover.
pub open spec fn insufficient_line(entry: CatalogEntry, cost: u32) -> Seq<char> {
    "❌ Insufficient funds for "@ + entry.retailer.spec_name() + " $"@ + decimal(entry.denomination as nat)
        + " (need $"@ + decimal(cost as nat) + ")"@
}

/// The log line for a direct sale.
pub open spec fn sold_line(item: InventoryItem, total: nat, profit: int) -> Seq<char> {
    "💰 Sold "@ + decimal(item.quantity as nat) + "x "@ + item.card.retailer.spec_name() + " $"@ + decimal(
        item.card.denomination as nat,
    ) + " cards for $"@ + decimal(total) + " ("@ + (if profit >= 0 {
        "+"@
    } else {
        ""@
    }) + "$"@ + signed_decimal(profit) + " profit)"@
}

/// The log line for a choice that the player made.
pub open spec fn choice_made_line() -> Seq<char> {
    "✅ Made choice on random event"@
}

/// What a direct sale pays for one card: 85 hundredths of face value,
/// rounded down.
pub open spec fn direct_sale_price(denomination: u32) -> nat {
    (denomination as nat * 85) / 100
}

impl GameData {
    /// The price multiplier for a retailer, temporary modifiers included.
    pub open spec fn spec_market_price(&self, retailer: Retailer) -> Multiplier {
        modifier_product(
            self.random_events.temp_modifiers@,
            Factor::Price,
            self.market_conditions.spec_price_multiplier(retailer),
        )
    }

    /// What the catalog line at `selection` costs now: its base cost times
    /// the price multiplier for its retailer, rounded to the nearest whole.
    pub open spec fn purchase_cost(&self, selection: int) -> u32 {
        let entry = spec_catalog_entry(selection);
        self.spec_market_price(entry.retailer).spec_apply_rounded(entry.base_cost as int)
    }

    /// The card that a purchase of the catalog line at `selection` adds: its
    /// unit cost is what was paid, and it expires in 30 to 89 days.
    pub open spec fn purchased_card(&self, selection: int) -> GiftCard {
        let entry = spec_catalog_entry(selection);
        GiftCard {
            retailer: entry.retailer,
            denomination: entry.denomination,
            purchase_price: self.purchase_cost(selection),
            days_until_expiration: (30 + self.day % 60) as u32,
        }
    }

    /// Whether a purchase of the catalog line at `selection` can be
    /// recorded without a counter passing its limit.
    pub open spec fn purchase_fits(&self, selection: int) -> bool {
        &&& ledger_cards(self.inventory@) + 1 <= u32::MAX
        &&& self.analytics.total_purchases + self.purchase_cost(selection) <= u32::MAX
        &&& self.spec_market_price(spec_catalog_entry(selection).retailer).billionths <= 900_000_000
            ==> self.achievements.favorable_market_purchases < u32::MAX
    }

    /// What a direct sale of the lot at `index` pays.
    pub open spec fn direct_sale_total(&self, index: int) -> nat {
        direct_sale_price(self.inventory@[index].card.denomination) * (self.inventory@[index].quantity as nat)
    }

    /// Whether a direct sale of the lot at `index` can be recorded without
    /// a counter passing its limit.
    pub open spec fn direct_sale_fits(&self, index: int) -> bool {
        &&& self.cash + self.direct_sale_total(index) <= u32::MAX
        &&& self.analytics.total_revenue + self.direct_sale_total(index) <= u32::MAX
        &&& self.analytics.cards_sold + self.inventory@[index].quantity <= u32::MAX
    }

    /// What the catalog line at `selection` costs now.
    pub fn market_price(&self, selection: usize) -> (cost: u32)
        requires
            selection < CATALOG_SIZE,
        ensures
            cost == self.purchase_cost(selection as int),
    {
        let entry = catalog_entry(selection);
        let multiplier = self.market_conditions.get_price_multiplier_with_random_events(
            entry.retailer,
            &self.random_events,
        );
        multiplier.apply_rounded(entry.base_cost)
    }

    /// Whether a purchase of the catalog line at `selection` can be
    /// recorded; true where there is no such line.
    pub fn can_purchase(&self, selection: usize) -> (fits: bool)
        requires
            ledger_cards(self.inventory@) <= u32::MAX,
        ensures
            fits == (selection < CATALOG_SIZE ==> self.purchase_fits(selection as int)),
    {
        if selection >= CATALOG_SIZE {
            return true;
        }
        let entry = catalog_entry(selection);
        let multiplier = self.market_conditions.get_price_multiplier_with_random_events(
            entry.retailer,
            &self.random_events,
        );
        let cost = multiplier.apply_rounded(entry.base_cost);
        let favorable = !multiplier.exceeds_hundredths(90);
        self.inventory_count() < u32::MAX && self.analytics.total_purchases <= u32::MAX - cost && !(favorable
            && self.achievements.favorable_market_purchases == u32::MAX)
    }

    /// Buys one card of the catalog line at `selection` at the market's
    /// price. Returns whether it did. Without such a line nothing changes;
    /// where the cash does not cover the price, only a log line tells so.
    /// Else the price leaves the cash and joins the purchases, the card joins
    /// the inventory, and a price multiplier of 0.9 or less counts towards
    /// the market goal.
    pub fn purchase_from_market(&mut self, selection: usize) -> (bought: bool)
        requires
            old(self).wf(),
            selection < CATALOG_SIZE && old(self).cash >= old(self).purchase_cost(selection as int) ==> old(
                self,
            ).purchase_fits(selection as int),
        ensures
            bought == (selection < CATALOG_SIZE && old(self).cash >= old(self).purchase_cost(selection as int)),
            selection >= CATALOG_SIZE ==> *final(self) == *old(self),
            selection < CATALOG_SIZE && !bought ==> {
                &&& final(self).recent_activities@ == with_entry(
                    old(self).recent_activities@,
                    insufficient_line(spec_catalog_entry(selection as int), old(self).purchase_cost(selection as int)),
                )
                &&& *final(self) == (GameData { recent_activities: final(self).recent_activities, ..*old(self) })
            },
            bought ==> ({
                let entry = spec_catalog_entry(selection as int);
                let cost = old(self).purchase_cost(selection as int);
                let favorable = old(self).spec_market_price(entry.retailer).billionths <= 900_000_000;
                let before = old(self).achievements.unlocks(old(self).recent_activities@);
                let counted = if favorable {
                    check_step(
                        before,
                        AchievementType::MarketMaster,
                        (old(self).achievements.favorable_market_purchases + 1) as u32,
                        old(self).day,
                    )
                } else {
                    before
                };
                &&& final(self).cash == old(self).cash - cost
                &&& final(self).inventory@ == with_purchase(
                    old(self).inventory@,
                    old(self).purchased_card(selection as int),
                    1,
                )
                &&& final(self).analytics == (BusinessAnalytics {
                    total_purchases: (old(self).analytics.total_purchases + cost) as u32,
                    ..old(self).analytics
                })
                &&& final(self).achievements.favorable_market_purchases == old(
                    self,
                ).achievements.favorable_market_purchases + (if favorable {
                    1int
                } else {
                    0int
                })
                &&& final(self).achievements.unlocks(counted.log) == counted
                &&& final(self).recent_activities@ == with_entry(counted.log, purchased_line(entry, cost))
                &&& final(self).achievements.consecutive_perfect_days == old(
                    self,
                ).achievements.consecutive_perfect_days
                &&& final(self).achievements.consecutive_efficiency_days == old(
                    self,
                ).achievements.consecutive_efficiency_days
                &&& final(self).achievements.orders_today == old(self).achievements.orders_today
                &&& final(self).achievements.seasonal_winter_profit == old(self).achievements.seasonal_winter_profit
                &&& final(self).achievements.seasons_survived@ == old(self).achievements.seasons_survived@
                &&& final(self).achievements.events_survived == old(self).achievements.events_survived
                &&& final(self).reputation == old(self).reputation
                &&& final(self).day == old(self).day
                &&& final(self).hour == old(self).hour
                &&& final(self).minute == old(self).minute
                &&& final(self).customer_orders == old(self).customer_orders
                &&& final(self).next_order_id == old(self).next_order_id
                &&& final(self).market_conditions == old(self).market_conditions
                &&& final(self).random_events == old(self).random_events
            }),
            final(self).wf(),
    {
        if selection >= CATALOG_SIZE {
            return false;
        }
        let entry = catalog_entry(selection);
        let multiplier = self.market_conditions.get_price_multiplier_with_random_events(
            entry.retailer,
            &self.random_events,
        );
        let cost = multiplier.apply_rounded(entry.base_cost);
        if !self.spend_money(cost) {
            let mut line = String::from_str("❌ Insufficient funds for ");
            line.append(entry.retailer.name());
            line.append(" $");
            line.append(u64_to_string(entry.denomination as u64).as_str());
            line.append(" (need $");
            line.append(u64_to_string(cost as u64).as_str());
            line.append(")");
            self.recent_activities.record(line);
            return false;
        }
        let card = GiftCard {
            retailer: entry.retailer,
            denomination: entry.denomination,
            purchase_price: cost,
            days_until_expiration: SHELF_DAYS + self.day % 60,
        };
        self.add_to_inventory(card, 1);
        self.analytics.record_purchase(cost);
        self.achievements.record_market_purchase(multiplier, self.day, &mut self.recent_activities);
        let mut line = String::from_str("💰 Purchased ");
        line.append(entry.retailer.name());
        line.append(" $");
        line.append(u64_to_string(entry.denomination as u64).as_str());
        line.append(" card for $");
        line.append(u64_to_string(cost as u64).as_str());
        self.recent_activities.record(line);
        true
    }

    /// Whether a direct sale of the lot at `index` can be recorded; true
    /// where there is no such lot.
    pub fn can_sell(&self, index: usize) -> (fits: bool)
        ensures
            fits == (index < self.inventory@.len() ==> self.direct_sale_fits(index as int)),
    {
        if index >= self.inventory.len() {
            return true;
        }
        let item = &self.inventory[index];
        let unit: u64 = item.card.denomination as u64 * DIRECT_SALE_HUNDREDTHS / 100;
        let quantity: u64 = item.quantity as u64;
        assert(unit * quantity <= 0xffff_ffff * 0xffff_ffff) by (nonlinear_arith)
            requires
                unit <= 0xffff_ffff,
                quantity <= 0xffff_ffff,
        ;
        let total: u64 = unit * quantity;
        let ghost expected = self.direct_sale_total(index as int);
        assert(total == expected) by (nonlinear_arith)
            requires
                total == unit * quantity,
                unit == direct_sale_price(item.card.denomination),
                quantity == item.quantity,
                expected == direct_sale_price(item.card.denomination) * (item.quantity as nat),
        ;
        self.cash as u64 + total <= 0xffff_ffff && self.analytics.total_revenue as u64 + total <= 0xffff_ffff
            && self.analytics.cards_sold as u64 + quantity <= 0xffff_ffff
    }

    /// Sells the whole lot at `index` directly, at 85 hundredths of face
    /// value per card. Returns whether there was such a lot. The payment
    /// joins the cash and the revenue, the cards join the cards sold, and the
    /// lot leaves the inventory; the log tells the profit over what the lot
    /// had cost.
    pub fn sell_inventory_item(&mut self, index: usize) -> (sold: bool)
        requires
            old(self).wf(),
            index < old(self).inventory@.len() ==> old(self).direct_sale_fits(index as int),
        ensures
            sold == (index < old(self).inventory@.len()),
            !sold ==> *final(self) == *old(self),
            sold ==> ({
                let item = old(self).inventory@[index as int];
                let total = old(self).direct_sale_total(index as int);
                &&& final(self).cash == old(self).cash + total
                &&& final(self).analytics == (BusinessAnalytics {
                    cards_sold: (old(self).analytics.cards_sold + item.quantity) as u32,
                    total_revenue: (old(self).analytics.total_revenue + total) as u32,
                    ..old(self).analytics
                })
                &&& final(self).inventory@ == old(self).inventory@.remove(index as int)
                &&& final(self).recent_activities@ == with_entry(
                    old(self).recent_activities@,
                    sold_line(item, total, total - item.spec_total_cost()),
                )
                &&& *final(self) == (GameData {
                    cash: final(self).cash,
                    analytics: final(self).analytics,
                    inventory: final(self).inventory,
                    recent_activities: final(self).recent_activities,
                    ..*old(self)
                })
            }),
            final(self).wf(),
    {
        if index >= self.inventory.len() {
            return false;
        }
        let item = self.inventory[index];
        let unit: u64 = item.card.denomination as u64 * DIRECT_SALE_HUNDREDTHS / 100;
        let quantity: u64 = item.quantity as u64;
        assert(unit * quantity <= 0xffff_ffff * 0xffff_ffff) by (nonlinear_arith)
            requires
                unit <= 0xffff_ffff,
                quantity <= 0xffff_ffff,
        ;
        let total: u64 = unit * quantity;
        let ghost expected = self.direct_sale_total(index as int);
        assert(total == expected) by (nonlinear_arith)
            requires
                total == unit * quantity,
                unit == direct_sale_price(item.card.denomination),
                quantity == item.quantity,
                expected == direct_sale_price(item.card.denomination) * (item.quantity as nat),
        ;
        let profit: i128 = total as i128 - item.total_cost() as i128;
        self.cash = self.cash + total as u32;
        self.analytics.cards_sold = self.analytics.cards_sold + item.quantity;
        self.analytics.total_revenue = self.analytics.total_revenue + total as u32;
        let mut line = String::from_str("💰 Sold ");
        line.append(u64_to_string(quantity).as_str());
        line.append("x ");
        line.append(item.card.retailer.name());
        line.append(" $");
        line.append(u64_to_string(item.card.denomination as u64).as_str());
        line.append(" cards for $");
        line.append(u64_to_string(total).as_str());
        line.append(" (");
        if profit >= 0 {
            line.append("+");
        } else {
            line.append("");
        }
        line.append("$");
        line.append(i128_to_string(profit).as_str());
        line.append(" profit)");
        self.recent_activities.record(line);
        proof {
            lemma_sum_remove(self.inventory@, index as int, Measure::Cards);
        }
        self.inventory.remove(index);
        true
    }

    /// Resolves the active narrative event by the choice at `choice`.
    /// Returns what the choice does to the account, or nothing where no event
    /// is active. The effect is applied, the choice's temporary modifiers
    /// join the list, and the event is gone.
    pub fn handle_random_event_choice(&mut self, choice: usize) -> (effect: Option<Effect>)
        ensures
            effect.is_some() == old(self).random_events.active_event.is_some(),
            effect.is_none() ==> *final(self) == *old(self),
            effect.is_some() ==> ({
                let event_type = old(self).random_events.active_event.unwrap().event_type;
                &&& effect.unwrap() == (Effect {
                    cash: choice_cash(event_type, choice as int),
                    reputation: choice_reputation(event_type, choice as int),
                })
                &&& final(self).cash == cash_after(old(self).cash, effect.unwrap().cash)
                &&& final(self).reputation == reputation_after(old(self).reputation, effect.unwrap().reputation)
                &&& modifier_views(final(self).random_events.temp_modifiers@) == modifier_views(
                    old(self).random_events.temp_modifiers@,
                ) + choice_modifiers(event_type, choice as int)
                &&& final(self).random_events.active_event.is_none()
                &&& !final(self).random_events.player_choice_pending
                &&& final(self).random_events.next_event_in_days == old(self).random_events.next_event_in_days
                &&& final(self).random_events.event_history == old(self).random_events.event_history
                &&& final(self).random_events.choice_deadline == old(self).random_events.choice_deadline
                &&& final(self).recent_activities@ == with_entry(old(self).recent_activities@, choice_made_line())
                &&& *final(self) == (GameData {
                    cash: final(self).cash,
                    reputation: final(self).reputation,
                    random_events: final(self).random_events,
                    recent_activities: final(self).recent_activities,
                    ..*old(self)
                })
            }),
            old(self).wf() ==> final(self).wf(),
    {
        if self.random_events.active_event.is_none() {
            return None;
        }
        let result = self.random_events.make_choice(choice);
        match result {
            Some((cash, reputation, modifiers)) => {
                let effect = Effect { cash, reputation };
                self.apply_effect(effect);
                let mut modifiers = modifiers;
                let ghost added = modifiers@;
                let ghost kept = self.random_events.temp_modifiers@;
                self.random_events.temp_modifiers.append(&mut modifiers);
                assert(modifier_views(self.random_events.temp_modifiers@) =~= modifier_views(kept) + modifier_views(
                    added,
                ));
                self.recent_activities.record(String::from_str("✅ Made choice on random event"));
                Some(effect)
            },
            None => None,
        }
    }
}

} // verus!
