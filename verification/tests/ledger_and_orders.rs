use giftcard_empire::game::GameData;
use giftcard_empire::inventory::{GiftCard, InventoryItem, Measure};
use giftcard_empire::ledger::{
    add_to_ledger, age_ledger, consume_cards, count_retailers, holds_enough, ledger_is_valid, sum_ledger,
};
use giftcard_empire::market::{MarketConditions, MarketEvent, Season};
use giftcard_empire::multiplier::Multiplier;
use giftcard_empire::order::{age_orders, describe_new_order, generate_order, CustomerOrder, OrderPriority};
use giftcard_empire::retailer::{catalog_entry, Retailer};
use std::collections::VecDeque;

fn lot(retailer: &str, denomination: u32, price: u32, days: u32, quantity: u32) -> InventoryItem {
    InventoryItem::new(GiftCard::new(retailer, denomination, price, days), quantity)
}

#[test]
fn retailer_names_round_trip() {
    for name in ["Amazon", "Starbucks", "Target", "iTunes", "Walmart"] {
        assert_eq!(Retailer::from_name(name).name(), name);
    }
    assert_eq!(Retailer::from_name("Nowhere"), Retailer::Other);
    assert_eq!(Retailer::from_name("amazon"), Retailer::Other);
    assert_eq!(Retailer::from_name(""), Retailer::Other);
    assert_eq!(Retailer::Other.name(), "Other");
    assert_eq!(Retailer::ITunes.index(), 3);
}

#[test]
fn catalog_lines_are_the_five_cards() {
    let expected = [
        (Retailer::Amazon, 25, 20, 50),
        (Retailer::Starbucks, 10, 8, 30),
        (Retailer::Target, 50, 42, 15),
        (Retailer::ITunes, 15, 12, 25),
        (Retailer::Walmart, 20, 17, 40),
    ];
    for (i, (retailer, denomination, base_cost, stock)) in expected.iter().enumerate() {
        let entry = catalog_entry(i);
        assert_eq!(entry.retailer, *retailer);
        assert_eq!(entry.denomination, *denomination);
        assert_eq!(entry.base_cost, *base_cost);
        assert_eq!(entry.stock, *stock);
    }
}

#[test]
fn market_value_uses_each_markup_and_rounds_down() {
    assert_eq!(GiftCard::new("Amazon", 25, 0, 1).market_value(), 32);
    assert_eq!(GiftCard::new("Starbucks", 10, 0, 1).market_value(), 12);
    assert_eq!(GiftCard::new("Target", 50, 0, 1).market_value(), 64);
    assert_eq!(GiftCard::new("iTunes", 15, 0, 1).market_value(), 18);
    assert_eq!(GiftCard::new("Walmart", 20, 0, 1).market_value(), 24);
    assert_eq!(GiftCard::new("Elsewhere", 10, 0, 1).market_value(), 12);
    assert_eq!(GiftCard::new("Amazon", 0, 0, 1).market_value(), 0);
    assert_eq!(GiftCard::new("Amazon", u32::MAX, 0, 1).market_value(), u32::MAX);
}

#[test]
fn potential_profit_can_be_negative() {
    assert_eq!(GiftCard::new("Walmart", 20, 30, 1).potential_profit(), -6);
    assert_eq!(GiftCard::new("Walmart", 0, u32::MAX, 1).potential_profit(), -(u32::MAX as i64));
}

#[test]
fn expiring_soon_turns_at_fifteen_days() {
    assert!(GiftCard::new("Amazon", 25, 20, 15).is_expiring_soon());
    assert!(!GiftCard::new("Amazon", 25, 20, 16).is_expiring_soon());
    assert!(GiftCard::new("Amazon", 25, 20, 0).is_expiring_soon());
}

#[test]
fn lot_totals_are_exact_products() {
    let item = lot("Amazon", 25, 20, 45, 12);
    assert_eq!(item.total_value(), 32 * 12);
    assert_eq!(item.total_cost(), 20 * 12);
    let large = lot("Other", 1, u32::MAX, 1, u32::MAX);
    assert_eq!(large.total_cost(), (u32::MAX as u64) * (u32::MAX as u64));
}

#[test]
fn inventory_value_is_the_sum_over_lots() {
    let game = GameData::new();
    let by_hand: u64 = game.inventory.iter().map(|i| i.card.market_value() as u64 * i.quantity as u64).sum();
    assert_eq!(game.total_inventory_value(), by_hand);
    assert_eq!(game.total_inventory_value(), 32 * 12 + 64 * 8 + 12 * 15 + 18 * 3 + 24 * 6);
    assert_eq!(game.total_inventory_cost(), 20 * 12 + 42 * 8 + 8 * 15 + 12 * 3 + 17 * 6);
    assert_eq!(game.inventory_count(), 44);
    assert_eq!(game.expiring_items_count(), 1);
}

#[test]
fn sums_by_measure() {
    let ledger = vec![lot("Amazon", 25, 20, 1, 4), lot("Amazon", 25, 21, 9, 6), lot("Target", 50, 42, 15, 2)];
    assert_eq!(sum_ledger(&ledger, Measure::Cards), 12);
    assert_eq!(sum_ledger(&ledger, Measure::Matching(Retailer::Amazon, 25)), 10);
    assert_eq!(sum_ledger(&ledger, Measure::Matching(Retailer::Amazon, 50)), 0);
    assert_eq!(sum_ledger(&ledger, Measure::ExpiringCards), 4);
    assert_eq!(sum_ledger(&ledger, Measure::ExpiringCost), 80);
    assert_eq!(sum_ledger(&ledger, Measure::ExpiringSoon), 3);
    assert_eq!(sum_ledger(&Vec::new(), Measure::Value), 0);
}

#[test]
fn fulfillability_spans_lots() {
    let ledger = vec![lot("Amazon", 25, 20, 30, 4), lot("Target", 50, 42, 30, 9), lot("Amazon", 25, 21, 30, 6)];
    assert!(holds_enough(&ledger, Retailer::Amazon, 25, 10));
    assert!(!holds_enough(&ledger, Retailer::Amazon, 25, 11));
    assert!(holds_enough(&ledger, Retailer::Amazon, 25, 0));
    assert!(!holds_enough(&ledger, Retailer::Amazon, 50, 1));
    assert!(holds_enough(&Vec::new(), Retailer::Amazon, 25, 0));
}

#[test]
fn holds_enough_with_huge_lots() {
    let ledger = vec![lot("Amazon", 25, 20, 30, u32::MAX), lot("Amazon", 25, 20, 30, u32::MAX)];
    assert!(holds_enough(&ledger, Retailer::Amazon, 25, u32::MAX));
}

#[test]
fn retailers_are_counted_once() {
    let ledger = vec![lot("Amazon", 25, 20, 30, 4), lot("Amazon", 50, 20, 30, 4), lot("Walmart", 20, 17, 30, 1)];
    assert_eq!(count_retailers(&ledger), 2);
    assert_eq!(count_retailers(&Vec::new()), 0);
    assert_eq!(count_retailers(&GameData::new().inventory), 5);
}

#[test]
fn aging_drops_lots_that_reach_zero_days() {
    let mut ledger = vec![lot("Amazon", 25, 20, 1, 4), lot("Target", 50, 42, 2, 9), lot("iTunes", 15, 12, 0, 3)];
    let (lost_cards, lost_cost) = age_ledger(&mut ledger);
    assert_eq!(lost_cards, 7);
    assert_eq!(lost_cost, 4 * 20 + 3 * 12);
    assert_eq!(ledger, vec![lot("Target", 50, 42, 1, 9)]);
    let (lost_cards, lost_cost) = age_ledger(&mut ledger);
    assert_eq!((lost_cards, lost_cost), (9, 9 * 42));
    assert!(ledger.is_empty());
}

#[test]
fn purchases_merge_by_retailer_value_and_cost() {
    let mut ledger = vec![lot("Amazon", 25, 20, 10, 4), lot("Amazon", 25, 21, 30, 6)];
    add_to_ledger(&mut ledger, GiftCard::new("Amazon", 25, 21, 99), 2);
    assert_eq!(ledger, vec![lot("Amazon", 25, 20, 10, 4), lot("Amazon", 25, 21, 30, 8)]);
    add_to_ledger(&mut ledger, GiftCard::new("Amazon", 25, 22, 99), 1);
    assert_eq!(ledger.len(), 3);
    assert_eq!(ledger[2], lot("Amazon", 25, 22, 99, 1));
    add_to_ledger(&mut ledger, GiftCard::new("Amazon", 25, 20, 1), 5);
    assert_eq!(ledger[0], lot("Amazon", 25, 20, 10, 9));
}

#[test]
fn consumption_goes_lot_by_lot() {
    let start = vec![lot("Amazon", 25, 20, 30, 4), lot("Target", 50, 42, 30, 9), lot("Amazon", 25, 21, 30, 6)];
    let mut ledger = start.clone();
    consume_cards(&mut ledger, Retailer::Amazon, 25, 3);
    assert_eq!(ledger, vec![lot("Amazon", 25, 20, 30, 1), lot("Target", 50, 42, 30, 9), lot("Amazon", 25, 21, 30, 6)]);
    let mut ledger = start.clone();
    consume_cards(&mut ledger, Retailer::Amazon, 25, 4);
    assert_eq!(ledger, vec![lot("Target", 50, 42, 30, 9), lot("Amazon", 25, 21, 30, 6)]);
    let mut ledger = start.clone();
    consume_cards(&mut ledger, Retailer::Amazon, 25, 7);
    assert_eq!(ledger, vec![lot("Target", 50, 42, 30, 9), lot("Amazon", 25, 21, 30, 3)]);
    let mut ledger = start.clone();
    consume_cards(&mut ledger, Retailer::Amazon, 25, 10);
    assert_eq!(ledger, vec![lot("Target", 50, 42, 30, 9)]);
    let mut ledger = start.clone();
    consume_cards(&mut ledger, Retailer::Amazon, 25, 0);
    assert_eq!(ledger, start);
    let mut ledger = start.clone();
    consume_cards(&mut ledger, Retailer::Walmart, 25, 5);
    assert_eq!(ledger, start);
}

#[test]
fn ledger_validity_rejects_empty_lots() {
    assert!(ledger_is_valid(&GameData::new().inventory));
    assert!(ledger_is_valid(&Vec::new()));
    assert!(!ledger_is_valid(&vec![lot("Amazon", 25, 20, 30, 0)]));
    assert!(!ledger_is_valid(&vec![lot("Amazon", 25, 20, 30, u32::MAX), lot("Amazon", 25, 20, 30, 1)]));
    assert!(ledger_is_valid(&vec![lot("Amazon", 25, 20, 30, u32::MAX)]));
}

#[test]
fn every_lot_stays_positive_through_play() {
    let mut game = GameData::new();
    assert!(game.purchase_from_market(0));
    let order = CustomerOrder::new(1, "Ann", "Amazon", 25, 13, 24, 5, OrderPriority::Low);
    game.customer_orders.push_back(order);
    let last = game.customer_orders.len() - 1;
    assert!(game.can_settle(last));
    assert!(game.fulfill_order(last));
    game.hour = 23;
    game.minute = 59;
    game.advance_time(1);
    assert!(game.inventory.iter().all(|item| item.quantity > 0));
    assert!(game.is_valid());
    let by_hand: u64 = game.inventory.iter().map(|i| i.card.market_value() as u64 * i.quantity as u64).sum();
    assert_eq!(game.total_inventory_value(), by_hand);
}

#[test]
fn order_is_drawn_from_day_hour_reputation_and_id() {
    let market = MarketConditions::new();
    let order = generate_order(1, 9, 3, 1000, &market);
    assert_eq!(order.id, 1000);
    assert_eq!(order.retailer, Retailer::Amazon);
    assert_eq!(order.denomination, 25);
    assert_eq!(order.customer_name, "Bob");
    assert_eq!(order.quantity, 2);
    assert_eq!(order.offered_price_per_card, 22);
    assert_eq!(order.deadline_days, 3);
    assert_eq!(order.priority, OrderPriority::Low);
    assert_eq!(describe_new_order(&order), "📋 New order: Bob wants 2 Amazon $25 cards");
}

#[test]
fn order_draw_cycles_through_cards_and_names() {
    let market = MarketConditions::new();
    let expected = [
        (Retailer::Amazon, 25),
        (Retailer::Starbucks, 10),
        (Retailer::Target, 50),
        (Retailer::ITunes, 15),
        (Retailer::Walmart, 20),
    ];
    for hour in 0u8..10 {
        let order = generate_order(5, hour, 3, 3, &market);
        assert_eq!((order.retailer, order.denomination), expected[(5 + hour as usize) % 5]);
    }
    let names = ["Alice", "Bob", "Charlie", "Diana", "Eve", "Frank", "Grace", "Henry"];
    for id in 0u32..16 {
        assert_eq!(generate_order(4, 0, 3, id, &market).customer_name, names[((id + 4) % 8) as usize]);
    }
    let late = generate_order(u32::MAX, 23, 3, u32::MAX, &market);
    assert_eq!(late.retailer, expected[((u32::MAX as u64 + 23) % 5) as usize].0);
    assert_eq!(late.customer_name, names[((u32::MAX as u64 + u32::MAX as u64) % 8) as usize]);
    assert_eq!(late.quantity, 1 + u32::MAX % 5);
    assert_eq!(late.deadline_days, 2 + u32::MAX % 5);
}

#[test]
fn offer_follows_reputation() {
    let market = MarketConditions::new();
    let offers: Vec<u32> = (1u8..=5).map(|r| generate_order(2, 0, r, 1, &market).offered_price_per_card).collect();
    assert_eq!(offers, vec![42, 43, 45, 46, 47]);
    assert_eq!(generate_order(2, 0, 0, 1, &market).offered_price_per_card, 42);
    assert_eq!(generate_order(2, 0, 9, 1, &market).offered_price_per_card, 42);
}

#[test]
fn offer_follows_demand() {
    let mut market = MarketConditions::new();
    market.current_season = Season::Winter;
    market.base_demand_modifier = Multiplier::from_hundredths(140);
    let order = generate_order(1, 9, 3, 1000, &market);
    assert_eq!(order.offered_price_per_card, 23);

    let mut market = MarketConditions::new();
    market.active_events.push(MarketEvent::from_template(5));
    let order = generate_order(1, 9, 3, 1000, &market);
    assert_eq!(order.offered_price_per_card, 21);
    let order = generate_order(1, 9, 1, 1000, &market);
    assert_eq!(order.offered_price_per_card, 20);

    let mut market = MarketConditions::new();
    market.base_demand_modifier = Multiplier::from_hundredths(120);
    assert_eq!(generate_order(1, 9, 3, 1000, &market).offered_price_per_card, 22);
    market.base_demand_modifier = Multiplier::from_hundredths(80);
    assert_eq!(generate_order(1, 9, 3, 1000, &market).offered_price_per_card, 22);
}

#[test]
fn priority_goes_by_offer_over_face_value() {
    assert_eq!(OrderPriority::for_offer(33, 25), OrderPriority::High);
    assert_eq!(OrderPriority::for_offer(32, 25), OrderPriority::Medium);
    assert_eq!(OrderPriority::for_offer(30, 25), OrderPriority::Medium);
    assert_eq!(OrderPriority::for_offer(29, 25), OrderPriority::Low);
    assert_eq!(OrderPriority::for_offer(u32::MAX, u32::MAX), OrderPriority::Low);
    assert_eq!(OrderPriority::High.display(), "High");
    assert_eq!(OrderPriority::Medium.display(), "Medium");
    assert_eq!(OrderPriority::Low.display(), "Low");
}

#[test]
fn order_totals_and_expiry() {
    let order = CustomerOrder::new(7, "Ann", "Target", 50, 3, 45, 0, OrderPriority::Low);
    assert_eq!(order.total_offered(), 135);
    assert!(order.is_expired());
    let order = CustomerOrder::new(7, "Ann", "Target", 50, u32::MAX, u32::MAX, 1, OrderPriority::Low);
    assert_eq!(order.total_offered(), (u32::MAX as u64) * (u32::MAX as u64));
    assert!(!order.is_expired());
}

#[test]
fn order_book_ages_and_drops_expired_orders() {
    let mut orders: VecDeque<CustomerOrder> = VecDeque::new();
    orders.push_back(CustomerOrder::new(1, "A", "Amazon", 25, 1, 22, 1, OrderPriority::Low));
    orders.push_back(CustomerOrder::new(2, "B", "Amazon", 25, 1, 22, 3, OrderPriority::Low));
    orders.push_back(CustomerOrder::new(3, "C", "Amazon", 25, 1, 22, 0, OrderPriority::Low));
    orders.push_back(CustomerOrder::new(4, "D", "Amazon", 25, 1, 22, 2, OrderPriority::Low));
    assert_eq!(age_orders(&mut orders), 2);
    let left: Vec<(u32, u32)> = orders.iter().map(|o| (o.id, o.deadline_days)).collect();
    assert_eq!(left, vec![(2, 2), (4, 1)]);
    assert_eq!(age_orders(&mut orders), 1);
    assert_eq!(orders.len(), 1);
    assert_eq!(orders[0].customer_name, "B");
}

#[test]
fn fulfillment_across_lots_pays_and_logs() {
    let mut game = GameData::new();
    game.inventory = vec![lot("Amazon", 25, 20, 30, 1), lot("Target", 50, 42, 30, 9), lot("Amazon", 25, 23, 30, 5)];
    game.customer_orders.clear();
    game.customer_orders.push_back(CustomerOrder::new(77, "Ann", "Amazon", 25, 3, 24, 1, OrderPriority::Low));
    assert!(game.can_settle(0));
    assert!(game.fulfill_order(0));
    assert_eq!(game.inventory, vec![lot("Target", 50, 42, 30, 9), lot("Amazon", 25, 23, 30, 3)]);
    assert_eq!(game.cash, 5000 + 72);
    assert!(game.customer_orders.is_empty());
    assert_eq!(game.analytics.total_revenue, 72);
    assert_eq!(game.analytics.orders_completed, 1);
    assert_eq!(game.analytics.cards_sold, 3);
    assert_eq!(game.analytics.profit_margins, vec![1666]);
    assert_eq!(game.analytics.daily_revenues, vec![72]);
    assert_eq!(game.analytics.best_day_revenue, 72);
    assert_eq!(game.reputation, 4);
    assert_eq!(game.achievements.orders_today, 1);
    assert_eq!(game.recent_activities.entries[0], "⭐ Reputation improved for excellent service!");
    assert_eq!(
        game.recent_activities.entries[1],
        "✅ Completed order #77: 3 Amazon $25 cards for $72 (profit: $12)"
    );
    assert_eq!(game.recent_activities.entries[2], "🏆 Achievement Unlocked: First Sale (+$100)");
    assert!(game.is_valid());
}

#[test]
fn fast_fulfillment_has_its_own_message() {
    let mut game = GameData::new();
    game.customer_orders.clear();
    game.customer_orders.push_back(CustomerOrder::new(78, "Ann", "Amazon", 25, 1, 20, 2, OrderPriority::Low));
    assert!(game.fulfill_order(0));
    assert_eq!(game.recent_activities.entries[0], "⭐ Reputation boosted for lightning-fast delivery!");
    assert_eq!(
        game.recent_activities.entries[1],
        "✅ Completed order #78: 1 Amazon $25 cards for $20 (profit: $0)"
    );
}

#[test]
fn failed_fulfillment_only_logs() {
    let mut game = GameData::new();
    game.customer_orders.clear();
    game.customer_orders.push_back(CustomerOrder::new(79, "Ann", "Amazon", 25, 13, 20, 2, OrderPriority::Low));
    let inventory = game.inventory.clone();
    assert!(!game.fulfill_order(0));
    assert_eq!(game.inventory, inventory);
    assert_eq!(game.cash, 5000);
    assert_eq!(game.reputation, 3);
    assert_eq!(game.customer_orders.len(), 1);
    assert_eq!(game.analytics.orders_completed, 0);
    assert_eq!(game.recent_activities.entries[0], "❌ Cannot fulfill order #79 - insufficient inventory");
    assert!(!game.fulfill_order(1));
    assert_eq!(game.recent_activities.entries[0], "❌ Cannot fulfill order #79 - insufficient inventory");
    assert_eq!(game.recent_activities.len(), 6);
}

#[test]
fn settlement_limits_are_reported() {
    let mut game = GameData::new();
    game.customer_orders.clear();
    game.customer_orders.push_back(CustomerOrder::new(1, "Ann", "Amazon", 4, 1, 3, 2, OrderPriority::Low));
    game.customer_orders.push_back(CustomerOrder::new(2, "Ann", "Amazon", 25, 2, u32::MAX, 2, OrderPriority::Low));
    game.customer_orders.push_back(CustomerOrder::new(3, "Ann", "Amazon", 25, 2, 30, 2, OrderPriority::Low));
    assert!(!game.can_settle(0));
    assert!(!game.can_settle(1));
    assert!(game.can_settle(2));
    assert!(game.can_settle(3));
    game.cash = u32::MAX - 59;
    assert!(!game.can_settle(2));
    game.cash = u32::MAX - 60;
    assert!(game.can_settle(2));
    game.achievements.orders_today = u32::MAX;
    assert!(!game.can_settle(2));
}
