use giftcard_empire::achievement::AchievementType;
use giftcard_empire::game::GameData;
use giftcard_empire::inventory::GiftCard;
use giftcard_empire::order::{CustomerOrder, OrderPriority};
use giftcard_empire::retailer::Retailer;
use giftcard_empire::market::Season;

#[test]
fn test_game_data_initialization() {
    let game_data = GameData::new();

    assert_eq!(game_data.cash, 5000);
    assert_eq!(game_data.reputation, 3);
    assert_eq!(game_data.day, 1);
    assert_eq!(game_data.hour, 9);
    assert_eq!(game_data.minute, 0);
    assert!(!game_data.inventory.is_empty());
    assert!(!game_data.customer_orders.is_empty());
}

#[test]
fn test_purchase_mechanics() {
    let mut game_data = GameData::new();
    let initial_cash = game_data.cash;
    let initial_inventory_count = game_data.inventory.len();

    assert!(game_data.can_afford(100));
    assert!(game_data.spend_money(100));
    assert_eq!(game_data.cash, initial_cash - 100);

    assert!(!game_data.can_afford(10000));
    assert!(!game_data.spend_money(10000));
    assert_eq!(game_data.cash, initial_cash - 100);

    let card = GiftCard::new("TestCard", 25, 20, 30);
    game_data.add_to_inventory(card, 2);
    assert_eq!(game_data.inventory.len(), initial_inventory_count + 1);
}

#[test]
fn test_time_progression() {
    let mut game_data = GameData::new();
    let initial_day = game_data.day;
    let initial_hour = game_data.hour;
    let initial_minute = game_data.minute;

    game_data.advance_time(30);
    assert_eq!(game_data.minute, initial_minute + 30);

    game_data.advance_time(35);
    assert_eq!(game_data.hour, initial_hour + 1);
    assert_eq!(game_data.minute, 5);

    game_data.hour = 23;
    game_data.minute = 50;
    game_data.advance_time(20);
    assert_eq!(game_data.day, initial_day + 1);
    assert_eq!(game_data.hour, 0);
    assert_eq!(game_data.minute, 10);
}

#[test]
fn test_customer_order_system() {
    let mut game_data = GameData::new();
    let initial_order_count = game_data.customer_orders.len();

    game_data.generate_random_order();
    assert_eq!(game_data.customer_orders.len(), initial_order_count + 1);

    if let Some(order) = game_data.customer_orders.back() {
        assert!(order.id >= 1000);
        assert!(!order.customer_name.is_empty());
        assert!(!order.retailer.name().is_empty());
        assert!(order.denomination > 0);
        assert!(order.quantity > 0);
        assert!(order.offered_price_per_card > 0);
        assert!(order.deadline_days > 0);
    }
}

#[test]
fn test_gift_card_pricing() {
    let amazon_card = GiftCard::new("Amazon", 25, 20, 30);
    assert_eq!(amazon_card.market_value(), 32);
    assert_eq!(amazon_card.potential_profit(), 12);

    let starbucks_card = GiftCard::new("Starbucks", 10, 8, 60);
    assert_eq!(starbucks_card.market_value(), 12);
    assert_eq!(starbucks_card.potential_profit(), 4);

    let expiring_card = GiftCard::new("Target", 50, 42, 10);
    assert!(expiring_card.is_expiring_soon());

    let fresh_card = GiftCard::new("iTunes", 15, 12, 30);
    assert!(!fresh_card.is_expiring_soon());
}

#[test]
fn test_order_fulfillment() {
    let mut game_data = GameData::new();
    let initial_cash = game_data.cash;

    let initial_amazon_quantity = game_data
        .inventory
        .iter()
        .find(|item| item.card.retailer == Retailer::from_name("Amazon") && item.card.denomination == 25)
        .map(|item| item.quantity)
        .unwrap_or(0);

    let order = CustomerOrder::new(9999, "TestCustomer", "Amazon", 25, 2, 30, 3, OrderPriority::High);

    game_data.customer_orders.push_back(order.clone());
    let order_count = game_data.customer_orders.len();

    assert!(game_data.can_fulfill_order(&order));

    assert!(game_data.can_settle(order_count - 1));
    assert!(game_data.fulfill_order(order_count - 1));

    assert_eq!(game_data.customer_orders.len(), order_count - 1);
    assert_eq!(game_data.cash, initial_cash + 60);

    let final_amazon_quantity = game_data
        .inventory
        .iter()
        .find(|item| item.card.retailer == Retailer::from_name("Amazon") && item.card.denomination == 25)
        .map(|item| item.quantity)
        .unwrap_or(0);
    assert_eq!(final_amazon_quantity, initial_amazon_quantity - 2);
}

#[test]
fn test_order_fulfillment_failure() {
    let mut game_data = GameData::new();

    let order = CustomerOrder::new(9999, "TestCustomer", "NonExistent", 100, 5, 200, 3, OrderPriority::High);

    game_data.customer_orders.push_back(order.clone());
    let order_count = game_data.customer_orders.len();
    let initial_cash = game_data.cash;

    assert!(!game_data.can_fulfill_order(&order));

    assert!(!game_data.fulfill_order(order_count - 1));

    assert_eq!(game_data.customer_orders.len(), order_count);
    assert_eq!(game_data.cash, initial_cash);
}

#[test]
fn test_reputation_system() {
    let mut game_data = GameData::new();
    let initial_reputation = game_data.reputation;

    game_data.improve_reputation("order_fulfilled");
    assert_eq!(game_data.reputation, initial_reputation + 1);

    game_data.decrease_reputation("order_expired");
    assert_eq!(game_data.reputation, initial_reputation);

    game_data.reputation = 5;
    game_data.improve_reputation("order_fulfilled");
    assert_eq!(game_data.reputation, 5);

    game_data.reputation = 1;
    game_data.decrease_reputation("order_expired");
    assert_eq!(game_data.reputation, 1);

    game_data.reputation = 5;
    assert_eq!(game_data.reputation_description(), "Legendary");
    game_data.reputation = 3;
    assert_eq!(game_data.reputation_description(), "Good");
    game_data.reputation = 1;
    assert_eq!(game_data.reputation_description(), "Poor");
}

#[test]
fn test_reputation_affects_pricing() {
    let mut game_data = GameData::new();

    game_data.reputation = 5;
    let denomination = 25;
    let bonus_5_star = denomination / 3;
    assert_eq!(bonus_5_star, 8);

    game_data.reputation = 3;
    let bonus_3_star = denomination / 5;
    assert_eq!(bonus_3_star, 5);

    game_data.reputation = 1;
    let bonus_1_star = 0;
    assert_eq!(bonus_1_star, 0);
}

#[test]
fn test_analytics_tracking() {
    let mut game_data = GameData::new();
    let initial_purchases = game_data.analytics.total_purchases;
    let initial_revenue = game_data.analytics.total_revenue;

    game_data.analytics.record_purchase(100);
    assert_eq!(game_data.analytics.total_purchases, initial_purchases + 100);

    game_data.analytics.record_sale(150, 100, 2);
    assert_eq!(game_data.analytics.total_revenue, initial_revenue + 150);
    assert_eq!(game_data.analytics.orders_completed, 1);
    assert_eq!(game_data.analytics.cards_sold, 2);

    let total_profit = game_data.analytics.total_profit();
    assert_eq!(total_profit, 150i64 - (initial_purchases + 100) as i64);

    let avg_margin = game_data.analytics.average_profit_margin() as f64 / 100.0;
    assert!(avg_margin > 0.0);
    assert!(avg_margin < 100.0);

    game_data.analytics.record_expired_order();
    assert_eq!(game_data.analytics.orders_expired, 1);

    game_data.analytics.record_expired_cards(3);
    assert_eq!(game_data.analytics.cards_expired, 3);

    let initial_days = game_data.analytics.daily_revenues.len();
    game_data.analytics.start_new_day();
    assert_eq!(game_data.analytics.daily_revenues.len(), initial_days + 1);
}

#[test]
fn test_seasonal_market_system() {
    let mut game_data = GameData::new();

    assert!(matches!(game_data.market_conditions.current_season, Season::Spring));

    game_data.market_conditions.update_season(100);
    assert!(matches!(game_data.market_conditions.current_season, Season::Summer));

    game_data.market_conditions.update_season(200);
    assert!(matches!(game_data.market_conditions.current_season, Season::Fall));

    game_data.market_conditions.update_season(300);
    assert!(matches!(game_data.market_conditions.current_season, Season::Winter));

    let amazon_multiplier =
        game_data.market_conditions.get_price_multiplier(Retailer::from_name("Amazon")).billionths() as f64 / 1e9;
    assert!(amazon_multiplier > 1.0);

    let starbucks_multiplier =
        game_data.market_conditions.get_price_multiplier(Retailer::from_name("Starbucks")).billionths() as f64 / 1e9;
    assert!(starbucks_multiplier > 1.0);

    let demand_multiplier =
        game_data.market_conditions.get_demand_multiplier(Retailer::from_name("Amazon")).billionths() as f64 / 1e9;
    assert!(demand_multiplier > 1.0);

    let initial_events = game_data.market_conditions.active_events.len();
    game_data.market_conditions.generate_random_event(42, &mut game_data.recent_activities);
    assert_eq!(game_data.market_conditions.active_events.len(), initial_events + 1);

    let event = &game_data.market_conditions.active_events[0];
    if let Some(retailer) = &event.retailer_affected {
        let multiplier = game_data.market_conditions.get_price_multiplier(*retailer).billionths() as f64 / 1e9;
        assert_ne!(multiplier, 1.5);
    }
}

#[test]
fn test_achievement_system() {
    let mut game_data = GameData::new();
    let initial_achievements = game_data.achievements.total_unlocked;

    game_data.cash = 10000;
    game_data.achievements.check_cash_achievements(game_data.cash, game_data.day, &mut game_data.recent_activities);
    assert!(game_data.achievements.total_unlocked > initial_achievements);

    game_data.analytics.orders_completed = 1;
    game_data.achievements.check_order_achievements(
        game_data.analytics.orders_completed,
        game_data.reputation,
        game_data.day,
        &mut game_data.recent_activities,
    );

    game_data.reputation = 5;
    game_data.achievements.check_order_achievements(
        0,
        game_data.reputation,
        game_data.day,
        &mut game_data.recent_activities,
    );

    let legendary_unlocked = game_data
        .achievements
        .achievements
        .iter()
        .find(|a| a.achievement_type == AchievementType::LegendaryStatus)
        .map(|a| a.unlocked)
        .unwrap_or(false);
    assert!(legendary_unlocked);

    let total_cards: u32 = game_data.inventory.iter().map(|item| item.quantity).sum();
    assert!(total_cards > 0);

    let in_progress = game_data.achievements.get_in_progress_achievements();
    assert!(!in_progress.is_empty());

    let unlocked = game_data.achievements.get_unlocked_achievements();
    assert!(!unlocked.is_empty());

    let total_rewards = game_data.achievements.calculate_total_rewards();
    assert!(total_rewards > 0);
}
