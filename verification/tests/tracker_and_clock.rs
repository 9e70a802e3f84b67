use giftcard_empire::achievement::{Achievement, AchievementType};
use giftcard_empire::activity::ActivityLog;
use giftcard_empire::analytics::{profit_margin, BusinessAnalytics};
use giftcard_empire::clock::StateError;
use giftcard_empire::game::GameData;
use giftcard_empire::inventory::{GiftCard, InventoryItem};
use giftcard_empire::market::{MarketEvent, Season};
use giftcard_empire::multiplier::Multiplier;
use giftcard_empire::order::{CustomerOrder, OrderPriority};
use giftcard_empire::random_event::TempModifier;
use giftcard_empire::retailer::Retailer;
use giftcard_empire::sound::SoundEffects;
use giftcard_empire::text::{i128_to_string, i64_to_string, two_digit_string, u128_to_string, u64_to_string};
use giftcard_empire::tracker::AchievementTracker;

fn goal(tracker: &AchievementTracker, kind: AchievementType) -> &Achievement {
    tracker.achievements.iter().find(|a| a.achievement_type == kind).unwrap()
}

#[test]
fn decimal_rendering() {
    assert_eq!(u64_to_string(0), "0");
    assert_eq!(u64_to_string(7), "7");
    assert_eq!(u64_to_string(10), "10");
    assert_eq!(u64_to_string(12345), "12345");
    assert_eq!(u64_to_string(u64::MAX), "18446744073709551615");
    assert_eq!(u128_to_string(u128::MAX), "340282366920938463463374607431768211455");
    assert_eq!(i64_to_string(-5), "-5");
    assert_eq!(i64_to_string(0), "0");
    assert_eq!(i64_to_string(i64::MIN), "-9223372036854775808");
    assert_eq!(i64_to_string(i64::MAX), "9223372036854775807");
    assert_eq!(i128_to_string(i128::MIN), "-170141183460469231731687303715884105728");
    assert_eq!(two_digit_string(5), "05");
    assert_eq!(two_digit_string(0), "00");
    assert_eq!(two_digit_string(59), "59");
    assert_eq!(two_digit_string(123), "123");
}

#[test]
fn log_keeps_the_ten_newest_messages() {
    let mut log = ActivityLog::new();
    assert!(log.is_empty());
    for i in 0..25u64 {
        log.record(u64_to_string(i));
        assert!(log.len() <= 10);
        assert_eq!(log.entries[0], u64_to_string(i));
        assert!(log.is_valid());
    }
    let expected: Vec<String> = (15..25u64).rev().map(u64_to_string).collect();
    assert_eq!(log.entries, expected);
}

#[test]
fn log_shrinks_to_ten_when_it_was_longer() {
    let mut log = ActivityLog { entries: (0..14u64).map(u64_to_string).collect() };
    assert!(!log.is_valid());
    log.record(String::from("new"));
    assert_eq!(log.len(), 10);
    assert_eq!(log.entries[0], "new");
    assert_eq!(log.entries[9], "8");
}

#[test]
fn log_never_exceeds_ten_in_play() {
    let mut game = GameData::new();
    for step in 0..40usize {
        assert!(game.can_purchase(step % 6));
        game.purchase_from_market(step % 6);
        assert!(game.recent_activities.len() <= 10);
        game.fulfill_order(0);
        assert!(game.recent_activities.len() <= 10);
        if game.can_advance(240) {
            game.advance_time(240);
        }
        assert!(game.recent_activities.len() <= 10);
        assert!(game.is_valid());
    }
    assert!(game.day > 1);
}

#[test]
fn sound_switch() {
    let mut sound = SoundEffects::new();
    assert!(sound.is_enabled());
    sound.toggle();
    assert!(!sound.is_enabled());
    sound.toggle();
    assert!(sound.is_enabled());
}

#[test]
fn profit_margins_in_basis_points() {
    assert_eq!(profit_margin(150, 100), 3333);
    assert_eq!(profit_margin(100, 100), 0);
    assert_eq!(profit_margin(100, 150), -5000);
    assert_eq!(profit_margin(3, 4), -3333);
    assert_eq!(profit_margin(1, u32::MAX), -42_949_672_940_000);
    assert_eq!(profit_margin(u32::MAX, 0), 10_000);
}

#[test]
fn sales_feed_counters_margins_and_days() {
    let mut analytics = BusinessAnalytics::new();
    analytics.record_sale(150, 100, 2);
    analytics.record_sale(0, 10, 1);
    analytics.record_sale(50, 100, 3);
    assert_eq!(analytics.total_revenue, 200);
    assert_eq!(analytics.orders_completed, 3);
    assert_eq!(analytics.cards_sold, 6);
    assert_eq!(analytics.profit_margins, vec![3333, -10000]);
    assert_eq!(analytics.average_profit_margin(), -3333);
    assert_eq!(analytics.daily_revenues, vec![200]);
    assert_eq!(analytics.best_day_revenue, 200);
    analytics.start_new_day();
    analytics.record_sale(120, 100, 1);
    assert_eq!(analytics.daily_revenues, vec![200, 120]);
    assert_eq!(analytics.best_day_revenue, 200);
    analytics.record_sale(90, 100, 1);
    assert_eq!(analytics.best_day_revenue, 210);
    analytics.record_purchase(500);
    assert_eq!(analytics.total_profit(), 410 - 500);
    assert!(analytics.can_record_sale(u32::MAX - 410, 0));
    assert!(!analytics.can_record_sale(u32::MAX - 409, 0));
    assert!(!analytics.can_record_sale(0, u32::MAX - 7));
}

#[test]
fn average_margin_without_sales_is_zero() {
    assert_eq!(BusinessAnalytics::new().average_profit_margin(), 0);
    let mut analytics = BusinessAnalytics::new();
    analytics.profit_margins = vec![i64::MIN, i64::MIN];
    assert_eq!(analytics.average_profit_margin(), i64::MIN);
    analytics.profit_margins = vec![i64::MAX, i64::MAX, i64::MAX];
    assert_eq!(analytics.average_profit_margin(), i64::MAX);
    analytics.profit_margins = vec![5, -6];
    assert_eq!(analytics.average_profit_margin(), 0);
    analytics.profit_margins = vec![5, -8];
    assert_eq!(analytics.average_profit_margin(), -1);
}

#[test]
fn revenue_window_keeps_thirty_days() {
    let mut analytics = BusinessAnalytics::new();
    for day in 0..40u32 {
        analytics.record_sale(day, 0, 0);
        analytics.start_new_day();
        assert!(analytics.daily_revenues.len() <= 30);
        assert!(analytics.is_valid());
    }
    assert_eq!(analytics.daily_revenues.len(), 30);
    assert_eq!(analytics.daily_revenues[0], 11);
    assert_eq!(analytics.daily_revenues[29], 0);
}

#[test]
fn recent_daily_average_in_hundredths() {
    let mut analytics = BusinessAnalytics::new();
    assert_eq!(analytics.recent_daily_average(), 0);
    analytics.daily_revenues = vec![10, 20];
    assert_eq!(analytics.recent_daily_average(), 1500);
    analytics.daily_revenues = vec![1000, 1, 2, 3, 4, 5, 6, 8];
    assert_eq!(analytics.recent_daily_average(), 414);
    analytics.daily_revenues = vec![u32::MAX; 9];
    assert_eq!(analytics.recent_daily_average(), u32::MAX as u64 * 100);
}

#[test]
fn catalog_has_eighteen_locked_goals() {
    let tracker = AchievementTracker::new();
    assert_eq!(tracker.achievements.len(), 18);
    assert!(tracker.achievements.iter().all(|a| !a.unlocked && a.progress == 0 && a.unlock_date.is_none()));
    let first = &tracker.achievements[0];
    assert_eq!((first.name.as_str(), first.target, first.reward_cash), ("First Sale", 1, 100));
    let millionaire = goal(&tracker, AchievementType::Millionaire);
    assert_eq!((millionaire.target, millionaire.reward_cash), (1_000_000, 50_000));
    let last = &tracker.achievements[17];
    assert_eq!((last.achievement_type, last.target, last.reward_cash), (AchievementType::QuickTurnaround, 1, 1500));
    assert_eq!(tracker.calculate_total_rewards(), 0);
    assert!(tracker.get_unlocked_achievements().is_empty());
    assert!(tracker.get_in_progress_achievements().is_empty());
    assert!(tracker.is_valid());
}

#[test]
fn unlocked_goal_never_falls_back() {
    let mut tracker = AchievementTracker::new();
    let mut log = ActivityLog::new();
    tracker.check_and_unlock(&AchievementType::Entrepreneur, 4000, 3, &mut log);
    assert_eq!(goal(&tracker, AchievementType::Entrepreneur).progress, 4000);
    tracker.check_and_unlock(&AchievementType::Entrepreneur, 100, 4, &mut log);
    assert_eq!(goal(&tracker, AchievementType::Entrepreneur).progress, 4000);
    assert!(!goal(&tracker, AchievementType::Entrepreneur).unlocked);
    assert!(log.is_empty());
    tracker.check_and_unlock(&AchievementType::Entrepreneur, 12000, 5, &mut log);
    let unlocked = goal(&tracker, AchievementType::Entrepreneur);
    assert!(unlocked.unlocked);
    assert_eq!(unlocked.unlock_date, Some(5));
    assert_eq!(unlocked.progress, 12000);
    assert_eq!(tracker.total_unlocked, 1);
    assert_eq!(log.entries, vec!["🏆 Achievement Unlocked: Entrepreneur (+$1000)"]);
    tracker.check_and_unlock(&AchievementType::Entrepreneur, 0, 9, &mut log);
    tracker.check_and_unlock(&AchievementType::Entrepreneur, 99999, 9, &mut log);
    let still = goal(&tracker, AchievementType::Entrepreneur);
    assert!(still.unlocked);
    assert_eq!(still.unlock_date, Some(5));
    assert_eq!(still.progress, 12000);
    assert_eq!(tracker.total_unlocked, 1);
    assert_eq!(log.len(), 1);
    assert_eq!(tracker.get_recent_unlock(), Some(String::from("Entrepreneur")));
    assert_eq!(tracker.get_recent_unlock(), None);
    assert_eq!(tracker.calculate_total_rewards(), 1000);
    assert!(tracker.is_valid());
}

#[test]
fn goal_reports_and_unlocks() {
    let mut a = Achievement::new(AchievementType::Collector, "Collector", "Own 100+ gift cards simultaneously", 100, 2000);
    assert_eq!(a.progress_percentage(), 0);
    assert!(!a.update_progress(40));
    assert_eq!(a.progress_percentage(), 4000);
    assert!(!a.update_progress(10));
    assert_eq!(a.progress, 40);
    assert!(a.update_progress(100));
    assert!(a.unlocked);
    assert_eq!(a.progress_percentage(), 10_000);
    assert!(!a.update_progress(5));
    assert_eq!(a.progress, 100);
    assert!(a.unlocked);
    a.unlock(9);
    assert_eq!(a.unlock_date, None);
    let mut b = Achievement::new(AchievementType::FirstSale, "First Sale", "x", 0, 1);
    assert_eq!(b.progress_percentage(), 0);
    b.unlock(3);
    assert_eq!((b.unlocked, b.unlock_date), (true, Some(3)));
    b.unlock(4);
    assert_eq!(b.unlock_date, Some(3));
    let mut c = Achievement::new(AchievementType::FirstSale, "First Sale", "x", 3, 1);
    c.progress = 1;
    assert_eq!(c.progress_percentage(), 3333);
}

#[test]
fn fifth_order_of_a_day_unlocks_the_speed_goal() {
    let mut tracker = AchievementTracker::new();
    for _ in 0..4 {
        tracker.record_order_completion(6);
    }
    assert!(!goal(&tracker, AchievementType::SpeedDemon).unlocked);
    tracker.record_order_completion(6);
    let speed = goal(&tracker, AchievementType::SpeedDemon);
    assert!(speed.unlocked);
    assert_eq!(speed.unlock_date, Some(6));
    assert_eq!(speed.progress, 0);
    assert_eq!(tracker.total_unlocked, 1);
    assert_eq!(tracker.recent_unlock.as_deref(), Some("Speed Demon"));
    tracker.record_order_completion(7);
    assert_eq!(tracker.total_unlocked, 1);
    assert_eq!(tracker.orders_today, 6);
    assert!(tracker.is_valid());
}

#[test]
fn streaks_grow_and_break() {
    let mut tracker = AchievementTracker::new();
    let mut analytics = BusinessAnalytics::new();
    tracker.process_daily_achievements(0, 0, &analytics, 1);
    assert_eq!((tracker.consecutive_perfect_days, tracker.consecutive_efficiency_days), (0, 0));
    analytics.orders_completed = 9;
    analytics.orders_expired = 1;
    for day in 1..=6u32 {
        tracker.orders_today = 3;
        tracker.process_daily_achievements(2, 0, &analytics, day);
        assert_eq!(tracker.consecutive_perfect_days, day);
        assert_eq!(tracker.consecutive_efficiency_days, day);
        assert_eq!(tracker.orders_today, 0);
    }
    assert!(!goal(&tracker, AchievementType::PerfectWeek).unlocked);
    tracker.process_daily_achievements(1, 0, &analytics, 7);
    assert_eq!(goal(&tracker, AchievementType::PerfectWeek).unlock_date, Some(7));
    tracker.process_daily_achievements(1, 1, &analytics, 8);
    assert_eq!(tracker.consecutive_perfect_days, 0);
    assert_eq!(tracker.consecutive_efficiency_days, 8);
    analytics.orders_expired = 2;
    tracker.process_daily_achievements(1, 0, &analytics, 9);
    assert_eq!(tracker.consecutive_efficiency_days, 0);
    assert_eq!(tracker.consecutive_perfect_days, 1);
    analytics.orders_expired = 1;
    tracker.consecutive_efficiency_days = 29;
    tracker.process_daily_achievements(0, 0, &analytics, 10);
    assert_eq!(goal(&tracker, AchievementType::Efficiency).unlock_date, Some(10));
    assert_eq!(tracker.total_unlocked, 2);
    assert_eq!(tracker.recent_unlock.as_deref(), Some("Efficiency Expert"));
}

#[test]
fn favorable_purchases_count_towards_the_market_goal() {
    let mut tracker = AchievementTracker::new();
    let mut log = ActivityLog::new();
    tracker.record_market_purchase(Multiplier::from_hundredths(91), 1, &mut log);
    assert_eq!(tracker.favorable_market_purchases, 0);
    for n in 1..=5u32 {
        tracker.record_market_purchase(Multiplier::from_hundredths(90), 2, &mut log);
        assert_eq!(tracker.favorable_market_purchases, n);
        assert_eq!(goal(&tracker, AchievementType::MarketMaster).progress, n);
    }
    assert!(goal(&tracker, AchievementType::MarketMaster).unlocked);
    assert_eq!(log.entries, vec!["🏆 Achievement Unlocked: Market Master (+$2500)"]);
}

#[test]
fn survived_events_count_towards_the_survivor_goal() {
    let mut tracker = AchievementTracker::new();
    let mut log = ActivityLog::new();
    for n in 1..=10u32 {
        tracker.record_event_survival(n, &mut log);
        assert_eq!(tracker.events_survived, n);
    }
    assert_eq!(goal(&tracker, AchievementType::EventSurvivor).unlock_date, Some(10));
}

#[test]
fn seasons_are_noted_once() {
    let mut tracker = AchievementTracker::new();
    let mut log = ActivityLog::new();
    tracker.check_seasonal_achievements(&Season::Spring, 0, 1, &mut log);
    tracker.check_seasonal_achievements(&Season::Spring, 0, 2, &mut log);
    tracker.check_seasonal_achievements(&Season::Summer, 9000, 91, &mut log);
    assert_eq!(tracker.seasons_survived, vec![Season::Spring, Season::Summer]);
    assert_eq!(goal(&tracker, AchievementType::SeasonVeteran).progress, 2);
    assert_eq!(goal(&tracker, AchievementType::WinterWinner).progress, 0);
    tracker.check_seasonal_achievements(&Season::Winter, 4999, 271, &mut log);
    assert!(!goal(&tracker, AchievementType::WinterWinner).unlocked);
    assert_eq!(goal(&tracker, AchievementType::WinterWinner).progress, 0);
    tracker.check_seasonal_achievements(&Season::Fall, -3, 181, &mut log);
    assert!(goal(&tracker, AchievementType::SeasonVeteran).unlocked);
    tracker.check_seasonal_achievements(&Season::Winter, 5000, 272, &mut log);
    assert!(goal(&tracker, AchievementType::WinterWinner).unlocked);
    assert_eq!(tracker.seasons_survived.len(), 4);
    assert_eq!(
        log.entries,
        vec!["🏆 Achievement Unlocked: Winter Winner (+$2000)", "🏆 Achievement Unlocked: Season Veteran (+$3000)"]
    );
    assert!(tracker.is_valid());
}

#[test]
fn tracker_validity() {
    let mut tracker = AchievementTracker::new();
    tracker.total_unlocked = 1;
    assert!(!tracker.is_valid());
    tracker.achievements[4].unlocked = true;
    assert!(tracker.is_valid());
    tracker.seasons_survived = vec![Season::Fall, Season::Spring, Season::Fall];
    assert!(!tracker.is_valid());
    tracker.seasons_survived = vec![Season::Fall, Season::Spring, Season::Winter, Season::Summer];
    assert!(tracker.is_valid());
    tracker.seasons_survived.push(Season::Summer);
    assert!(!tracker.is_valid());
}

#[test]
fn new_game_log_and_orders() {
    let game = GameData::new();
    assert_eq!(
        game.recent_activities.entries,
        vec![
            "📋 New order: Charlie wants 2 Amazon $25 cards",
            "📋 New order: Bob wants 2 Amazon $25 cards",
            "Welcome to Gift Card Empire!",
            "Starting with $5,000 capital",
            "Visit the Market to buy your first cards",
        ]
    );
    let ids: Vec<u32> = game.customer_orders.iter().map(|o| o.id).collect();
    assert_eq!(ids, vec![1000, 1001]);
    assert_eq!(game.next_order_id, 1002);
    assert_eq!(game.inventory.len(), 5);
    assert_eq!(game.inventory[1], InventoryItem::new(GiftCard::new("Target", 50, 42, 30), 8));
    assert_eq!(game.market_conditions.next_event_in_days, 4);
    assert_eq!(game.random_events.next_event_in_days, 4);
    assert!(game.is_valid());
    assert!(game.ready_for_day());
}

#[test]
fn displays_of_time_and_reputation() {
    let mut game = GameData::new();
    assert_eq!(game.time_display(), "9:00 AM");
    assert_eq!(game.reputation_stars(), "★★★☆☆");
    game.hour = 0;
    game.minute = 5;
    assert_eq!(game.time_display(), "12:05 AM");
    game.hour = 12;
    game.minute = 0;
    assert_eq!(game.time_display(), "12:00 PM");
    game.hour = 13;
    game.minute = 30;
    assert_eq!(game.time_display(), "1:30 PM");
    game.hour = 23;
    game.minute = 59;
    assert_eq!(game.time_display(), "11:59 PM");
    game.reputation = 5;
    assert_eq!(game.reputation_stars(), "★★★★★");
    game.reputation = 0;
    assert_eq!(game.reputation_stars(), "☆☆☆☆☆");
    assert_eq!(game.reputation_description(), "Unknown");
    game.reputation = 4;
    assert_eq!(game.reputation_description(), "Excellent");
    game.reputation = 2;
    assert_eq!(game.reputation_description(), "Fair");
}

#[test]
fn clock_carries_minutes_and_hours() {
    let mut game = GameData::new();
    game.advance_time(255);
    assert_eq!((game.day, game.hour, game.minute), (1, 13, 15));
    game.minute = 59;
    game.advance_time(1);
    assert_eq!((game.day, game.hour, game.minute), (1, 14, 0));
    game.minute = 59;
    game.advance_time(255);
    assert_eq!((game.day, game.hour, game.minute), (1, 19, 14));
    game.advance_time(0);
    assert_eq!((game.day, game.hour, game.minute), (1, 19, 14));
    game.hour = 23;
    game.minute = 59;
    game.advance_time(255);
    assert_eq!((game.day, game.hour, game.minute), (2, 4, 14));
}

#[test]
fn first_new_day() {
    let mut game = GameData::new();
    game.hour = 23;
    game.minute = 50;
    game.advance_time(20);
    assert_eq!((game.day, game.hour, game.minute), (2, 0, 10));
    let days: Vec<u32> = game.inventory.iter().map(|i| i.card.days_until_expiration).collect();
    assert_eq!(days, vec![44, 29, 119, 14, 59]);
    let orders: Vec<(u32, u32)> = game.customer_orders.iter().map(|o| (o.id, o.deadline_days)).collect();
    assert_eq!(orders, vec![(1000, 2), (1001, 2), (1002, 4)]);
    let drawn = &game.customer_orders[2];
    assert_eq!(drawn.customer_name, "Eve");
    assert_eq!((drawn.retailer, drawn.denomination, drawn.quantity), (Retailer::Target, 50, 3));
    assert_eq!(drawn.offered_price_per_card, 45);
    assert_eq!(game.next_order_id, 1003);
    assert_eq!(game.analytics.daily_revenues, vec![0, 0]);
    assert_eq!(game.market_conditions.next_event_in_days, 3);
    assert_eq!(game.random_events.next_event_in_days, 3);
    assert_eq!(game.achievements.seasons_survived, vec![Season::Spring]);
    assert_eq!(goal(&game.achievements, AchievementType::Entrepreneur).progress, 5000);
    assert_eq!(goal(&game.achievements, AchievementType::Collector).progress, 44);
    assert_eq!(goal(&game.achievements, AchievementType::DiversifiedPortfolio).unlock_date, Some(2));
    assert_eq!(game.achievements.total_unlocked, 1);
    assert_eq!((game.cash, game.reputation), (5000, 3));
    assert_eq!(
        &game.recent_activities.entries[..3],
        &[
            "🌅 Day 2 begins (Spring season)",
            "🏆 Achievement Unlocked: Diversified Portfolio (+$1000)",
            "📋 New order: Eve wants 3 Target $50 cards"
        ]
    );
    assert!(game.is_valid());
}

#[test]
fn expired_cards_and_orders_are_counted_and_cost_stars() {
    let mut game = GameData::new();
    game.inventory[0].card.days_until_expiration = 1;
    game.inventory[3].card.days_until_expiration = 1;
    game.customer_orders.clear();
    for id in 0..4u32 {
        game.customer_orders.push_back(CustomerOrder::new(id, "Ann", "Amazon", 25, 1, 22, 1, OrderPriority::Low));
    }
    game.day = 2;
    game.hour = 23;
    game.minute = 59;
    assert!(game.ready_for_day());
    game.advance_time(1);
    assert_eq!(game.day, 3);
    assert_eq!(game.inventory.len(), 3);
    assert_eq!(game.analytics.cards_expired, 15);
    assert_eq!(game.analytics.orders_expired, 4);
    assert_eq!(game.reputation, 1);
    assert!(game.customer_orders.is_empty());
    assert_eq!(game.achievements.consecutive_efficiency_days, 0);
    assert_eq!(
        game.recent_activities.entries,
        vec![
            "🌅 Day 3 begins (Spring season)",
            "💔 Reputation damaged - customers disappointed by expired orders",
            "💔 Reputation damaged - customers disappointed by expired orders",
            "⏰ 4 customer orders expired",
            "❌ Lost 15 cards worth $276 to expiration",
            "📋 New order: Charlie wants 2 Amazon $25 cards",
            "📋 New order: Bob wants 2 Amazon $25 cards",
            "Welcome to Gift Card Empire!",
            "Starting with $5,000 capital",
            "Visit the Market to buy your first cards",
        ]
    );
}

#[test]
fn order_chance_by_reputation_and_market() {
    for (reputation, day, due) in [
        (5u8, 7u32, true),
        (4, 7, false),
        (4, 8, true),
        (3, 8, true),
        (3, 9, false),
        (2, 9, true),
        (2, 10, false),
        (1, 12, true),
        (1, 10, false),
    ] {
        let mut game = GameData::new();
        game.customer_orders.clear();
        game.reputation = reputation;
        game.day = day;
        game.process_order_aging();
        assert_eq!(game.customer_orders.len(), due as usize, "reputation {} day {}", reputation, day);
    }
    let mut game = GameData::new();
    game.customer_orders.clear();
    game.reputation = 1;
    game.day = 9;
    game.market_conditions.base_demand_modifier = Multiplier::from_hundredths(110);
    game.process_order_aging();
    assert_eq!(game.customer_orders.len(), 1);
    let mut game = GameData::new();
    game.customer_orders.clear();
    game.reputation = 1;
    game.day = 9;
    game.market_conditions.base_demand_modifier = Multiplier::from_hundredths(100);
    game.process_order_aging();
    assert_eq!(game.customer_orders.len(), 0);
}

#[test]
fn automatic_event_reaches_the_account_on_its_day() {
    let mut game = GameData::new();
    game.random_events.next_event_in_days = 0;
    game.day = 14;
    game.hour = 23;
    game.minute = 50;
    game.advance_time(20);
    assert_eq!(game.day, 15);
    assert_eq!(game.cash, 7000);
    assert_eq!(game.reputation, 4);
    assert_eq!(game.random_events.next_event_in_days, 8);
    assert_eq!(game.recent_activities.entries[0], "🌅 Day 15 begins (Spring season)");
    assert_eq!(game.recent_activities.entries[1], "🎲 Random event: Loyal Customer Returns");
}

#[test]
fn season_turns_with_the_day() {
    let mut game = GameData::new();
    game.day = 270;
    game.hour = 23;
    game.minute = 59;
    game.advance_time(1);
    assert_eq!(game.market_conditions.current_season, Season::Winter);
    assert_eq!(game.market_conditions.base_demand_modifier, Multiplier::from_hundredths(140));
    assert_eq!(game.recent_activities.entries[0], "🌅 Day 271 begins (Winter season)");
    assert_eq!(game.achievements.seasons_survived, vec![Season::Winter]);
    assert_eq!(game.market_price(0), 30);
    assert_eq!(game.market_price(1), 10);
    assert_eq!(game.market_price(2), 50);
    assert_eq!(game.market_price(3), 17);
    assert_eq!(game.market_price(4), 20);
}

#[test]
fn purchase_pays_the_market_price() {
    let mut game = GameData::new();
    assert_eq!(game.market_price(0), 20);
    assert!(game.can_purchase(0));
    assert!(game.purchase_from_market(0));
    assert_eq!(game.cash, 4980);
    assert_eq!(game.inventory.len(), 5);
    assert_eq!(game.inventory[0].quantity, 13);
    assert_eq!(game.inventory[0].card.days_until_expiration, 45);
    assert_eq!(game.analytics.total_purchases, 20);
    assert_eq!(game.achievements.favorable_market_purchases, 0);
    assert_eq!(game.recent_activities.entries[0], "💰 Purchased Amazon $25 card for $20");

    game.market_conditions.active_events.push(MarketEvent::from_template(2));
    game.day = 75;
    assert_eq!(game.market_price(2), 55);
    assert!(game.purchase_from_market(2));
    assert_eq!(game.cash, 4925);
    assert_eq!(game.inventory.len(), 6);
    assert_eq!(game.inventory[5], InventoryItem::new(GiftCard::new("Target", 50, 55, 45), 1));
    assert_eq!(game.recent_activities.entries[0], "💰 Purchased Target $50 card for $55");
    assert!(game.is_valid());
}

#[test]
fn purchase_in_a_favorable_market_counts() {
    let mut game = GameData::new();
    game.random_events.temp_modifiers.push(TempModifier::new("Business Partnership", "x", 90, 100, 14));
    assert_eq!(game.market_price(0), 18);
    assert!(game.purchase_from_market(0));
    assert_eq!(game.cash, 4982);
    assert_eq!(game.inventory.len(), 6);
    assert_eq!(game.inventory[5].card.purchase_price, 18);
    assert_eq!(game.achievements.favorable_market_purchases, 1);
    assert_eq!(goal(&game.achievements, AchievementType::MarketMaster).progress, 1);
}

#[test]
fn purchase_without_funds_only_logs() {
    let mut game = GameData::new();
    game.cash = 41;
    assert!(!game.purchase_from_market(2));
    assert_eq!(game.cash, 41);
    assert_eq!(game.inventory.len(), 5);
    assert_eq!(game.inventory_count(), 44);
    assert_eq!(game.analytics.total_purchases, 0);
    assert_eq!(game.recent_activities.entries[0], "❌ Insufficient funds for Target $50 (need $42)");
    game.cash = 42;
    assert!(game.purchase_from_market(2));
    assert_eq!(game.cash, 0);
    let lines = game.recent_activities.len();
    assert!(!game.purchase_from_market(5));
    assert!(!game.purchase_from_market(usize::MAX));
    assert_eq!(game.recent_activities.len(), lines);
}

#[test]
fn direct_sale_pays_eighty_five_hundredths() {
    let mut game = GameData::new();
    assert!(game.can_sell(0));
    assert!(game.sell_inventory_item(0));
    assert_eq!(game.cash, 5252);
    assert_eq!(game.inventory.len(), 4);
    assert_eq!(game.inventory[0].card.retailer, Retailer::Target);
    assert_eq!(game.analytics.cards_sold, 12);
    assert_eq!(game.analytics.total_revenue, 252);
    assert_eq!(game.analytics.orders_completed, 0);
    assert!(game.analytics.profit_margins.is_empty());
    assert_eq!(game.analytics.daily_revenues, vec![0]);
    assert_eq!(game.recent_activities.entries[0], "💰 Sold 12x Amazon $25 cards for $252 (+$12 profit)");
    assert!(game.sell_inventory_item(1));
    assert_eq!(game.recent_activities.entries[0], "💰 Sold 15x Starbucks $10 cards for $120 (+$0 profit)");
    game.inventory[0].card.purchase_price = 43;
    assert!(game.sell_inventory_item(0));
    assert_eq!(game.recent_activities.entries[0], "💰 Sold 8x Target $50 cards for $336 ($-8 profit)");
    assert!(!game.sell_inventory_item(2));
    assert_eq!(game.inventory.len(), 2);
    assert_eq!(game.cash, 5252 + 120 + 336);
    assert!(game.is_valid());
}

#[test]
fn sale_limits_are_reported() {
    let mut game = GameData::new();
    game.cash = u32::MAX - 251;
    assert!(!game.can_sell(0));
    game.cash = u32::MAX - 252;
    assert!(game.can_sell(0));
    assert!(game.can_sell(99));
    game.analytics.cards_sold = u32::MAX - 11;
    assert!(!game.can_sell(0));
}

#[test]
fn state_validity() {
    let mut game = GameData::new();
    assert!(game.is_valid());
    game.reputation = 0;
    assert!(!game.is_valid());
    game.reputation = 6;
    assert!(!game.is_valid());
    game.reputation = 5;
    game.day = 0;
    assert!(!game.is_valid());
    game.day = 1;
    game.hour = 24;
    assert!(!game.is_valid());
    game.hour = 0;
    game.minute = 60;
    assert!(!game.is_valid());
    game.minute = 0;
    game.inventory[2].quantity = 0;
    assert!(!game.is_valid());
    game.inventory[2].quantity = 1;
    game.analytics.daily_revenues.clear();
    assert!(!game.is_valid());
    game.analytics.daily_revenues = vec![0; 31];
    assert!(!game.is_valid());
    game.analytics.daily_revenues = vec![0; 30];
    assert!(game.is_valid());
    for i in 0..11u64 {
        game.recent_activities.entries.push(u64_to_string(i));
    }
    assert!(!game.is_valid());
}

#[test]
fn room_for_a_day_is_reported() {
    let mut game = GameData::new();
    game.next_order_id = u32::MAX;
    assert!(game.ready_for_day());
    assert!(!game.ready_for(2));
    game.hour = 23;
    assert!(!game.can_advance(60));
    assert!(game.can_advance(59));
    game.next_order_id = 5;
    assert!(game.can_advance(60));
    game.day = u32::MAX;
    assert!(!game.can_advance(60));
    game.day = u32::MAX - 1;
    assert!(game.can_advance(60));
    game.random_events.next_event_in_days = 0;
    assert!(game.ready_for(u32::MAX));
    assert!(game.ready_for(u32::MAX - 4));
    game.random_events.next_event_in_days = 4;
    game.day = 1;
    game.inventory[0].card.days_until_expiration = 1;
    game.analytics.cards_expired = u32::MAX - 11;
    assert!(!game.ready_for_day());
    game.analytics.cards_expired = u32::MAX - 12;
    assert!(game.ready_for_day());
    game.customer_orders[0].deadline_days = 1;
    game.analytics.orders_expired = u32::MAX;
    assert!(!game.ready_for_day());
}

#[test]
fn validation_names_the_first_fault() {
    let mut game = GameData::new();
    assert_eq!(game.validate(), Ok(()));
    game.achievements.total_unlocked = 3;
    assert_eq!(game.validate(), Err(StateError::Achievements));
    game.analytics.daily_revenues.clear();
    assert_eq!(game.validate(), Err(StateError::Analytics));
    game.inventory[4].quantity = 0;
    assert_eq!(game.validate(), Err(StateError::Ledger));
    game.recent_activities.entries = vec![String::new(); 11];
    assert_eq!(game.validate(), Err(StateError::Log));
    game.minute = 60;
    assert_eq!(game.validate(), Err(StateError::Clock));
    game.minute = 59;
    game.hour = 24;
    assert_eq!(game.validate(), Err(StateError::Clock));
    game.hour = 23;
    game.day = 0;
    assert_eq!(game.validate(), Err(StateError::Clock));
    game.reputation = 6;
    assert_eq!(game.validate(), Err(StateError::Reputation));
    game.reputation = 0;
    assert_eq!(game.validate(), Err(StateError::Reputation));
    assert_eq!(StateError::Reputation.describe(), "the reputation is not one to five stars");
    assert_eq!(StateError::Clock.describe(), "the day or the time of day is out of range");
    assert_eq!(StateError::Log.describe(), "the activity log holds more than ten messages");
    assert_eq!(StateError::Ledger.describe(), "the inventory holds an empty lot or too many cards");
    assert_eq!(StateError::Analytics.describe(), "the daily revenues do not cover one to thirty days");
    assert_eq!(StateError::Achievements.describe(), "the achievements are miscounted");
}
