use giftcard_empire::activity::ActivityLog;
use giftcard_empire::event_manager::RandomEventManager;
use giftcard_empire::game::GameData;
use giftcard_empire::market::{Factor, MarketConditions, MarketEvent, Season};
use giftcard_empire::multiplier::Multiplier;
use giftcard_empire::random_event::{Effect, RandomEvent, RandomEventType, TempModifier};
use giftcard_empire::retailer::Retailer;

const RETAILERS: [Retailer; 6] = [
    Retailer::Amazon,
    Retailer::Starbucks,
    Retailer::Target,
    Retailer::ITunes,
    Retailer::Walmart,
    Retailer::Other,
];

fn hundredths(h: u32) -> Multiplier {
    Multiplier::from_hundredths(h)
}

#[test]
fn multiplier_arithmetic_is_exact_on_hundredths() {
    assert_eq!(Multiplier::one().billionths(), 1_000_000_000);
    assert_eq!(hundredths(125).billionths(), 1_250_000_000);
    assert_eq!(hundredths(90).times(hundredths(85)).billionths(), 765_000_000);
    assert_eq!(hundredths(150).times(hundredths(85)).times(hundredths(90)).billionths(), 1_147_500_000);
    assert_eq!(hundredths(0).times(hundredths(200)).billionths(), 0);
    assert_eq!(Multiplier::one().times(hundredths(137)), hundredths(137));
}

#[test]
fn multiplier_products_saturate() {
    let huge = Multiplier { billionths: u64::MAX };
    assert_eq!(huge.times(huge).billionths(), u64::MAX);
    assert_eq!(huge.times(hundredths(200)).billionths(), u64::MAX);
    assert_eq!(huge.times(Multiplier::one()).billionths(), u64::MAX);
    assert_eq!(huge.apply_rounded(u32::MAX), u32::MAX);
}

#[test]
fn multiplier_products_truncate_below_a_billionth() {
    let third = Multiplier { billionths: 333_333_333 };
    assert_eq!(third.times(third).billionths(), 111_111_110);
}

#[test]
fn amounts_round_half_up() {
    assert_eq!(hundredths(90).apply_rounded(20), 18);
    assert_eq!(hundredths(85).apply_rounded(17), 14);
    assert_eq!(hundredths(150).apply_rounded(17), 26);
    assert_eq!(hundredths(130).apply_rounded(8), 10);
    assert_eq!(hundredths(105).apply_rounded(42), 44);
    assert_eq!(hundredths(100).apply_rounded(u32::MAX), u32::MAX);
    assert_eq!(hundredths(200).apply_rounded(u32::MAX), u32::MAX);
    assert_eq!(hundredths(0).apply_rounded(u32::MAX), 0);
    assert_eq!(Multiplier { billionths: 499_999_999 }.apply_rounded(1), 0);
    assert_eq!(Multiplier { billionths: 500_000_000 }.apply_rounded(1), 1);
}

#[test]
fn multiplier_comparisons_are_strict() {
    assert!(hundredths(121).exceeds_hundredths(120));
    assert!(!hundredths(120).exceeds_hundredths(120));
    assert!(hundredths(79).below_hundredths(80));
    assert!(!hundredths(80).below_hundredths(80));
    assert!(Multiplier { billionths: 1_200_000_001 }.exceeds_hundredths(120));
}

#[test]
fn season_follows_ninety_day_buckets() {
    let cases = [
        (1, Season::Spring),
        (90, Season::Spring),
        (91, Season::Summer),
        (180, Season::Summer),
        (181, Season::Fall),
        (270, Season::Fall),
        (271, Season::Winter),
        (360, Season::Winter),
        (361, Season::Spring),
        (720, Season::Winter),
        (721, Season::Spring),
        (u32::MAX, Season::Fall),
    ];
    for (day, season) in cases {
        assert_eq!(Season::from_day(day), season, "day {}", day);
    }
    assert_eq!(Season::Spring.display(), "Spring");
    assert_eq!(Season::Summer.display(), "Summer");
    assert_eq!(Season::Fall.display(), "Fall");
    assert_eq!(Season::Winter.display(), "Winter");
}

#[test]
fn season_tables() {
    assert_eq!(Season::Spring.demand_modifier(), hundredths(100));
    assert_eq!(Season::Summer.demand_modifier(), hundredths(110));
    assert_eq!(Season::Fall.demand_modifier(), hundredths(90));
    assert_eq!(Season::Winter.demand_modifier(), hundredths(140));
    let table = [
        (Season::Spring, [100, 100, 100, 100, 100, 100]),
        (Season::Summer, [100, 100, 120, 100, 110, 100]),
        (Season::Fall, [120, 100, 100, 130, 100, 100]),
        (Season::Winter, [150, 130, 120, 140, 120, 120]),
    ];
    for (season, row) in table {
        for (retailer, expected) in RETAILERS.iter().zip(row) {
            assert_eq!(season.retailer_bonus(*retailer), hundredths(expected));
        }
    }
}

#[test]
fn quiet_market_price_is_the_season_bonus() {
    let manager = RandomEventManager::new();
    for season in [Season::Spring, Season::Summer, Season::Fall, Season::Winter] {
        let mut market = MarketConditions::new();
        market.current_season = season;
        for retailer in RETAILERS {
            assert_eq!(market.get_price_multiplier(retailer), season.retailer_bonus(retailer));
            assert_eq!(
                market.get_price_multiplier_with_random_events(retailer, &manager),
                season.retailer_bonus(retailer)
            );
        }
    }
}

#[test]
fn events_multiply_within_their_scope() {
    let mut market = MarketConditions::new();
    market.current_season = Season::Winter;
    market.base_demand_modifier = Season::Winter.demand_modifier();
    market.active_events.push(MarketEvent::from_template(3));
    market.active_events.push(MarketEvent::from_template(2));
    assert_eq!(market.get_price_multiplier(Retailer::Amazon).billionths(), 1_657_500_000);
    assert_eq!(market.get_price_multiplier(Retailer::Target).billionths(), 1_560_000_000);
    assert_eq!(market.get_demand_multiplier(Retailer::Amazon).billionths(), 2_940_000_000);
    assert_eq!(market.get_demand_multiplier(Retailer::Target).billionths(), 1_176_000_000);
    assert_eq!(
        market.fold_events(Retailer::Amazon, Factor::Price, Multiplier::one()).billionths(),
        1_105_000_000
    );
}

#[test]
fn temporary_modifiers_apply_to_every_retailer() {
    let market = MarketConditions::new();
    let mut manager = RandomEventManager::new();
    manager.temp_modifiers.push(TempModifier::new("Price War", "Cheaper purchases but lower demand", 85, 80, 7));
    manager.temp_modifiers.push(TempModifier::new("Business Partnership", "10% discount on purchases", 90, 100, 14));
    for retailer in RETAILERS {
        assert_eq!(market.get_price_multiplier_with_random_events(retailer, &manager).billionths(), 765_000_000);
    }
    assert_eq!(manager.get_total_price_multiplier().billionths(), 765_000_000);
    assert_eq!(manager.get_total_demand_multiplier().billionths(), 800_000_000);
    assert!(!manager.has_reputation_protection());
    manager.temp_modifiers[1].reputation_protection = true;
    assert!(manager.has_reputation_protection());
    assert_eq!(manager.get_active_modifiers().len(), 2);
    assert_eq!(RandomEventManager::new().get_total_price_multiplier(), Multiplier::one());
}

#[test]
fn market_event_templates() {
    let expected: [(&str, Option<Retailer>, u32, u32, u32); 8] = [
        ("Tech Surge", Some(Retailer::ITunes), 90, 150, 4),
        ("Coffee Festival", Some(Retailer::Starbucks), 110, 180, 3),
        ("Supply Chain Issues", None, 130, 70, 5),
        ("Amazon Prime Day", Some(Retailer::Amazon), 85, 200, 2),
        ("Back to School", Some(Retailer::Target), 105, 140, 7),
        ("Economic Downturn", None, 100, 60, 6),
        ("Walmart Expansion", Some(Retailer::Walmart), 95, 130, 4),
        ("Market Boom", None, 90, 120, 5),
    ];
    for (k, (name, retailer, price, demand, days)) in expected.iter().enumerate() {
        let event = MarketEvent::from_template(k as u32);
        assert_eq!(event.name, *name);
        assert_eq!(event.retailer_affected, *retailer);
        assert_eq!(event.price_multiplier, hundredths(*price));
        assert_eq!(event.demand_multiplier, hundredths(*demand));
        assert_eq!(event.duration_days, *days);
        assert_eq!(event.remaining_days, *days);
        assert!(!event.is_expired());
        assert!(!event.description.is_empty());
    }
    let global = MarketEvent::from_template(2);
    let scoped = MarketEvent::from_template(0);
    for retailer in RETAILERS {
        assert!(global.affects_retailer(retailer));
        assert_eq!(scoped.affects_retailer(retailer), retailer == Retailer::ITunes);
    }
}

#[test]
fn event_on_its_last_day_ends_with_a_log_line() {
    let mut market = MarketConditions::new();
    let mut log = ActivityLog::new();
    let mut ending = MarketEvent::from_template(3);
    ending.remaining_days = 1;
    market.active_events.push(ending);
    market.process_daily_events(9, &mut log);
    assert!(market.active_events.is_empty());
    assert_eq!(log.entries, vec!["📈 Market event 'Amazon Prime Day' has ended"]);
    assert_eq!(market.next_event_in_days, 3);
}

#[test]
fn events_age_in_list_order() {
    let mut market = MarketConditions::new();
    let mut log = ActivityLog::new();
    for (k, left) in [(0, 1), (1, 3), (2, 0), (3, 2)] {
        let mut event = MarketEvent::from_template(k);
        event.remaining_days = left;
        market.active_events.push(event);
    }
    market.process_daily_events(9, &mut log);
    let left: Vec<(&str, u32)> = market.active_events.iter().map(|e| (e.name.as_str(), e.remaining_days)).collect();
    assert_eq!(left, vec![("Coffee Festival", 2), ("Amazon Prime Day", 1)]);
    assert_eq!(
        log.entries,
        vec!["📈 Market event 'Supply Chain Issues' has ended", "📈 Market event 'Tech Surge' has ended"]
    );
}

#[test]
fn elapsed_countdown_starts_the_event_of_the_day() {
    let mut market = MarketConditions::new();
    let mut log = ActivityLog::new();
    market.next_event_in_days = 0;
    market.process_daily_events(13, &mut log);
    assert_eq!(market.active_events.len(), 1);
    assert_eq!(market.active_events[0].name, "Economic Downturn");
    assert_eq!(market.active_events[0].remaining_days, 6);
    assert_eq!(market.next_event_in_days, 8);
    assert_eq!(log.entries, vec!["🎯 New market event: Economic Downturn"]);
    market.next_event_in_days = 0;
    market.process_daily_events(19, &mut log);
    assert_eq!(market.next_event_in_days, 14);
    assert_eq!(market.active_events[1].name, "Amazon Prime Day");
    assert_eq!(market.active_events[0].remaining_days, 5);
}

#[test]
fn season_change_moves_base_demand() {
    let mut market = MarketConditions::new();
    market.base_demand_modifier = hundredths(77);
    market.update_season(45);
    assert_eq!(market.base_demand_modifier, hundredths(77));
    market.update_season(91);
    assert_eq!(market.current_season, Season::Summer);
    assert_eq!(market.base_demand_modifier, hundredths(110));
    market.update_season(271);
    assert_eq!(market.base_demand_modifier, hundredths(140));
}

#[test]
fn narrative_templates() {
    let autos: [(u32, RandomEventType, &str, i32, i8, u32); 12] = [
        (0, RandomEventType::LoyalCustomer, "Loyal Customer Returns", 2000, 1, 1),
        (1, RandomEventType::SupplierDiscount, "Supplier Discount", 0, 0, 1),
        (2, RandomEventType::MediaAttention, "Positive Media Coverage", 500, 1, 3),
        (3, RandomEventType::LuckyFind, "Inventory Audit Bonus", 800, 0, 1),
        (4, RandomEventType::TechGlitch, "Competitor System Down", 0, 0, 2),
        (5, RandomEventType::CardTheft, "Security Incident", -300, -1, 1),
        (6, RandomEventType::CustomerComplaint, "Customer Complaint", -400, -1, 1),
        (7, RandomEventType::SupplierIssue, "Supplier Price Increase", 0, 0, 5),
        (8, RandomEventType::MarketCrash, "Market Downturn", 0, 0, 4),
        (9, RandomEventType::RegulationChange, "New Regulations", -600, 0, 1),
        (12, RandomEventType::InventoryAudit, "Surprise Inventory Check", -200, 0, 1),
        (14, RandomEventType::CustomerSurvey, "Customer Feedback Survey", 0, 1, 1),
    ];
    for (k, kind, title, cash, reputation, days) in autos {
        let event = RandomEvent::from_template(k);
        assert_eq!(event.event_type, kind);
        assert_eq!(event.title, title);
        assert!(event.auto_resolve);
        assert_eq!(event.own_effect(), Effect { cash, reputation });
        assert_eq!(event.duration_days, days);
        assert!(event.active);
        assert!(event.get_choices().is_empty());
    }
    let offer = RandomEvent::from_template(10);
    assert_eq!(offer.event_type, RandomEventType::BusinessOffer);
    assert!(!offer.auto_resolve);
    assert_eq!(
        offer.get_choices(),
        vec!["Accept partnership (-$1000, get purchase discount)", "Decline and stay independent (+reputation)"]
    );
    let charity = RandomEvent::from_template(11);
    assert_eq!(
        charity.get_choices(),
        vec![
            "Donate $500 cash (++reputation)",
            "Donate 2 Amazon cards (+reputation)",
            "Politely decline (-reputation)"
        ]
    );
    let meeting = RandomEvent::from_template(13);
    assert_eq!(meeting.title, "Competitor Conference");
    assert_eq!(meeting.get_choices().len(), 2);
    assert_eq!(meeting.duration_days, 1);
}

#[test]
fn choice_table() {
    let table: [(u32, usize, i32, i8, Option<(&str, u32, u32, u32)>); 10] = [
        (10, 0, -1000, 0, Some(("Business Partnership", 90, 100, 14))),
        (10, 1, 0, 1, None),
        (10, 2, 0, 0, None),
        (11, 0, -500, 2, None),
        (11, 1, 0, 1, None),
        (11, 2, 0, -1, None),
        (11, 3, 0, 0, None),
        (13, 0, 0, 0, Some(("Market Collaboration", 100, 130, 10))),
        (13, 1, -200, 0, Some(("Price War", 85, 80, 7))),
        (0, 0, 0, 0, None),
    ];
    for (k, choice, cash, reputation, modifier) in table {
        let mut event = RandomEvent::from_template(k);
        let (got_cash, got_reputation, modifiers) = event.apply_choice(choice);
        assert_eq!((got_cash, got_reputation), (cash, reputation), "template {} choice {}", k, choice);
        assert_eq!(event.cash_impact, cash);
        assert_eq!(event.reputation_impact, reputation);
        match modifier {
            Some((name, price, demand, days)) => {
                assert_eq!(modifiers.len(), 1);
                assert_eq!(modifiers[0].name, name);
                assert_eq!(modifiers[0].price_multiplier, hundredths(price));
                assert_eq!(modifiers[0].demand_multiplier, hundredths(demand));
                assert_eq!(modifiers[0].remaining_days, days);
                assert!(!modifiers[0].reputation_protection);
            }
            None => assert!(modifiers.is_empty()),
        }
        let gives_cards = k == 11 && choice == 1;
        assert_eq!(event.inventory_impact, if gives_cards { vec![(Retailer::Amazon, -2)] } else { vec![] });
    }
}

#[test]
fn temp_modifier_ages_down_to_zero() {
    let mut modifier = TempModifier::new("Price War", "Cheaper purchases but lower demand", 85, 80, 2);
    assert!(!modifier.is_expired());
    modifier.age_day();
    assert_eq!(modifier.remaining_days, 1);
    modifier.age_day();
    assert!(modifier.is_expired());
    modifier.age_day();
    assert_eq!(modifier.remaining_days, 0);
}

#[test]
fn choice_event_waits_then_is_resolved_for_the_player() {
    let mut manager = RandomEventManager::new();
    let mut log = ActivityLog::new();
    manager.next_event_in_days = 0;
    let outcome = manager.process_daily_events(10, &mut log);
    assert_eq!(outcome.forced, None);
    assert_eq!(outcome.fired, None);
    assert!(manager.player_choice_pending);
    assert_eq!(manager.choice_deadline, 12);
    assert_eq!(manager.next_event_in_days, 17);
    assert_eq!(manager.event_history, vec!["Day 10: Partnership Proposal"]);
    assert_eq!(manager.get_active_choice_event().map(|e| e.title.as_str()), Some("Partnership Proposal"));
    assert_eq!(log.entries, vec!["🎲 Random event: Partnership Proposal"]);

    let outcome = manager.process_daily_events(11, &mut log);
    assert_eq!((outcome.forced, outcome.fired), (None, None));
    assert!(manager.player_choice_pending);
    assert_eq!(manager.next_event_in_days, 17);
    assert_eq!(log.len(), 1);

    let outcome = manager.process_daily_events(12, &mut log);
    assert_eq!(outcome.forced, Some(Effect { cash: -1000, reputation: 0 }));
    assert_eq!(outcome.fired, None);
    assert!(!manager.player_choice_pending);
    assert!(manager.active_event.is_none());
    assert!(manager.get_active_choice_event().is_none());
    assert_eq!(manager.next_event_in_days, 16);
    assert_eq!(manager.temp_modifiers.len(), 1);
    assert_eq!(manager.temp_modifiers[0].name, "Business Partnership");
    assert_eq!(manager.temp_modifiers[0].remaining_days, 14);
    assert_eq!(log.entries[0], "⏰ Partnership Proposal auto-resolved (no choice made)");
}

#[test]
fn automatic_event_takes_effect_at_once() {
    let mut manager = RandomEventManager::new();
    let mut log = ActivityLog::new();
    manager.next_event_in_days = 0;
    let outcome = manager.process_daily_events(20, &mut log);
    assert_eq!(outcome.fired, Some(Effect { cash: -300, reputation: -1 }));
    assert_eq!(outcome.forced, None);
    assert!(manager.active_event.is_none());
    assert!(!manager.player_choice_pending);
    assert_eq!(manager.next_event_in_days, 13);
    assert_eq!(manager.event_history, vec!["Day 20: Security Incident"]);
    assert_eq!(log.entries, vec!["🎲 Random event: Security Incident"]);
}

#[test]
fn countdown_runs_only_while_no_event_waits() {
    let mut manager = RandomEventManager::new();
    let mut log = ActivityLog::new();
    assert_eq!(manager.next_event_in_days, 4);
    for left in [3, 2, 1, 0] {
        let outcome = manager.process_daily_events(1, &mut log);
        assert_eq!((outcome.forced, outcome.fired), (None, None));
        assert_eq!(manager.next_event_in_days, left);
    }
    assert!(log.is_empty());
}

#[test]
fn forced_choice_and_new_event_on_one_day() {
    let mut manager = RandomEventManager::new();
    let mut log = ActivityLog::new();
    manager.active_event = Some(RandomEvent::from_template(11));
    manager.player_choice_pending = true;
    manager.choice_deadline = 30;
    manager.next_event_in_days = 0;
    let outcome = manager.process_daily_events(30, &mut log);
    assert_eq!(outcome.forced, Some(Effect { cash: -500, reputation: 2 }));
    assert_eq!(outcome.fired, Some(Effect { cash: 2000, reputation: 1 }));
    assert_eq!(
        log.entries,
        vec!["🎲 Random event: Loyal Customer Returns", "⏰ Charity Fundraiser auto-resolved (no choice made)"]
    );
    assert_eq!(manager.next_event_in_days, 9);
}

#[test]
fn modifiers_end_with_a_log_line() {
    let mut manager = RandomEventManager::new();
    let mut log = ActivityLog::new();
    manager.temp_modifiers.push(TempModifier::new("Price War", "x", 85, 80, 1));
    manager.temp_modifiers.push(TempModifier::new("Market Collaboration", "y", 100, 130, 3));
    manager.temp_modifiers.push(TempModifier::new("Business Partnership", "z", 90, 100, 0));
    manager.process_daily_events(1, &mut log);
    let left: Vec<(&str, u32)> = manager.temp_modifiers.iter().map(|m| (m.name.as_str(), m.remaining_days)).collect();
    assert_eq!(left, vec![("Market Collaboration", 2)]);
    assert_eq!(log.entries, vec!["📅 Business Partnership effect has ended", "📅 Price War effect has ended"]);
}

#[test]
fn history_keeps_the_last_ten_events() {
    let mut manager = RandomEventManager::new();
    for day in 1..=12u32 {
        let _ = manager.generate_random_event(day);
        manager.active_event = None;
    }
    assert_eq!(manager.event_history.len(), 10);
    assert_eq!(manager.event_history[0], "Day 3: Inventory Audit Bonus");
    assert_eq!(manager.event_history[9], "Day 12: Surprise Inventory Check");
}

#[test]
fn player_choice_reaches_the_account() {
    let mut game = GameData::new();
    game.random_events.active_event = Some(RandomEvent::from_template(11));
    game.random_events.player_choice_pending = true;
    game.reputation = 4;
    let effect = game.handle_random_event_choice(0);
    assert_eq!(effect, Some(Effect { cash: -500, reputation: 2 }));
    assert_eq!(game.cash, 4500);
    assert_eq!(game.reputation, 5);
    assert!(game.random_events.active_event.is_none());
    assert!(!game.random_events.player_choice_pending);
    assert_eq!(game.recent_activities.entries[0], "✅ Made choice on random event");
    assert_eq!(game.handle_random_event_choice(0), None);
    assert_eq!(game.cash, 4500);

    game.random_events.active_event = Some(RandomEvent::from_template(13));
    game.cash = 150;
    let effect = game.handle_random_event_choice(1);
    assert_eq!(effect, Some(Effect { cash: -200, reputation: 0 }));
    assert_eq!(game.cash, 0);
    assert_eq!(game.reputation, 5);
    assert_eq!(game.random_events.temp_modifiers.len(), 1);
    assert_eq!(game.random_events.temp_modifiers[0].name, "Price War");
    assert_eq!(game.market_price(0), 17);
}

#[test]
fn effects_keep_cash_and_reputation_in_bounds() {
    let mut game = GameData::new();
    game.cash = u32::MAX - 5;
    game.apply_effect(Effect { cash: 2000, reputation: 2 });
    assert_eq!((game.cash, game.reputation), (u32::MAX, 5));
    game.apply_effect(Effect { cash: i32::MIN, reputation: i8::MIN });
    assert_eq!((game.cash, game.reputation), (u32::MAX - (1u32 << 31), 1));
    game.cash = 10;
    game.apply_effect(Effect { cash: i32::MIN, reputation: i8::MAX });
    assert_eq!((game.cash, game.reputation), (0, 5));
    game.apply_effect(Effect { cash: 0, reputation: 0 });
    assert_eq!((game.cash, game.reputation), (0, 5));
    game.apply_effect(Effect { cash: 7, reputation: -1 });
    assert_eq!((game.cash, game.reputation), (7, 4));
}

#[test]
fn reputation_stays_between_one_and_five() {
    let mut game = GameData::new();
    let deltas: [i8; 12] = [2, 2, 2, -1, -2, -2, -2, 1, 0, -128, 127, -3];
    for (step, delta) in deltas.iter().enumerate() {
        match step % 3 {
            0 => game.improve_reputation("order_fulfilled"),
            1 => game.decrease_reputation("slow_service"),
            _ => {}
        }
        game.apply_effect(Effect { cash: 0, reputation: *delta });
        assert!((1..=5).contains(&game.reputation));
    }
    for _ in 0..7 {
        game.decrease_reputation("order_expired");
        assert!((1..=5).contains(&game.reputation));
    }
    assert_eq!(game.reputation, 1);
    for _ in 0..7 {
        game.improve_reputation("fast_fulfillment");
        assert!((1..=5).contains(&game.reputation));
    }
    assert_eq!(game.reputation, 5);
}

#[test]
fn reputation_messages_by_reason() {
    let mut game = GameData::new();
    game.improve_reputation("order_fulfilled");
    assert_eq!(game.recent_activities.entries[0], "⭐ Reputation improved for excellent service!");
    game.improve_reputation("fast_fulfillment");
    assert_eq!(game.recent_activities.entries[0], "⭐ Reputation boosted for lightning-fast delivery!");
    game.improve_reputation("other");
    assert_eq!(game.recent_activities.entries[0], "⭐ Reputation boosted for lightning-fast delivery!");
    game.decrease_reputation("order_expired");
    assert_eq!(
        game.recent_activities.entries[0],
        "💔 Reputation damaged - customers disappointed by expired orders"
    );
    game.decrease_reputation("slow_service");
    assert_eq!(game.recent_activities.entries[0], "💔 Reputation declined due to slow service");
    game.decrease_reputation("");
    assert_eq!(game.recent_activities.entries[0], "💔 Reputation decreased!");
    game.reputation = 3;
    game.improve_reputation("because");
    assert_eq!(game.recent_activities.entries[0], "⭐ Reputation improved!");
}
