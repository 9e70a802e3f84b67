//! Laws of the simulation: what holds of every state and every sequence of
//! operations, proved over the same models that the contracts use.

use vstd::prelude::*;
use crate::achievement::{Achievement, AchievementType};
use crate::activity::with_entry;
use crate::book::stars_lost;
use crate::event_manager::{modifier_product, RandomEventManager};
use crate::game::reputation_after;
use crate::inventory::{
    aged_ledger, consumed, ledger_cards, ledger_value, ledger_wf, lemma_sum_push, lemma_sum_remove,
    matching_cards, with_purchase, GiftCard, InventoryItem, Measure,
};
use crate::ledger::{lemma_aged_totals, lemma_consumed_others, lemma_consumed_totals, lemma_purchase_totals};
use crate::market::{aged_events, ended_line, ended_log, Factor, MarketConditions, MarketEvent};
use crate::multiplier::{lemma_times_one, saturate_u32, Multiplier};
use crate::order::{aged_orders, expiring_orders, CustomerOrder};
use crate::retailer::Retailer;
use crate::tracker::{check_step, lemma_first_locked, quiet_unlock, Unlocks};

verus! {

/// An operation that changes the reputation.
pub enum ReputationChange {
    /// A fulfilled order: one star more, up to five.
    Improve,
    /// A disappointment: one star less, down to one.
    Decrease,
    /// The reputation part of a narrative event's effect.
    Effect(i8),
    /// A day on which this many orders expired.
    Expire(nat),
}

/// The reputation after one change.
pub open spec fn reputation_after_change(reputation: u8, change: ReputationChange) -> u8 {
    match change {
        ReputationChange::Improve => if reputation < 5 {
            (reputation + 1) as u8
        } else {
            reputation
        },
        ReputationChange::Decrease => if reputation > 1 {
            (reputation - 1) as u8
        } else {
            reputation
        },
        ReputationChange::Effect(delta) => reputation_after(reputation, delta),
        ReputationChange::Expire(expired) => (reputation - stars_lost(reputation, expired)) as u8,
    }
}

/// The reputation after a sequence of changes, in order.
pub open spec fn reputation_after_changes(reputation: u8, changes: Seq<ReputationChange>) -> u8
    decreases changes.len(),
{
    if changes.len() == 0 {
        reputation
    } else {
        reputation_after_change(reputation_after_changes(reputation, changes.drop_last()), changes.last())
    }
}

/// Whatever the sequence of changes, a reputation of one to five stars
/// stays one of one to five stars.
pub proof fn lemma_reputation_stays_in_range(reputation: u8, changes: Seq<ReputationChange>)
    requires
        1 <= reputation <= 5,
    ensures
        1 <= reputation_after_changes(reputation, changes) <= 5,
    decreases changes.len(),
{
    if changes.len() > 0 {
        lemma_reputation_stays_in_range(reputation, changes.drop_last());
    }
}

/// Every operation on the ledger leaves it well formed: no lot of a
/// well-formed ledger is empty after a day's aging, after a purchase that
/// the card count has room for, after the consumption of cards that it
/// holds, or after the removal of a lot.
pub proof fn lemma_ledger_stays_well_formed(
    ledger: Seq<InventoryItem>,
    card: GiftCard,
    quantity: u32,
    retailer: Retailer,
    denomination: u32,
    needed: nat,
    index: int,
)
    requires
        ledger_wf(ledger),
    ensures
        ledger_wf(aged_ledger(ledger)),
        quantity > 0 && ledger_cards(ledger) + quantity <= u32::MAX ==> ledger_wf(
            with_purchase(ledger, card, quantity),
        ),
        needed <= matching_cards(ledger, retailer, denomination) ==> ledger_wf(
            consumed(ledger, retailer, denomination, needed),
        ),
        0 <= index < ledger.len() ==> ledger_wf(ledger.remove(index)),
{
    lemma_aged_totals(ledger);
    if quantity > 0 && ledger_cards(ledger) + quantity <= u32::MAX {
        lemma_purchase_totals(ledger, card, quantity);
    }
    if needed <= matching_cards(ledger, retailer, denomination) {
        lemma_consumed_totals(ledger, retailer, denomination, needed);
    }
    if 0 <= index < ledger.len() {
        lemma_sum_remove(ledger, index, Measure::Cards);
    }
}

/// The value of a ledger is the sum over its lots of market value per card
/// times quantity: nothing for the empty ledger, and for a ledger with one
/// more lot the value of that lot more.
pub proof fn lemma_ledger_value_is_sum(ledger: Seq<InventoryItem>, lot: InventoryItem)
    ensures
        ledger_value(Seq::<InventoryItem>::empty()) == 0,
        ledger_value(ledger.push(lot)) == ledger_value(ledger) + (lot.card.spec_market_value() as nat) * (
        lot.quantity as nat),
{
    lemma_sum_push(ledger, lot, Measure::Value);
}

/// Taking the cards of an order from a ledger that holds them lowers the
/// count of matching cards by exactly the order's quantity, and changes the
/// count for no other retailer or face value.
pub proof fn lemma_fulfillment_takes_the_order(
    ledger: Seq<InventoryItem>,
    retailer: Retailer,
    denomination: u32,
    quantity: nat,
    other_retailer: Retailer,
    other_denomination: u32,
)
    requires
        quantity <= matching_cards(ledger, retailer, denomination),
    ensures
        matching_cards(consumed(ledger, retailer, denomination, quantity), retailer, denomination) + quantity
            == matching_cards(ledger, retailer, denomination),
        ledger_cards(consumed(ledger, retailer, denomination, quantity)) + quantity == ledger_cards(ledger),
        other_retailer != retailer || other_denomination != denomination ==> matching_cards(
            consumed(ledger, retailer, denomination, quantity),
            other_retailer,
            other_denomination,
        ) == matching_cards(ledger, other_retailer, other_denomination),
{
    lemma_consumed_totals(ledger, retailer, denomination, quantity);
    if other_retailer != retailer || other_denomination != denomination {
        lemma_consumed_others(ledger, retailer, denomination, quantity, other_retailer, other_denomination);
    }
}

/// Whether every goal of `before` is still there in `after`, of the same
/// kind and with the same target and reward, unlocked if it was unlocked, on
/// the same day, and with no less progress.
pub open spec fn never_falls_back(before: Seq<Achievement>, after: Seq<Achievement>) -> bool {
    &&& after.len() == before.len()
    &&& forall|i: int|
        0 <= i < before.len() ==> {
            &&& (#[trigger] after[i]).achievement_type == before[i].achievement_type
            &&& after[i].target == before[i].target
            &&& after[i].reward_cash == before[i].reward_cash
            &&& after[i].name == before[i].name
            &&& after[i].progress >= before[i].progress
            &&& before[i].unlocked ==> after[i] == before[i]
        }
}

/// A progress check never locks a goal again and never lowers a progress,
/// whatever progress it reports; a goal that is unlocked stays as it is.
pub proof fn lemma_check_is_monotonic(u: Unlocks, t: AchievementType, progress: u32, day: u32)
    ensures
        never_falls_back(u.achievements, check_step(u, t, progress, day).achievements),
        never_falls_back(u.achievements, quiet_unlock(u, t, day).achievements),
        check_step(u, t, progress, day).total_unlocked >= u.total_unlocked,
        quiet_unlock(u, t, day).total_unlocked >= u.total_unlocked,
{
    lemma_first_locked(u.achievements, t);
}

/// A goal's own progress report never locks it again and never lowers its
/// progress, and neither does unlocking it.
pub proof fn lemma_goal_is_monotonic(a: Achievement, progress: u32, day: u32)
    ensures
        a.spec_update_progress(progress).progress >= a.progress,
        a.unlocked ==> a.spec_update_progress(progress) == a,
        a.spec_unlock(day).unlocked,
        a.spec_unlock(day).progress == a.progress,
        a.unlocked ==> a.spec_unlock(day) == a,
{
}

/// However many messages are recorded, the log holds at most ten, the
/// latest in front.
pub proof fn lemma_log_stays_bounded(log: Seq<Seq<char>>, messages: Seq<Seq<char>>)
    ensures
        recorded_all(log, messages).len() <= if messages.len() == 0 {
            log.len()
        } else {
            10
        },
        messages.len() > 0 ==> recorded_all(log, messages)[0] == messages.last(),
    decreases messages.len(),
{
    if messages.len() > 0 {
        lemma_log_stays_bounded(log, messages.drop_last());
    }
}

/// The log after a sequence of messages was recorded, in order.
pub open spec fn recorded_all(log: Seq<Seq<char>>, messages: Seq<Seq<char>>) -> Seq<Seq<char>>
    decreases messages.len(),
{
    if messages.len() == 0 {
        log
    } else {
        with_entry(recorded_all(log, messages.drop_last()), messages.last())
    }
}

/// Without active market events, the price multiplier for a retailer is
/// exactly the season's bonus for it; without temporary modifiers besides,
/// so is the price that purchases go by.
pub proof fn lemma_quiet_market_price(market: MarketConditions, manager: RandomEventManager, retailer: Retailer)
    requires
        market.active_events@.len() == 0,
    ensures
        market.spec_price_multiplier(retailer) == market.current_season.spec_retailer_bonus(retailer),
        manager.temp_modifiers@.len() == 0 ==> modifier_product(
            manager.temp_modifiers@,
            Factor::Price,
            market.spec_price_multiplier(retailer),
        ) == market.current_season.spec_retailer_bonus(retailer),
{
    lemma_times_one(market.current_season.spec_retailer_bonus(retailer));
}

/// Aging a list of events that is one list followed by another ages both,
/// and logs the first list's ended events before the second's.
pub proof fn lemma_aging_splits(first: Seq<MarketEvent>, second: Seq<MarketEvent>, log: Seq<Seq<char>>)
    ensures
        aged_events(first + second) == aged_events(first) + aged_events(second),
        ended_log(first + second, log) == ended_log(second, ended_log(first, log)),
    decreases second.len(),
{
    if second.len() == 0 {
        assert(first + second =~= first);
        assert(aged_events(first) + aged_events(second) =~= aged_events(first));
    } else {
        let all = first + second;
        assert(all.drop_last() =~= first + second.drop_last());
        assert(all.last() == second.last());
        lemma_aging_splits(first, second.drop_last(), log);
        if !second.last().ends_next() {
            assert(aged_events(all) =~= aged_events(first) + aged_events(second));
        }
    }
}

/// An event with one day left is gone after a day, and the log tells that it
/// ended: the aged list is what aging makes of the events before it and of
/// those after it, and its line is recorded after the lines of the events
/// before it. Where it is the only event, no event is left and its line
/// is the newest in the log.
pub proof fn lemma_last_day_ends_event(events: Seq<MarketEvent>, i: int, log: Seq<Seq<char>>)
    requires
        0 <= i < events.len(),
        events[i].remaining_days == 1,
    ensures
        aged_events(events) == aged_events(events.take(i)) + aged_events(events.skip(i + 1)),
        ended_log(events, log) == ended_log(
            events.skip(i + 1),
            with_entry(ended_log(events.take(i), log), ended_line(events[i].name@)),
        ),
        events.len() == 1 ==> aged_events(events).len() == 0 && ended_log(events, log) == with_entry(
            log,
            ended_line(events[0].name@),
        ),
{
    let head = events.take(i + 1);
    let tail = events.skip(i + 1);
    assert(events =~= head + tail);
    lemma_aging_splits(head, tail, log);
    assert(head.drop_last() =~= events.take(i));
    assert(head.last() == events[i]);
    if events.len() == 1 {
        assert(events.take(0) =~= Seq::<MarketEvent>::empty());
        assert(tail =~= Seq::<MarketEvent>::empty());
        assert(aged_events(events) =~= Seq::<MarketEvent>::empty());
    }
}

/// A multiplier of a whole number of hundredths turns an amount into the
/// amount times the hundredths, divided by 100 and rounded half up: so is a
/// purchase price made from a base cost.
pub proof fn lemma_price_from_hundredths(h: int, amount: int)
    requires
        0 <= h <= u32::MAX,
        0 <= amount <= u32::MAX,
    ensures
        Multiplier::spec_from_hundredths(h).spec_apply_rounded(amount) == saturate_u32(
            (amount * h + 50) / 100,
        ),
{
    let b = h * 10_000_000;
    assert(0 <= b <= 0xffff_ffff * 10_000_000) by (nonlinear_arith)
        requires
            0 <= h <= 0xffff_ffff,
            b == h * 10_000_000,
    ;
    assert((amount * b + 500_000_000) / 1_000_000_000 == (amount * h + 50) / 100) by (nonlinear_arith)
        requires
            b == h * 10_000_000,
            0 <= amount,
            0 <= h,
    ;
}

/// A day takes from the order book exactly the orders that expire, and
/// leaves no order without a day to go.
pub proof fn lemma_order_book_ages(orders: Seq<CustomerOrder>)
    ensures
        aged_orders(orders).len() + expiring_orders(orders) == orders.len(),
        forall|i: int| 0 <= i < aged_orders(orders).len() ==> (#[trigger] aged_orders(orders)[i]).deadline_days >= 1,
    decreases orders.len(),
{
    if orders.len() > 0 {
        lemma_order_book_ages(orders.drop_last());
    }
}

/// A multiplier with at most seven decimal places times a whole number of
/// hundredths is exact, as long as it stays in range: nothing is cut off.
/// So is every product of up to four factors that are whole hundredths.
pub proof fn lemma_hundredths_multiply_exactly(m: Multiplier, h: int)
    requires
        m.billionths % 100 == 0,
        0 <= h <= u32::MAX,
        (m.billionths / 100) * h <= u64::MAX,
    ensures
        m.spec_times(Multiplier::spec_from_hundredths(h)).billionths == (m.billionths / 100) * h,
{
    let n = (m.billionths / 100) as int;
    assert(m.billionths as int == n * 100);
    assert(0 <= h * 10_000_000 <= 0xffff_ffff * 10_000_000) by (nonlinear_arith)
        requires
            0 <= h <= 0xffff_ffff,
    ;
    assert((n * 100) * (h * 10_000_000) / 1_000_000_000 == n * h) by (nonlinear_arith);
}

} // verus!
