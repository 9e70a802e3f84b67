//! The narrative-event manager: its own countdown, the pending choice with
//! its deadline, the history of events, and the temporary modifiers.

use vstd::prelude::*;
use vstd::string::StringExecFns;
use crate::activity::{with_entry, ActivityLog};
use crate::market::Factor;
use crate::multiplier::Multiplier;
use crate::random_event::{
    choice_cash, choice_modifiers, choice_reputation, modifier_views, narrative_template, Effect,
    RandomEvent, RandomEventType, TempModifier, NARRATIVE_COUNT,
};
use crate::text::{decimal, u64_to_string};

verus! {

/// The number of past events that the history keeps.
pub const HISTORY_CAPACITY: usize = 10;

/// The number of days that the player has for a choice.
pub const CHOICE_DAYS: u32 = 2;

/// The scheduler of narrative events.
#[derive(Debug)]
pub struct RandomEventManager {
    /// The event that waits for the player's choice.
    pub active_event: Option<RandomEvent>,
    pub next_event_in_days: u32,
    /// The last events, oldest first.
    pub event_history: Vec<String>,
    pub player_choice_pending: bool,
    /// The day from which a pending choice is made for the player.
    pub choice_deadline: u32,
    pub temp_modifiers: Vec<TempModifier>,
}

/// What a day of narrative events does to the account: the effect of a
/// choice made for the player, and the effect of a new event that resolved
/// by itself, in this order.
#[derive(Clone, Copy, Debug, PartialEq, Eq, Structural)]
pub struct DailyOutcome {
    pub forced: Option<Effect>,
    pub fired: Option<Effect>,
}

/// The texts of a list of strings.
pub open spec fn texts(lines: Seq<String>) -> Seq<Seq<char>> {
    lines.map_values(|s: String| s@)
}

/// The history line of an event.
pub open spec fn history_line(day: u32, title: Seq<char>) -> Seq<char> {
    "Day "@ + decimal(day as nat) + ": "@ + title
}

/// The history after a line was added: appended, and the oldest line
/// dropped where that makes more than ten.
pub open spec fn with_history(history: Seq<Seq<char>>, line: Seq<char>) -> Seq<Seq<char>> {
    if history.len() + 1 > 10 {
        history.push(line).remove(0)
    } else {
        history.push(line)
    }
}

/// The log line for a temporary modifier that ended.
pub open spec fn modifier_ended_line(name: Seq<char>) -> Seq<char> {
    "📅 "@ + name + " effect has ended"@
}

/// The log line for a choice that was made for the player.
pub open spec fn forced_line(title: Seq<char>) -> Seq<char> {
    "⏰ "@ + title + " auto-resolved (no choice made)"@
}

/// The log line for a new narrative event.
pub open spec fn fired_line(title: Seq<char>) -> Seq<char> {
    "🎲 Random event: "@ + title
}

/// The modifiers after a day: each one day shorter, and those that reached
/// zero days removed.
pub open spec fn aged_modifiers(modifiers: Seq<TempModifier>) -> Seq<TempModifier>
    decreases modifiers.len(),
{
    if modifiers.len() == 0 {
        modifiers
    } else if modifiers.last().ends_next() {
        aged_modifiers(modifiers.drop_last())
    } else {
        aged_modifiers(modifiers.drop_last()).push(modifiers.last().aged())
    }
}

/// The log after a day's aging of the modifiers: one line for each modifier
/// that ended, recorded in list order.
pub open spec fn modifier_log(modifiers: Seq<TempModifier>, log: Seq<Seq<char>>) -> Seq<Seq<char>>
    decreases modifiers.len(),
{
    if modifiers.len() == 0 {
        log
    } else if modifiers.last().ends_next() {
        with_entry(modifier_log(modifiers.drop_last(), log), modifier_ended_line(modifiers.last().name@))
    } else {
        modifier_log(modifiers.drop_last(), log)
    }
}

/// `start` times the chosen multiplier of every modifier, in list order.
pub open spec fn modifier_product(modifiers: Seq<TempModifier>, factor: Factor, start: Multiplier) -> Multiplier
    decreases modifiers.len(),
{
    if modifiers.len() == 0 {
        start
    } else {
        modifier_product(modifiers.drop_last(), factor, start).spec_times(
            match factor {
                Factor::Price => modifiers.last().price_multiplier,
                Factor::Demand => modifiers.last().demand_multiplier,
            },
        )
    }
}

impl RandomEvent {
    /// The event of the narrative template at position `k`.
    pub fn from_template(k: u32) -> (event: RandomEvent)
        requires
            k < NARRATIVE_COUNT,
        ensures
            event@ == narrative_template(k as int),
    {
        if k == 0 {
            RandomEvent::new_auto_event(
                RandomEventType::LoyalCustomer,
                "Loyal Customer Returns",
                "A satisfied customer wants to buy $2000 worth of gift cards at premium prices!",
                2000,
                1,
                1,
            )
        } else if k == 1 {
            RandomEvent::new_auto_event(
                RandomEventType::SupplierDiscount,
                "Supplier Discount",
                "Your supplier offers 15% off your next 3 purchases due to good relationship!",
                0,
                0,
                1,
            )
        } else if k == 2 {
            RandomEvent::new_auto_event(
                RandomEventType::MediaAttention,
                "Positive Media Coverage",
                "Local news features your business! Reputation increases and more customers arrive.",
                500,
                1,
                3,
            )
        } else if k == 3 {
            RandomEvent::new_auto_event(
                RandomEventType::LuckyFind,
                "Inventory Audit Bonus",
                "During inventory count, you discover some cards are worth more than expected!",
                800,
                0,
                1,
            )
        } else if k == 4 {
            RandomEvent::new_auto_event(
                RandomEventType::TechGlitch,
                "Competitor System Down",
                "Major online competitor experiences technical issues. Customers flock to you!",
                0,
                0,
                2,
            )
        } else if k == 5 {
            RandomEvent::new_auto_event(
                RandomEventType::CardTheft,
                "Security Incident",
                "Unfortunately, some inventory was stolen. Insurance covers part of the loss.",
                -300,
                -1,
                1,
            )
        } else if k == 6 {
            RandomEvent::new_auto_event(
                RandomEventType::CustomerComplaint,
                "Customer Complaint",
                "An unsatisfied customer posts negative reviews. You compensate to maintain reputation.",
                -400,
                -1,
                1,
            )
        } else if k == 7 {
            RandomEvent::new_auto_event(
                RandomEventType::SupplierIssue,
                "Supplier Price Increase",
                "Your main supplier raises prices due to increased demand. Costs go up temporarily.",
                0,
                0,
                5,
            )
        } else if k == 8 {
            RandomEvent::new_auto_event(
                RandomEventType::MarketCrash,
                "Market Downturn",
                "Economic uncertainty affects gift card values. Customer demand drops temporarily.",
                0,
                0,
                4,
            )
        } else if k == 9 {
            RandomEvent::new_auto_event(
                RandomEventType::RegulationChange,
                "New Regulations",
                "Government introduces new gift card regulations. Compliance costs required.",
                -600,
                0,
                1,
            )
        } else if k == 10 {
            RandomEvent::new_choice_event(
                RandomEventType::BusinessOffer,
                "Partnership Proposal",
                "Another gift card business proposes a partnership. Split costs but share profits.",
                "Accept partnership (-$1000, get purchase discount)",
                "Decline and stay independent (+reputation)",
                None,
            )
        } else if k == 11 {
            RandomEvent::new_choice_event(
                RandomEventType::CharityRequest,
                "Charity Fundraiser",
                "Local charity asks for donation. Good for reputation but costs money or inventory.",
                "Donate $500 cash (++reputation)",
                "Donate 2 Amazon cards (+reputation)",
                Some("Politely decline (-reputation)"),
            )
        } else if k == 12 {
            RandomEvent::new_auto_event(
                RandomEventType::InventoryAudit,
                "Surprise Inventory Check",
                "Accounting review reveals minor discrepancies. Small penalty but processes improved.",
                -200,
                0,
                1,
            )
        } else if k == 13 {
            RandomEvent::new_choice_event(
                RandomEventType::CompetitorMeeting,
                "Competitor Conference",
                "Industry meeting with other gift card sellers. Choose your approach.",
                "Collaborate for mutual benefit (+demand)",
                "Compete aggressively (price war)",
                None,
            )
        } else {
            RandomEvent::new_auto_event(
                RandomEventType::CustomerSurvey,
                "Customer Feedback Survey",
                "Customer survey results show satisfaction with your service. Reputation boost!",
                0,
                1,
                1,
            )
        }
    }
}

impl RandomEventManager {
    /// The countdown after an event fired on `day`: seven to twenty days.
    pub open spec fn spec_next_countdown(day: u32) -> u32 {
        (7 + day % 14) as u32
    }

    /// Whether a day's processing makes the pending choice for the player.
    pub open spec fn forces(&self, day: u32) -> bool {
        self.player_choice_pending && day >= self.choice_deadline && self.active_event.is_some()
    }

    /// Whether the scheduler is free to count down or fire on this day: no
    /// event waits, or the one that waits is resolved on this day.
    pub open spec fn is_free(&self, day: u32) -> bool {
        self.active_event.is_none() || self.forces(day)
    }

    /// Whether a day's processing fires a new event.
    pub open spec fn fires(&self, day: u32) -> bool {
        self.is_free(day) && self.next_event_in_days == 0
    }

    /// A manager without events or modifiers, the first event four days
    /// away.
    pub fn new() -> (manager: RandomEventManager)
        ensures
            manager.active_event.is_none(),
            manager.next_event_in_days == 4,
            manager.event_history@ == Seq::<String>::empty(),
            !manager.player_choice_pending,
            manager.choice_deadline == 0,
            manager.temp_modifiers@ == Seq::<TempModifier>::empty(),
    {
        RandomEventManager {
            active_event: None,
            next_event_in_days: 4,
            event_history: Vec::new(),
            player_choice_pending: false,
            choice_deadline: 0,
            temp_modifiers: Vec::new(),
        }
    }

    /// Draws the event that the day selects among the fifteen templates,
    /// sets the countdown to seven to twenty days and notes the event in the
    /// history. An event that waits for a choice becomes the active event; one
    /// that resolves by itself is returned.
    pub fn generate_random_event(&mut self, day: u32) -> (resolving: Option<RandomEvent>)
        ensures
            final(self).next_event_in_days == RandomEventManager::spec_next_countdown(day),
            texts(final(self).event_history@) == with_history(
                texts(old(self).event_history@),
                history_line(day, narrative_template((day % 15) as int).title),
            ),
            final(self).player_choice_pending == old(self).player_choice_pending,
            final(self).choice_deadline == old(self).choice_deadline,
            final(self).temp_modifiers == old(self).temp_modifiers,
            narrative_template((day % 15) as int).auto_resolve ==> {
                &&& resolving.is_some()
                &&& resolving.unwrap()@ == narrative_template((day % 15) as int)
                &&& final(self).active_event == old(self).active_event
            },
            !narrative_template((day % 15) as int).auto_resolve ==> {
                &&& resolving.is_none()
                &&& final(self).active_event.is_some()
                &&& final(self).active_event.unwrap()@ == narrative_template((day % 15) as int)
            },
    {
        let event = RandomEvent::from_template(day % NARRATIVE_COUNT);
        self.next_event_in_days = 7 + day % 14;
        let mut line = String::from_str("Day ");
        line.append(u64_to_string(day as u64).as_str());
        line.append(": ");
        line.append(event.title.as_str());
        self.event_history.push(line);
        if self.event_history.len() > HISTORY_CAPACITY {
            self.event_history.remove(0);
        }
        assert(texts(self.event_history@) =~= with_history(
            texts(old(self).event_history@),
            history_line(day, narrative_template((day % 15) as int).title),
        ));
        if event.auto_resolve {
            Some(event)
        } else {
            self.active_event = Some(event);
            None
        }
    }

    /// Ages the temporary modifiers by a day; those that reach zero days
    /// end, each with a log line.
    pub fn age_modifiers(&mut self, activities: &mut ActivityLog)
        ensures
            final(self).temp_modifiers@ == aged_modifiers(old(self).temp_modifiers@),
            final(activities)@ == modifier_log(old(self).temp_modifiers@, old(activities)@),
            final(self).active_event == old(self).active_event,
            final(self).next_event_in_days == old(self).next_event_in_days,
            final(self).event_history == old(self).event_history,
            final(self).player_choice_pending == old(self).player_choice_pending,
            final(self).choice_deadline == old(self).choice_deadline,
            old(activities).wf() ==> final(activities).wf(),
    {
        let ghost before = self.temp_modifiers@;
        let ghost log_before = activities@;
        let mut i: usize = 0;
        let ghost mut done: int = 0;
        proof {
            assert(before.take(0) =~= Seq::<TempModifier>::empty());
            assert(before.skip(0) =~= before);
        }
        while i < self.temp_modifiers.len()
            invariant
                0 <= done <= before.len(),
                i == aged_modifiers(before.take(done)).len(),
                self.temp_modifiers@ == aged_modifiers(before.take(done)) + before.skip(done),
                activities@ == modifier_log(before.take(done), log_before),
                self.active_event == old(self).active_event,
                self.next_event_in_days == old(self).next_event_in_days,
                self.event_history == old(self).event_history,
                self.player_choice_pending == old(self).player_choice_pending,
                self.choice_deadline == old(self).choice_deadline,
                old(activities).wf() ==> activities.wf(),
            decreases before.len() - done,
        {
            proof {
                assert(before.take(done + 1).drop_last() =~= before.take(done));
                assert(before.take(done + 1).last() == before[done]);
                assert(self.temp_modifiers@[i as int] == before[done]);
            }
            if self.temp_modifiers[i].remaining_days <= 1 {
                let mut line = String::from_str("📅 ");
                line.append(self.temp_modifiers[i].name.as_str());
                line.append(" effect has ended");
                activities.record(line);
                self.temp_modifiers.remove(i);
                assert(self.temp_modifiers@ =~= aged_modifiers(before.take(done + 1)) + before.skip(done + 1));
            } else {
                self.temp_modifiers[i].remaining_days = self.temp_modifiers[i].remaining_days - 1;
                assert(self.temp_modifiers@[i as int] == before[done].aged());
                assert(self.temp_modifiers@ =~= aged_modifiers(before.take(done + 1)) + before.skip(done + 1));
                i = i + 1;
            }
            proof {
                done = done + 1;
            }
        }
        proof {
            assert(done == before.len()) by {
                if done < before.len() {
                    assert((aged_modifiers(before.take(done)) + before.skip(done)).len() > i);
                }
            }
            assert(before.take(done) =~= before);
            assert(self.temp_modifiers@ =~= aged_modifiers(before));
        }
    }

    /// What a day's processing does to the account by making the pending
    /// choice for the player: the effect of the first choice, where the choice
    /// is due.
    pub open spec fn forced_effect(&self, day: u32) -> Option<Effect> {
        if self.forces(day) {
            Some(
                Effect {
                    cash: choice_cash(self.active_event.unwrap().event_type, 0),
                    reputation: choice_reputation(self.active_event.unwrap().event_type, 0),
                },
            )
        } else {
            None
        }
    }

    /// What a day's processing does to the account by a new event that
    /// resolves by itself: the event's own cash and reputation impact.
    pub open spec fn fired_effect(&self, day: u32) -> Option<Effect> {
        let template = narrative_template((day % 15) as int);
        if self.fires(day) && template.auto_resolve {
            Some(Effect { cash: template.cash_impact, reputation: template.reputation_impact })
        } else {
            None
        }
    }

    /// The log after a day's processing: a line for each modifier that ended,
    /// then one for a choice made for the player, then one for a new event.
    pub open spec fn daily_log(&self, day: u32, log: Seq<Seq<char>>) -> Seq<Seq<char>> {
        let aged = modifier_log(self.temp_modifiers@, log);
        let forced = if self.forces(day) {
            with_entry(aged, forced_line(self.active_event.unwrap().title@))
        } else {
            aged
        };
        if self.fires(day) {
            with_entry(forced, fired_line(narrative_template((day % 15) as int).title))
        } else {
            forced
        }
    }

    /// Whether `after` is this manager a day later: the modifiers aged
    /// and joined by those of a choice made for the player; the countdown one
    /// lower while no event waits, or, where it had elapsed, set anew, with
    /// the event that the day selects noted in the history; a new event that
    /// needs a choice waiting for two days; a choice made for the player no
    /// longer pending.
    pub open spec fn after_day(&self, after: &RandomEventManager, day: u32) -> bool {
        let template = narrative_template((day % 15) as int);
        &&& modifier_views(after.temp_modifiers@) == modifier_views(aged_modifiers(self.temp_modifiers@)) + (
        if self.forces(day) {
            choice_modifiers(self.active_event.unwrap().event_type, 0)
        } else {
            Seq::empty()
        })
        &&& after.next_event_in_days == (if self.fires(day) {
            RandomEventManager::spec_next_countdown(day)
        } else if self.is_free(day) {
            (self.next_event_in_days - 1) as u32
        } else {
            self.next_event_in_days
        })
        &&& texts(after.event_history@) == (if self.fires(day) {
            with_history(texts(self.event_history@), history_line(day, template.title))
        } else {
            texts(self.event_history@)
        })
        &&& if self.fires(day) && !template.auto_resolve {
            &&& after.player_choice_pending
            &&& after.choice_deadline == day + 2
            &&& after.active_event.is_some()
            &&& after.active_event.unwrap()@ == template
        } else {
            &&& after.player_choice_pending == (self.player_choice_pending && !self.forces(day))
            &&& after.choice_deadline == self.choice_deadline
            &&& self.forces(day) ==> after.active_event.is_none()
            &&& !self.forces(day) ==> after.active_event == self.active_event
        }
    }

    /// A day of narrative events. The temporary modifiers age, and those
    /// that reach zero days end. A pending choice whose deadline has come is
    /// made for the player, as the first choice, and its modifiers join the
    /// list. Then, unless an event still waits, the countdown falls by one,
    /// or, where it had elapsed, a new event fires: one that resolves by
    /// itself takes effect at once, one that needs a choice waits for two
    /// days. Returns what the day does to the account.
    pub fn process_daily_events(&mut self, day: u32, activities: &mut ActivityLog) -> (outcome: DailyOutcome)
        ensures
            outcome.forced == old(self).forced_effect(day),
            outcome.fired == old(self).fired_effect(day),
            final(activities)@ == old(self).daily_log(day, old(activities)@),
            old(self).after_day(final(self), day),
            old(activities).wf() ==> final(activities).wf(),
    {
        self.age_modifiers(activities);
        let ghost aged = self.temp_modifiers@;
        let mut forced: Option<Effect> = None;
        if self.player_choice_pending && day >= self.choice_deadline {
            let taken = self.active_event.take();
            match taken {
                Some(event) => {
                    let mut event = event;
                    let (cash, reputation, modifiers) = event.apply_choice(0);
                    let mut modifiers = modifiers;
                    let ghost added = modifiers@;
                    self.temp_modifiers.append(&mut modifiers);
                    assert(modifier_views(self.temp_modifiers@) =~= modifier_views(aged) + modifier_views(added));
                    let mut line = String::from_str("⏰ ");
                    line.append(event.title.as_str());
                    line.append(" auto-resolved (no choice made)");
                    activities.record(line);
                    self.player_choice_pending = false;
                    forced = Some(Effect { cash, reputation });
                },
                None => {},
            }
        }
        proof {
            if !old(self).forces(day) {
                assert(modifier_views(self.temp_modifiers@) =~= modifier_views(aged) + Seq::empty());
            }
        }
        let mut fired: Option<Effect> = None;
        if self.active_event.is_none() {
            if self.next_event_in_days > 0 {
                self.next_event_in_days = self.next_event_in_days - 1;
            } else {
                let resolving = self.generate_random_event(day);
                match resolving {
                    Some(event) => {
                        let mut line = String::from_str("🎲 Random event: ");
                        line.append(event.title.as_str());
                        activities.record(line);
                        fired = Some(event.own_effect());
                    },
                    None => {
                        let mut line = String::from_str("🎲 Random event: ");
                        match &self.active_event {
                            Some(event) => {
                                line.append(event.title.as_str());
                            },
                            None => {},
                        }
                        activities.record(line);
                        self.player_choice_pending = true;
                        assert(day <= u32::MAX - 2) by {
                            assert(!narrative_template((day % 15) as int).auto_resolve);
                        }
                        self.choice_deadline = day + CHOICE_DAYS;
                    },
                }
            }
        }
        DailyOutcome { forced, fired }
    }

    /// Resolves the active event by the choice at `choice`. Returns cash,
    /// reputation and the temporary modifiers of the choice, or nothing where
    /// no event is active.
    pub fn make_choice(&mut self, choice: usize) -> (result: Option<(i32, i8, Vec<TempModifier>)>)
        ensures
            result.is_some() == old(self).active_event.is_some(),
            old(self).active_event.is_some() ==> {
                &&& result.unwrap().0 == choice_cash(old(self).active_event.unwrap().event_type, choice as int)
                &&& result.unwrap().1 == choice_reputation(
                    old(self).active_event.unwrap().event_type,
                    choice as int,
                )
                &&& modifier_views(result.unwrap().2@) == choice_modifiers(
                    old(self).active_event.unwrap().event_type,
                    choice as int,
                )
                &&& !final(self).player_choice_pending
            },
            old(self).active_event.is_none() ==> final(self).player_choice_pending == old(
                self,
            ).player_choice_pending,
            final(self).active_event.is_none(),
            final(self).next_event_in_days == old(self).next_event_in_days,
            final(self).event_history == old(self).event_history,
            final(self).choice_deadline == old(self).choice_deadline,
            final(self).temp_modifiers == old(self).temp_modifiers,
    {
        let taken = self.active_event.take();
        match taken {
            Some(event) => {
                let mut event = event;
                let result = event.apply_choice(choice);
                self.player_choice_pending = false;
                Some(result)
            },
            None => None,
        }
    }

    /// The event that waits for the player's choice, if one does.
    pub fn get_active_choice_event(&self) -> (event: Option<&RandomEvent>)
        ensures
            event.is_some() == (self.player_choice_pending && self.active_event.is_some()),
            event.is_some() ==> *event.unwrap() == self.active_event.unwrap(),
    {
        if self.player_choice_pending {
            self.active_event.as_ref()
        } else {
            None
        }
    }

    /// The product of the price multipliers of all temporary modifiers.
    pub fn get_total_price_multiplier(&self) -> (m: Multiplier)
        ensures
            m == modifier_product(self.temp_modifiers@, Factor::Price, Multiplier::spec_from_hundredths(100)),
    {
        self.fold_modifiers(Factor::Price, Multiplier::one())
    }

    /// The product of the demand multipliers of all temporary modifiers.
    pub fn get_total_demand_multiplier(&self) -> (m: Multiplier)
        ensures
            m == modifier_product(self.temp_modifiers@, Factor::Demand, Multiplier::spec_from_hundredths(100)),
    {
        self.fold_modifiers(Factor::Demand, Multiplier::one())
    }

    /// `start` times the chosen multiplier of every temporary modifier.
    pub fn fold_modifiers(&self, factor: Factor, start: Multiplier) -> (m: Multiplier)
        ensures
            m == modifier_product(self.temp_modifiers@, factor, start),
    {
        let mut m = start;
        let mut i: usize = 0;
        assert(self.temp_modifiers@.take(0) =~= Seq::<TempModifier>::empty());
        while i < self.temp_modifiers.len()
            invariant
                i <= self.temp_modifiers@.len(),
                m == modifier_product(self.temp_modifiers@.take(i as int), factor, start),
            decreases self.temp_modifiers@.len() - i,
        {
            assert(self.temp_modifiers@.take(i + 1).drop_last() =~= self.temp_modifiers@.take(i as int));
            let modifier = &self.temp_modifiers[i];
            m = match factor {
                Factor::Price => m.times(modifier.price_multiplier),
                Factor::Demand => m.times(modifier.demand_multiplier),
            };
            i = i + 1;
        }
        assert(self.temp_modifiers@.take(i as int) =~= self.temp_modifiers@);
        m
    }

    /// Whether some temporary modifier protects the reputation.
    pub fn has_reputation_protection(&self) -> (protected: bool)
        ensures
            protected == exists|i: int|
                0 <= i < self.temp_modifiers@.len() && (#[trigger] self.temp_modifiers@[i]).reputation_protection,
    {
        let mut protected = false;
        let mut i: usize = 0;
        while i < self.temp_modifiers.len()
            invariant
                i <= self.temp_modifiers@.len(),
                protected == exists|j: int|
                    0 <= j < i && (#[trigger] self.temp_modifiers@[j]).reputation_protection,
            decreases self.temp_modifiers@.len() - i,
        {
            if self.temp_modifiers[i].reputation_protection {
                protected = true;
            }
            i = i + 1;
        }
        protected
    }

    /// The temporary modifiers in force.
    pub fn get_active_modifiers(&self) -> (modifiers: &Vec<TempModifier>)
        ensures
            modifiers@ == self.temp_modifiers@,
    {
        &self.temp_modifiers
    }
}

} // verus!
