//! The market: seasons, scheduled market events and the multipliers that
//! they put on prices and demand.

use vstd::prelude::*;
use vstd::string::StringExecFns;
use crate::activity::{with_entry, ActivityLog};
use crate::event_manager::{modifier_product, RandomEventManager};
use crate::multiplier::Multiplier;
use crate::retailer::Retailer;

verus! {

/// One of the four 90-day seasons of the 360-day year.
#[derive(Clone, Copy, Debug, PartialEq, Eq, Structural)]
pub enum Season {
    Spring,
    Summer,
    Fall,
    Winter,
}

impl Season {
    /// The season of a day: days 1 to 90 are spring, 91 to 180 summer, 181
    /// to 270 fall, 271 to 360 winter, and so on year after year.
    pub open spec fn spec_from_day(day: int) -> Season {
        let bucket = ((day - 1) % 360) / 90;
        if bucket == 0 {
            Season::Spring
        } else if bucket == 1 {
            Season::Summer
        } else if bucket == 2 {
            Season::Fall
        } else {
            Season::Winter
        }
    }

    /// The season's name.
    pub open spec fn spec_display(self) -> Seq<char> {
        match self {
            Season::Spring => "Spring"@,
            Season::Summer => "Summer"@,
            Season::Fall => "Fall"@,
            Season::Winter => "Winter"@,
        }
    }

    /// The season's base demand, in hundredths.
    pub open spec fn demand_hundredths(self) -> int {
        match self {
            Season::Spring => 100,
            Season::Summer => 110,
            Season::Fall => 90,
            Season::Winter => 140,
        }
    }

    /// The season's bonus for a retailer, in hundredths.
    pub open spec fn bonus_hundredths(self, retailer: Retailer) -> int {
        match (self, retailer) {
            (Season::Summer, Retailer::Target) => 120,
            (Season::Summer, Retailer::Walmart) => 110,
            (Season::Fall, Retailer::ITunes) => 130,
            (Season::Fall, Retailer::Amazon) => 120,
            (Season::Winter, Retailer::Amazon) => 150,
            (Season::Winter, Retailer::Starbucks) => 130,
            (Season::Winter, Retailer::ITunes) => 140,
            (Season::Winter, _) => 120,
            _ => 100,
        }
    }

    /// The season's base demand as a multiplier.
    pub open spec fn spec_demand_modifier(self) -> Multiplier {
        Multiplier::spec_from_hundredths(self.demand_hundredths())
    }

    /// The season's bonus for a retailer as a multiplier.
    pub open spec fn spec_retailer_bonus(self, retailer: Retailer) -> Multiplier {
        Multiplier::spec_from_hundredths(self.bonus_hundredths(retailer))
    }

    /// The season of a day.
    pub fn from_day(day: u32) -> (season: Season)
        requires
            day >= 1,
        ensures
            season == Season::spec_from_day(day as int),
    {
        let season_day: u32 = (day - 1) % 360;
        if season_day < 90 {
            Season::Spring
        } else if season_day < 180 {
            Season::Summer
        } else if season_day < 270 {
            Season::Fall
        } else {
            Season::Winter
        }
    }

    /// The season's name.
    pub fn display(&self) -> (name: &'static str)
        ensures
            name@ == self.spec_display(),
    {
        match self {
            Season::Spring => "Spring",
            Season::Summer => "Summer",
            Season::Fall => "Fall",
            Season::Winter => "Winter",
        }
    }

    /// The season's base demand.
    pub fn demand_modifier(&self) -> (m: Multiplier)
        ensures
            m == self.spec_demand_modifier(),
    {
        match self {
            Season::Spring => Multiplier::from_hundredths(100),
            Season::Summer => Multiplier::from_hundredths(110),
            Season::Fall => Multiplier::from_hundredths(90),
            Season::Winter => Multiplier::from_hundredths(140),
        }
    }

    /// The season's bonus for a retailer.
    pub fn retailer_bonus(&self, retailer: Retailer) -> (m: Multiplier)
        ensures
            m == self.spec_retailer_bonus(retailer),
    {
        match (self, retailer) {
            (Season::Summer, Retailer::Target) => Multiplier::from_hundredths(120),
            (Season::Summer, Retailer::Walmart) => Multiplier::from_hundredths(110),
            (Season::Fall, Retailer::ITunes) => Multiplier::from_hundredths(130),
            (Season::Fall, Retailer::Amazon) => Multiplier::from_hundredths(120),
            (Season::Winter, Retailer::Amazon) => Multiplier::from_hundredths(150),
            (Season::Winter, Retailer::Starbucks) => Multiplier::from_hundredths(130),
            (Season::Winter, Retailer::ITunes) => Multiplier::from_hundredths(140),
            (Season::Winter, _) => Multiplier::from_hundredths(120),
            _ => Multiplier::from_hundredths(100),
        }
    }
}

/// A temporary shift of prices and demand, for one retailer or for all.
#[derive(Debug)]
pub struct MarketEvent {
    pub name: String,
    pub description: String,
    /// The one retailer affected; `None` means all.
    pub retailer_affected: Option<Retailer>,
    pub price_multiplier: Multiplier,
    pub demand_multiplier: Multiplier,
    pub duration_days: u32,
    pub remaining_days: u32,
}

/// What a market event holds, with its texts as sequences of characters.
pub struct MarketEventView {
    pub name: Seq<char>,
    pub description: Seq<char>,
    pub retailer_affected: Option<Retailer>,
    pub price_multiplier: Multiplier,
    pub demand_multiplier: Multiplier,
    pub duration_days: u32,
    pub remaining_days: u32,
}

impl View for MarketEvent {
    type V = MarketEventView;

    open spec fn view(&self) -> MarketEventView {
        MarketEventView {
            name: self.name@,
            description: self.description@,
            retailer_affected: self.retailer_affected,
            price_multiplier: self.price_multiplier,
            demand_multiplier: self.demand_multiplier,
            duration_days: self.duration_days,
            remaining_days: self.remaining_days,
        }
    }
}

/// The number of event templates.
pub const TEMPLATE_COUNT: u32 = 8;

/// The event template at position `k`, as an event at its full duration.
pub open spec fn market_template(k: int) -> MarketEventView {
    if k == 0 {
        template_view(
            "Tech Surge"@,
            "New gadget releases drive tech gift card demand"@,
            Some(Retailer::ITunes),
            90,
            150,
            4,
        )
    } else if k == 1 {
        template_view(
            "Coffee Festival"@,
            "Local coffee festival increases Starbucks popularity"@,
            Some(Retailer::Starbucks),
            110,
            180,
            3,
        )
    } else if k == 2 {
        template_view(
            "Supply Chain Issues"@,
            "Logistics problems affect all retailers"@,
            None,
            130,
            70,
            5,
        )
    } else if k == 3 {
        template_view(
            "Amazon Prime Day"@,
            "Special Amazon promotion increases demand"@,
            Some(Retailer::Amazon),
            85,
            200,
            2,
        )
    } else if k == 4 {
        template_view(
            "Back to School"@,
            "Students need supplies, Target benefits"@,
            Some(Retailer::Target),
            105,
            140,
            7,
        )
    } else if k == 5 {
        template_view(
            "Economic Downturn"@,
            "Customers tighten budgets, demand drops"@,
            None,
            100,
            60,
            6,
        )
    } else if k == 6 {
        template_view(
            "Walmart Expansion"@,
            "New Walmart stores increase accessibility"@,
            Some(Retailer::Walmart),
            95,
            130,
            4,
        )
    } else {
        template_view(
            "Market Boom"@,
            "General economic growth benefits all retailers"@,
            None,
            90,
            120,
            5,
        )
    }
}

/// A fresh event from its texts, scope, multipliers in hundredths and
/// duration.
pub open spec fn template_view(
    name: Seq<char>,
    description: Seq<char>,
    retailer: Option<Retailer>,
    price_hundredths: int,
    demand_hundredths: int,
    duration: u32,
) -> MarketEventView {
    MarketEventView {
        name,
        description,
        retailer_affected: retailer,
        price_multiplier: Multiplier::spec_from_hundredths(price_hundredths),
        demand_multiplier: Multiplier::spec_from_hundredths(demand_hundredths),
        duration_days: duration,
        remaining_days: duration,
    }
}

/// The log line for an event that ended.
pub open spec fn ended_line(name: Seq<char>) -> Seq<char> {
    "📈 Market event '"@ + name + "' has ended"@
}

/// The log line for an event that began.
pub open spec fn began_line(name: Seq<char>) -> Seq<char> {
    "🎯 New market event: "@ + name
}

impl MarketEvent {
    /// Whether the event's scope includes `retailer`.
    pub open spec fn spec_affects(&self, retailer: Retailer) -> bool {
        match self.retailer_affected {
            None => true,
            Some(r) => r == retailer,
        }
    }

    /// Whether a day's aging ends the event.
    pub open spec fn ends_next(&self) -> bool {
        self.remaining_days <= 1
    }

    /// The event a day later.
    pub open spec fn aged(self) -> MarketEvent {
        MarketEvent { remaining_days: (self.remaining_days - 1) as u32, ..self }
    }

    /// A fresh event, with all of its duration remaining.
    pub fn new(
        name: &str,
        description: &str,
        retailer: Option<Retailer>,
        price_multiplier: Multiplier,
        demand_multiplier: Multiplier,
        duration: u32,
    ) -> (event: MarketEvent)
        ensures
            event@ == (MarketEventView {
                name: name@,
                description: description@,
                retailer_affected: retailer,
                price_multiplier,
                demand_multiplier,
                duration_days: duration,
                remaining_days: duration,
            }),
    {
        MarketEvent {
            name: String::from_str(name),
            description: String::from_str(description),
            retailer_affected: retailer,
            price_multiplier,
            demand_multiplier,
            duration_days: duration,
            remaining_days: duration,
        }
    }

    /// The event of the template at position `k`.
    pub fn from_template(k: u32) -> (event: MarketEvent)
        requires
            k < TEMPLATE_COUNT,
        ensures
            event@ == market_template(k as int),
    {
        if k == 0 {
            MarketEvent::new(
                "Tech Surge",
                "New gadget releases drive tech gift card demand",
                Some(Retailer::ITunes),
                Multiplier::from_hundredths(90),
                Multiplier::from_hundredths(150),
                4,
            )
        } else if k == 1 {
            MarketEvent::new(
                "Coffee Festival",
                "Local coffee festival increases Starbucks popularity",
                Some(Retailer::Starbucks),
                Multiplier::from_hundredths(110),
                Multiplier::from_hundredths(180),
                3,
            )
        } else if k == 2 {
            MarketEvent::new(
                "Supply Chain Issues",
                "Logistics problems affect all retailers",
                None,
                Multiplier::from_hundredths(130),
                Multiplier::from_hundredths(70),
                5,
            )
        } else if k == 3 {
            MarketEvent::new(
                "Amazon Prime Day",
                "Special Amazon promotion increases demand",
                Some(Retailer::Amazon),
                Multiplier::from_hundredths(85),
                Multiplier::from_hundredths(200),
                2,
            )
        } else if k == 4 {
            MarketEvent::new(
                "Back to School",
                "Students need supplies, Target benefits",
                Some(Retailer::Target),
                Multiplier::from_hundredths(105),
                Multiplier::from_hundredths(140),
                7,
            )
        } else if k == 5 {
            MarketEvent::new(
                "Economic Downturn",
                "Customers tighten budgets, demand drops",
                None,
                Multiplier::from_hundredths(100),
                Multiplier::from_hundredths(60),
                6,
            )
        } else if k == 6 {
            MarketEvent::new(
                "Walmart Expansion",
                "New Walmart stores increase accessibility",
                Some(Retailer::Walmart),
                Multiplier::from_hundredths(95),
                Multiplier::from_hundredths(130),
                4,
            )
        } else {
            MarketEvent::new(
                "Market Boom",
                "General economic growth benefits all retailers",
                None,
                Multiplier::from_hundredths(90),
                Multiplier::from_hundredths(120),
                5,
            )
        }
    }

    /// Whether no day of the event remains.
    pub fn is_expired(&self) -> (expired: bool)
        ensures
            expired == (self.remaining_days == 0),
    {
        self.remaining_days == 0
    }

    /// Whether the event's scope includes `retailer`.
    pub fn affects_retailer(&self, retailer: Retailer) -> (affects: bool)
        ensures
            affects == self.spec_affects(retailer),
    {
        match self.retailer_affected {
            None => true,
            Some(r) => r == retailer,
        }
    }
}

/// Whether a product is of price multipliers or of demand multipliers.
#[derive(Clone, Copy, Debug, PartialEq, Eq, Structural)]
pub enum Factor {
    Price,
    Demand,
}

/// `start` times the chosen multiplier of every event, in list order, whose
/// scope includes `retailer`.
pub open spec fn event_product(events: Seq<MarketEvent>, retailer: Retailer, factor: Factor, start: Multiplier) -> Multiplier
    decreases events.len(),
{
    if events.len() == 0 {
        start
    } else {
        let before = event_product(events.drop_last(), retailer, factor, start);
        let e = events.last();
        if e.spec_affects(retailer) {
            before.spec_times(
                match factor {
                    Factor::Price => e.price_multiplier,
                    Factor::Demand => e.demand_multiplier,
                },
            )
        } else {
            before
        }
    }
}

/// The events after a day: each one day shorter, and those that reached
/// zero days removed.
pub open spec fn aged_events(events: Seq<MarketEvent>) -> Seq<MarketEvent>
    decreases events.len(),
{
    if events.len() == 0 {
        events
    } else if events.last().ends_next() {
        aged_events(events.drop_last())
    } else {
        aged_events(events.drop_last()).push(events.last().aged())
    }
}

/// The log after a day's aging of the events: one line for each event that
/// ended, recorded in list order.
pub open spec fn ended_log(events: Seq<MarketEvent>, log: Seq<Seq<char>>) -> Seq<Seq<char>>
    decreases events.len(),
{
    if events.len() == 0 {
        log
    } else if events.last().ends_next() {
        with_entry(ended_log(events.drop_last(), log), ended_line(events.last().name@))
    } else {
        ended_log(events.drop_last(), log)
    }
}

/// The state of the market.
#[derive(Debug)]
pub struct MarketConditions {
    pub current_season: Season,
    pub active_events: Vec<MarketEvent>,
    pub base_demand_modifier: Multiplier,
    pub next_event_in_days: u32,
}

impl MarketConditions {
    /// The price multiplier for a retailer: the season's bonus times the
    /// price multiplier of every active event that includes the retailer.
    pub open spec fn spec_price_multiplier(&self, retailer: Retailer) -> Multiplier {
        event_product(
            self.active_events@,
            retailer,
            Factor::Price,
            Multiplier::spec_from_hundredths(100).spec_times(self.current_season.spec_retailer_bonus(retailer)),
        )
    }

    /// The demand multiplier for a retailer: the base demand times the
    /// season's bonus times the demand multiplier of every active event
    /// that includes the retailer.
    pub open spec fn spec_demand_multiplier(&self, retailer: Retailer) -> Multiplier {
        event_product(
            self.active_events@,
            retailer,
            Factor::Demand,
            self.base_demand_modifier.spec_times(self.current_season.spec_retailer_bonus(retailer)),
        )
    }

    /// The countdown after an event fired on `day`: five to fourteen days.
    pub open spec fn spec_next_countdown(day: u32) -> u32 {
        (5 + day % 10) as u32
    }

    /// The log after a day in the market: a line for each event that
    /// ended, then one for a new event where the countdown had elapsed.
    pub open spec fn daily_log(&self, day: u32, log: Seq<Seq<char>>) -> Seq<Seq<char>> {
        let ended = ended_log(self.active_events@, log);
        if self.next_event_in_days > 0 {
            ended
        } else {
            with_entry(ended, began_line(market_template((day % 8) as int).name))
        }
    }

    /// Whether the events and the countdown of `after` are those of this
    /// market a day later: the events aged; the countdown one lower, or,
    /// where it had elapsed, set anew with the event that the day selects
    /// added at the end.
    pub open spec fn events_after_day(&self, after: &MarketConditions, day: u32) -> bool {
        let aged = aged_events(self.active_events@);
        if self.next_event_in_days > 0 {
            &&& after.next_event_in_days == self.next_event_in_days - 1
            &&& after.active_events@ == aged
        } else {
            &&& after.next_event_in_days == MarketConditions::spec_next_countdown(day)
            &&& after.active_events@.len() == aged.len() + 1
            &&& after.active_events@.drop_last() == aged
            &&& after.active_events@.last()@ == market_template((day % 8) as int)
        }
    }

    /// A market in spring, without events, the first event four days away.
    pub fn new() -> (market: MarketConditions)
        ensures
            market.current_season == Season::Spring,
            market.active_events@ == Seq::<MarketEvent>::empty(),
            market.base_demand_modifier == Multiplier::spec_from_hundredths(100),
            market.next_event_in_days == 4,
    {
        MarketConditions {
            current_season: Season::Spring,
            active_events: Vec::new(),
            base_demand_modifier: Multiplier::from_hundredths(100),
            next_event_in_days: 4,
        }
    }

    /// Recomputes the season from the day; where it changed, the base
    /// demand follows the new season.
    pub fn update_season(&mut self, day: u32)
        requires
            day >= 1,
        ensures
            final(self).current_season == Season::spec_from_day(day as int),
            final(self).base_demand_modifier == (if old(self).current_season == Season::spec_from_day(
                day as int,
            ) {
                old(self).base_demand_modifier
            } else {
                Season::spec_from_day(day as int).spec_demand_modifier()
            }),
            final(self).active_events == old(self).active_events,
            final(self).next_event_in_days == old(self).next_event_in_days,
    {
        let new_season = Season::from_day(day);
        if new_season != self.current_season {
            self.current_season = new_season;
            self.base_demand_modifier = new_season.demand_modifier();
        }
    }

    /// Starts the event that the day selects among the eight templates, and
    /// logs it.
    pub fn generate_random_event(&mut self, day: u32, activities: &mut ActivityLog)
        ensures
            final(self).active_events@.len() == old(self).active_events@.len() + 1,
            final(self).active_events@.drop_last() == old(self).active_events@,
            final(self).active_events@.last()@ == market_template((day % 8) as int),
            final(self).current_season == old(self).current_season,
            final(self).base_demand_modifier == old(self).base_demand_modifier,
            final(self).next_event_in_days == old(self).next_event_in_days,
            final(activities)@ == with_entry(old(activities)@, began_line(market_template((day % 8) as int).name)),
            final(activities).wf(),
    {
        let event = MarketEvent::from_template(day % TEMPLATE_COUNT);
        let mut line = String::from_str("🎯 New market event: ");
        line.append(event.name.as_str());
        activities.record(line);
        self.active_events.push(event);
        assert(self.active_events@.drop_last() =~= old(self).active_events@);
    }

    /// A day in the market: every event ages by a day, and those that reach
    /// zero days end, each with a log line; then the countdown to the next
    /// event falls by one, or, where it had elapsed, a new event starts and
    /// the countdown is set to five to fourteen days.
    pub fn process_daily_events(&mut self, day: u32, activities: &mut ActivityLog)
        ensures
            final(self).current_season == old(self).current_season,
            final(self).base_demand_modifier == old(self).base_demand_modifier,
            old(self).events_after_day(final(self), day),
            final(activities)@ == old(self).daily_log(day, old(activities)@),
            old(activities).wf() ==> final(activities).wf(),
    {
        let ghost before = self.active_events@;
        let ghost log_before = activities@;
        let mut i: usize = 0;
        let ghost mut done: int = 0;
        proof {
            assert(before.take(0) =~= Seq::<MarketEvent>::empty());
            assert(before.skip(0) =~= before);
        }
        while i < self.active_events.len()
            invariant
                0 <= done <= before.len(),
                i == aged_events(before.take(done)).len(),
                self.active_events@ == aged_events(before.take(done)) + before.skip(done),
                activities@ == ended_log(before.take(done), log_before),
                self.current_season == old(self).current_season,
                self.base_demand_modifier == old(self).base_demand_modifier,
                self.next_event_in_days == old(self).next_event_in_days,
                old(activities).wf() ==> activities.wf(),
            decreases before.len() - done,
        {
            proof {
                assert(before.take(done + 1).drop_last() =~= before.take(done));
                assert(before.take(done + 1).last() == before[done]);
                assert(self.active_events@[i as int] == before[done]);
            }
            if self.active_events[i].remaining_days <= 1 {
                let mut line = String::from_str("📈 Market event '");
                line.append(self.active_events[i].name.as_str());
                line.append("' has ended");
                activities.record(line);
                self.active_events.remove(i);
                assert(self.active_events@ =~= aged_events(before.take(done + 1)) + before.skip(done + 1));
            } else {
                self.active_events[i].remaining_days = self.active_events[i].remaining_days - 1;
                assert(self.active_events@[i as int] == before[done].aged());
                assert(self.active_events@ =~= aged_events(before.take(done + 1)) + before.skip(done + 1));
                i = i + 1;
            }
            proof {
                done = done + 1;
            }
        }
        proof {
            assert(done == before.len()) by {
                if done < before.len() {
                    assert((aged_events(before.take(done)) + before.skip(done)).len() > i);
                }
            }
            assert(before.take(done) =~= before);
            assert(self.active_events@ =~= aged_events(before));
        }
        if self.next_event_in_days > 0 {
            self.next_event_in_days = self.next_event_in_days - 1;
        } else {
            self.generate_random_event(day, activities);
            self.next_event_in_days = 5 + day % 10;
        }
    }

    /// The price multiplier for a retailer.
    pub fn get_price_multiplier(&self, retailer: Retailer) -> (m: Multiplier)
        ensures
            m == self.spec_price_multiplier(retailer),
    {
        let start = Multiplier::one().times(self.current_season.retailer_bonus(retailer));
        self.fold_events(retailer, Factor::Price, start)
    }

    /// The price multiplier for a retailer with the temporary modifiers of
    /// narrative events: the market's price multiplier times the price
    /// multiplier of every temporary modifier, whatever the retailer.
    pub fn get_price_multiplier_with_random_events(
        &self,
        retailer: Retailer,
        random_events: &RandomEventManager,
    ) -> (m: Multiplier)
        ensures
            m == modifier_product(
                random_events.temp_modifiers@,
                Factor::Price,
                self.spec_price_multiplier(retailer),
            ),
    {
        random_events.fold_modifiers(Factor::Price, self.get_price_multiplier(retailer))
    }

    /// The demand multiplier for a retailer.
    pub fn get_demand_multiplier(&self, retailer: Retailer) -> (m: Multiplier)
        ensures
            m == self.spec_demand_multiplier(retailer),
    {
        let start = self.base_demand_modifier.times(self.current_season.retailer_bonus(retailer));
        self.fold_events(retailer, Factor::Demand, start)
    }

    /// `start` times the chosen multiplier of every active event that
    /// includes `retailer`.
    pub fn fold_events(&self, retailer: Retailer, factor: Factor, start: Multiplier) -> (m: Multiplier)
        ensures
            m == event_product(self.active_events@, retailer, factor, start),
    {
        let mut m = start;
        let mut i: usize = 0;
        assert(self.active_events@.take(0) =~= Seq::<MarketEvent>::empty());
        while i < self.active_events.len()
            invariant
                i <= self.active_events@.len(),
                m == event_product(self.active_events@.take(i as int), retailer, factor, start),
            decreases self.active_events@.len() - i,
        {
            assert(self.active_events@.take(i + 1).drop_last() =~= self.active_events@.take(i as int));
            let event = &self.active_events[i];
            if event.affects_retailer(retailer) {
                m = match factor {
                    Factor::Price => m.times(event.price_multiplier),
                    Factor::Demand => m.times(event.demand_multiplier),
                };
            }
            i = i + 1;
        }
        assert(self.active_events@.take(i as int) =~= self.active_events@);
        m
    }
}

} // verus!
