//! Narrative events: what an event holds, the fifteen templates, the
//! effects of the player's choices, and the temporary modifiers that
//! choices leave behind.

use vstd::prelude::*;
use vstd::string::StringExecFns;
use crate::multiplier::Multiplier;
use crate::retailer::Retailer;

verus! {

/// The kinds of narrative event.
#[derive(Clone, Copy, Debug, PartialEq, Eq, Structural)]
pub enum RandomEventType {
    LoyalCustomer,
    SupplierDiscount,
    MediaAttention,
    LuckyFind,
    TechGlitch,
    CardTheft,
    CustomerComplaint,
    SupplierIssue,
    MarketCrash,
    RegulationChange,
    BusinessOffer,
    CharityRequest,
    InventoryAudit,
    CompetitorMeeting,
    CustomerSurvey,
}

/// A narrative event.
#[derive(Debug)]
pub struct RandomEvent {
    pub event_type: RandomEventType,
    pub title: String,
    pub description: String,
    pub choice_a: Option<String>,
    pub choice_b: Option<String>,
    pub choice_c: Option<String>,
    /// Whether the event resolves without a choice of the player.
    pub auto_resolve: bool,
    pub cash_impact: i32,
    pub reputation_impact: i8,
    /// Changes of card counts, by retailer.
    pub inventory_impact: Vec<(Retailer, i32)>,
    pub duration_days: u32,
    pub active: bool,
}

/// A temporary global shift of prices and demand.
#[derive(Debug)]
pub struct TempModifier {
    pub name: String,
    pub description: String,
    pub price_multiplier: Multiplier,
    pub demand_multiplier: Multiplier,
    pub reputation_protection: bool,
    pub remaining_days: u32,
}

/// What a choice or an automatic event does to the account.
#[derive(Clone, Copy, Debug, PartialEq, Eq, Structural)]
pub struct Effect {
    pub cash: i32,
    pub reputation: i8,
}

/// The text of an optional string.
pub open spec fn text_of(label: Option<String>) -> Option<Seq<char>> {
    match label {
        Some(s) => Some(s@),
        None => None,
    }
}

/// What a narrative event holds, with its texts as sequences of characters.
pub struct RandomEventView {
    pub event_type: RandomEventType,
    pub title: Seq<char>,
    pub description: Seq<char>,
    pub choice_a: Option<Seq<char>>,
    pub choice_b: Option<Seq<char>>,
    pub choice_c: Option<Seq<char>>,
    pub auto_resolve: bool,
    pub cash_impact: i32,
    pub reputation_impact: i8,
    pub inventory_impact: Seq<(Retailer, i32)>,
    pub duration_days: u32,
    pub active: bool,
}

impl View for RandomEvent {
    type V = RandomEventView;

    open spec fn view(&self) -> RandomEventView {
        RandomEventView {
            event_type: self.event_type,
            title: self.title@,
            description: self.description@,
            choice_a: text_of(self.choice_a),
            choice_b: text_of(self.choice_b),
            choice_c: text_of(self.choice_c),
            auto_resolve: self.auto_resolve,
            cash_impact: self.cash_impact,
            reputation_impact: self.reputation_impact,
            inventory_impact: self.inventory_impact@,
            duration_days: self.duration_days,
            active: self.active,
        }
    }
}

/// What a temporary modifier holds, with its texts as sequences of
/// characters.
pub struct TempModifierView {
    pub name: Seq<char>,
    pub description: Seq<char>,
    pub price_multiplier: Multiplier,
    pub demand_multiplier: Multiplier,
    pub reputation_protection: bool,
    pub remaining_days: u32,
}

impl View for TempModifier {
    type V = TempModifierView;

    open spec fn view(&self) -> TempModifierView {
        TempModifierView {
            name: self.name@,
            description: self.description@,
            price_multiplier: self.price_multiplier,
            demand_multiplier: self.demand_multiplier,
            reputation_protection: self.reputation_protection,
            remaining_days: self.remaining_days,
        }
    }
}

/// An event that resolves by itself.
pub open spec fn auto_event(
    event_type: RandomEventType,
    title: Seq<char>,
    description: Seq<char>,
    cash: i32,
    reputation: i8,
    duration: u32,
) -> RandomEventView {
    RandomEventView {
        event_type,
        title,
        description,
        choice_a: None,
        choice_b: None,
        choice_c: None,
        auto_resolve: true,
        cash_impact: cash,
        reputation_impact: reputation,
        inventory_impact: Seq::empty(),
        duration_days: duration,
        active: true,
    }
}

/// An event that waits for a choice among two or three labels.
pub open spec fn choice_event(
    event_type: RandomEventType,
    title: Seq<char>,
    description: Seq<char>,
    choice_a: Seq<char>,
    choice_b: Seq<char>,
    choice_c: Option<Seq<char>>,
) -> RandomEventView {
    RandomEventView {
        event_type,
        title,
        description,
        choice_a: Some(choice_a),
        choice_b: Some(choice_b),
        choice_c,
        auto_resolve: false,
        cash_impact: 0,
        reputation_impact: 0,
        inventory_impact: Seq::empty(),
        duration_days: 1,
        active: true,
    }
}

/// The number of narrative templates.
pub const NARRATIVE_COUNT: u32 = 15;

/// The narrative template at position `k`.
pub open spec fn narrative_template(k: int) -> RandomEventView {
    if k == 0 {
        auto_event(
            RandomEventType::LoyalCustomer,
            "Loyal Customer Returns"@,
            "A satisfied customer wants to buy $2000 worth of gift cards at premium prices!"@,
            2000,
            1,
            1,
        )
    } else if k == 1 {
        auto_event(
            RandomEventType::SupplierDiscount,
            "Supplier Discount"@,
            "Your supplier offers 15% off your next 3 purchases due to good relationship!"@,
            0,
            0,
            1,
        )
    } else if k == 2 {
        auto_event(
            RandomEventType::MediaAttention,
            "Positive Media Coverage"@,
            "Local news features your business! Reputation increases and more customers arrive."@,
            500,
            1,
            3,
        )
    } else if k == 3 {
        auto_event(
            RandomEventType::LuckyFind,
            "Inventory Audit Bonus"@,
            "During inventory count, you discover some cards are worth more than expected!"@,
            800,
            0,
            1,
        )
    } else if k == 4 {
        auto_event(
            RandomEventType::TechGlitch,
            "Competitor System Down"@,
            "Major online competitor experiences technical issues. Customers flock to you!"@,
            0,
            0,
            2,
        )
    } else if k == 5 {
        auto_event(
            RandomEventType::CardTheft,
            "Security Incident"@,
            "Unfortunately, some inventory was stolen. Insurance covers part of the loss."@,
            -300i32,
            -1i8,
            1,
        )
    } else if k == 6 {
        auto_event(
            RandomEventType::CustomerComplaint,
            "Customer Complaint"@,
            "An unsatisfied customer posts negative reviews. You compensate to maintain reputation."@,
            -400i32,
            -1i8,
            1,
        )
    } else if k == 7 {
        auto_event(
            RandomEventType::SupplierIssue,
            "Supplier Price Increase"@,
            "Your main supplier raises prices due to increased demand. Costs go up temporarily."@,
            0,
            0,
            5,
        )
    } else if k == 8 {
        auto_event(
            RandomEventType::MarketCrash,
            "Market Downturn"@,
            "Economic uncertainty affects gift card values. Customer demand drops temporarily."@,
            0,
            0,
            4,
        )
    } else if k == 9 {
        auto_event(
            RandomEventType::RegulationChange,
            "New Regulations"@,
            "Government introduces new gift card regulations. Compliance costs required."@,
            -600i32,
            0,
            1,
        )
    } else if k == 10 {
        choice_event(
            RandomEventType::BusinessOffer,
            "Partnership Proposal"@,
            "Another gift card business proposes a partnership. Split costs but share profits."@,
            "Accept partnership (-$1000, get purchase discount)"@,
            "Decline and stay independent (+reputation)"@,
            None,
        )
    } else if k == 11 {
        choice_event(
            RandomEventType::CharityRequest,
            "Charity Fundraiser"@,
            "Local charity asks for donation. Good for reputation but costs money or inventory."@,
            "Donate $500 cash (++reputation)"@,
            "Donate 2 Amazon cards (+reputation)"@,
            Some("Politely decline (-reputation)"@),
        )
    } else if k == 12 {
        auto_event(
            RandomEventType::InventoryAudit,
            "Surprise Inventory Check"@,
            "Accounting review reveals minor discrepancies. Small penalty but processes improved."@,
            -200i32,
            0,
            1,
        )
    } else if k == 13 {
        choice_event(
            RandomEventType::CompetitorMeeting,
            "Competitor Conference"@,
            "Industry meeting with other gift card sellers. Choose your approach."@,
            "Collaborate for mutual benefit (+demand)"@,
            "Compete aggressively (price war)"@,
            None,
        )
    } else {
        auto_event(
            RandomEventType::CustomerSurvey,
            "Customer Feedback Survey"@,
            "Customer survey results show satisfaction with your service. Reputation boost!"@,
            0,
            1,
            1,
        )
    }
}

/// The cash that a choice brings or costs; zero for every pair of kind and
/// choice that the table does not hold.
pub open spec fn choice_cash(event_type: RandomEventType, choice: int) -> i32 {
    match event_type {
        RandomEventType::BusinessOffer => if choice == 0 {
            -1000i32
        } else {
            0i32
        },
        RandomEventType::CharityRequest => if choice == 0 {
            -500i32
        } else {
            0i32
        },
        RandomEventType::CompetitorMeeting => if choice == 1 {
            -200i32
        } else {
            0i32
        },
        _ => 0i32,
    }
}

/// The reputation that a choice brings or costs; zero for every pair of
/// kind and choice that the table does not hold.
pub open spec fn choice_reputation(event_type: RandomEventType, choice: int) -> i8 {
    match event_type {
        RandomEventType::BusinessOffer => if choice == 1 {
            1i8
        } else {
            0i8
        },
        RandomEventType::CharityRequest => if choice == 0 {
            2i8
        } else if choice == 1 {
            1i8
        } else if choice == 2 {
            -1i8
        } else {
            0i8
        },
        _ => 0i8,
    }
}

/// A temporary modifier from its texts, its multipliers in hundredths and
/// its days; none protects the reputation.
pub open spec fn modifier_view(
    name: Seq<char>,
    description: Seq<char>,
    price_hundredths: int,
    demand_hundredths: int,
    days: u32,
) -> TempModifierView {
    TempModifierView {
        name,
        description,
        price_multiplier: Multiplier::spec_from_hundredths(price_hundredths),
        demand_multiplier: Multiplier::spec_from_hundredths(demand_hundredths),
        reputation_protection: false,
        remaining_days: days,
    }
}

/// The temporary modifiers that a choice leaves behind; none for every pair
/// of kind and choice that the table does not hold.
pub open spec fn choice_modifiers(event_type: RandomEventType, choice: int) -> Seq<TempModifierView> {
    match event_type {
        RandomEventType::BusinessOffer => if choice == 0 {
            seq![
                modifier_view("Business Partnership"@, "10% discount on purchases"@, 90, 100, 14),
            ]
        } else {
            Seq::empty()
        },
        RandomEventType::CompetitorMeeting => if choice == 0 {
            seq![
                modifier_view("Market Collaboration"@, "Increased customer demand"@, 100, 130, 10),
            ]
        } else if choice == 1 {
            seq![
                modifier_view("Price War"@, "Cheaper purchases but lower demand"@, 85, 80, 7),
            ]
        } else {
            Seq::empty()
        },
        _ => Seq::empty(),
    }
}

/// The card changes that a choice notes on the event: two Amazon cards
/// given away for the second choice of a charity request, else none.
pub open spec fn choice_inventory(event_type: RandomEventType, choice: int) -> Seq<(Retailer, i32)> {
    if event_type == RandomEventType::CharityRequest && choice == 1 {
        seq![(Retailer::Amazon, -2i32)]
    } else {
        Seq::empty()
    }
}

/// The views of a list of temporary modifiers.
pub open spec fn modifier_views(modifiers: Seq<TempModifier>) -> Seq<TempModifierView> {
    modifiers.map_values(|m: TempModifier| m@)
}

/// The choice labels that an event offers, in order.
pub open spec fn choice_labels(event: RandomEventView) -> Seq<Seq<char>> {
    let a = match event.choice_a {
        Some(label) => seq![label],
        None => Seq::empty(),
    };
    let b = match event.choice_b {
        Some(label) => seq![label],
        None => Seq::empty(),
    };
    let c = match event.choice_c {
        Some(label) => seq![label],
        None => Seq::empty(),
    };
    a + b + c
}

impl TempModifier {
    /// Whether a day's aging ends the modifier.
    pub open spec fn ends_next(&self) -> bool {
        self.remaining_days <= 1
    }

    /// The modifier a day later.
    pub open spec fn aged(self) -> TempModifier {
        TempModifier {
            remaining_days: if self.remaining_days > 0 {
                (self.remaining_days - 1) as u32
            } else {
                0
            },
            ..self
        }
    }

    /// A modifier from its texts, its multipliers in hundredths and its
    /// days.
    pub fn new(name: &str, description: &str, price_hundredths: u32, demand_hundredths: u32, days: u32) -> (m:
        TempModifier)
        ensures
            m@ == modifier_view(name@, description@, price_hundredths as int, demand_hundredths as int, days),
    {
        TempModifier {
            name: String::from_str(name),
            description: String::from_str(description),
            price_multiplier: Multiplier::from_hundredths(price_hundredths),
            demand_multiplier: Multiplier::from_hundredths(demand_hundredths),
            reputation_protection: false,
            remaining_days: days,
        }
    }

    /// Takes a day off the modifier, down to zero.
    pub fn age_day(&mut self)
        ensures
            *final(self) == old(self).aged(),
    {
        if self.remaining_days > 0 {
            self.remaining_days = self.remaining_days - 1;
        }
    }

    /// Whether no day of the modifier remains.
    pub fn is_expired(&self) -> (expired: bool)
        ensures
            expired == (self.remaining_days == 0),
    {
        self.remaining_days == 0
    }
}

impl RandomEvent {
    /// What the event does to the account when it resolves by itself.
    pub open spec fn spec_own_effect(&self) -> Effect {
        Effect { cash: self.cash_impact, reputation: self.reputation_impact }
    }

    /// An event that resolves by itself.
    pub fn new_auto_event(
        event_type: RandomEventType,
        title: &str,
        description: &str,
        cash: i32,
        reputation: i8,
        duration: u32,
    ) -> (event: RandomEvent)
        ensures
            event@ == auto_event(event_type, title@, description@, cash, reputation, duration),
    {
        RandomEvent {
            event_type,
            title: String::from_str(title),
            description: String::from_str(description),
            choice_a: None,
            choice_b: None,
            choice_c: None,
            auto_resolve: true,
            cash_impact: cash,
            reputation_impact: reputation,
            inventory_impact: Vec::new(),
            duration_days: duration,
            active: true,
        }
    }

    /// An event that waits for a choice among two or three labels.
    pub fn new_choice_event(
        event_type: RandomEventType,
        title: &str,
        description: &str,
        choice_a: &str,
        choice_b: &str,
        choice_c: Option<&str>,
    ) -> (event: RandomEvent)
        ensures
            event@ == choice_event(
                event_type,
                title@,
                description@,
                choice_a@,
                choice_b@,
                match choice_c {
                    Some(label) => Some(label@),
                    None => None,
                },
            ),
    {
        let third = match choice_c {
            Some(label) => Some(String::from_str(label)),
            None => None,
        };
        RandomEvent {
            event_type,
            title: String::from_str(title),
            description: String::from_str(description),
            choice_a: Some(String::from_str(choice_a)),
            choice_b: Some(String::from_str(choice_b)),
            choice_c: third,
            auto_resolve: false,
            cash_impact: 0,
            reputation_impact: 0,
            inventory_impact: Vec::new(),
            duration_days: 1,
            active: true,
        }
    }

    /// What the event does to the account when it resolves by itself.
    pub fn own_effect(&self) -> (effect: Effect)
        ensures
            effect == self.spec_own_effect(),
    {
        Effect { cash: self.cash_impact, reputation: self.reputation_impact }
    }

    /// Resolves the event by the choice at `choice`: looks the pair of kind
    /// and choice up in the table, notes cash, reputation and card changes on
    /// the event, and returns cash, reputation and the temporary modifiers.
    pub fn apply_choice(&mut self, choice: usize) -> (result: (i32, i8, Vec<TempModifier>))
        ensures
            result.0 == choice_cash(old(self).event_type, choice as int),
            result.1 == choice_reputation(old(self).event_type, choice as int),
            modifier_views(result.2@) == choice_modifiers(old(self).event_type, choice as int),
            final(self)@ == (RandomEventView {
                cash_impact: result.0,
                reputation_impact: result.1,
                inventory_impact: old(self).inventory_impact@ + choice_inventory(
                    old(self).event_type,
                    choice as int,
                ),
                ..old(self)@
            }),
    {
        let mut temp_modifiers: Vec<TempModifier> = Vec::new();
        let ghost impact_before = self.inventory_impact@;
        match (self.event_type, choice) {
            (RandomEventType::BusinessOffer, 0) => {
                self.cash_impact = -1000;
                self.reputation_impact = 0;
                temp_modifiers.push(
                    TempModifier::new("Business Partnership", "10% discount on purchases", 90, 100, 14),
                );
            },
            (RandomEventType::BusinessOffer, 1) => {
                self.cash_impact = 0;
                self.reputation_impact = 1;
            },
            (RandomEventType::CharityRequest, 0) => {
                self.cash_impact = -500;
                self.reputation_impact = 2;
            },
            (RandomEventType::CharityRequest, 1) => {
                self.cash_impact = 0;
                self.reputation_impact = 1;
                self.inventory_impact.push((Retailer::Amazon, -2));
            },
            (RandomEventType::CharityRequest, 2) => {
                self.cash_impact = 0;
                self.reputation_impact = -1;
            },
            (RandomEventType::CompetitorMeeting, 0) => {
                self.cash_impact = 0;
                self.reputation_impact = 0;
                temp_modifiers.push(
                    TempModifier::new("Market Collaboration", "Increased customer demand", 100, 130, 10),
                );
            },
            (RandomEventType::CompetitorMeeting, 1) => {
                self.cash_impact = -200;
                self.reputation_impact = 0;
                temp_modifiers.push(
                    TempModifier::new("Price War", "Cheaper purchases but lower demand", 85, 80, 7),
                );
            },
            _ => {
                self.cash_impact = 0;
                self.reputation_impact = 0;
            },
        }
        proof {
            assert(modifier_views(temp_modifiers@) =~= choice_modifiers(old(self).event_type, choice as int));
            assert(self.inventory_impact@ =~= impact_before + choice_inventory(
                old(self).event_type,
                choice as int,
            ));
        }
        (self.cash_impact, self.reputation_impact, temp_modifiers)
    }

    /// The choice labels that the event offers, in order.
    pub fn get_choices(&self) -> (choices: Vec<&str>)
        ensures
            choices@.len() == choice_labels(self@).len(),
            forall|i: int| 0 <= i < choices@.len() ==> (#[trigger] choices@[i])@ == choice_labels(self@)[i],
    {
        let mut choices: Vec<&str> = Vec::new();
        if let Some(choice) = &self.choice_a {
            choices.push(choice.as_str());
        }
        if let Some(choice) = &self.choice_b {
            choices.push(choice.as_str());
        }
        if let Some(choice) = &self.choice_c {
            choices.push(choice.as_str());
        }
        choices
    }
}

} // verus!
