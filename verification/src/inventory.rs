//! The inventory ledger: card lots with quantities, their totals, aging,
//! merging of purchases and consumption by sales.

use vstd::prelude::*;
use crate::multiplier::saturate_u32;
use crate::retailer::Retailer;

verus! {

/// A kind of card as it was bought: issuer, face value, unit cost and the
/// days left before it expires.
#[derive(Clone, Copy, Debug, PartialEq, Eq, Structural)]
pub struct GiftCard {
    pub retailer: Retailer,
    pub denomination: u32,
    pub purchase_price: u32,
    pub days_until_expiration: u32,
}

/// A lot: a kind of card and how many of it are held.
#[derive(Clone, Copy, Debug, PartialEq, Eq, Structural)]
pub struct InventoryItem {
    pub card: GiftCard,
    pub quantity: u32,
}

/// The retail markup of a retailer's cards, in hundredths of face value.
pub open spec fn markup_hundredths(retailer: Retailer) -> int {
    match retailer {
        Retailer::Amazon => 130,
        Retailer::Starbucks => 125,
        Retailer::Target => 128,
        Retailer::ITunes => 122,
        Retailer::Walmart => 120,
        Retailer::Other => 125,
    }
}

impl GiftCard {
    /// The market value of one card: face value times the retailer's markup,
    /// rounded down.
    pub open spec fn spec_market_value(self) -> u32 {
        saturate_u32(self.denomination as int * markup_hundredths(self.retailer) / 100)
    }

    /// Market value less unit cost.
    pub open spec fn spec_potential_profit(self) -> int {
        self.spec_market_value() as int - self.purchase_price as int
    }

    /// Whether two cards merge into one lot: same issuer, face value and
    /// unit cost.
    pub open spec fn same_lot(self, other: GiftCard) -> bool {
        self.retailer == other.retailer && self.denomination == other.denomination
            && self.purchase_price == other.purchase_price
    }

    /// Whether the card answers a request for `retailer` cards of face value
    /// `denomination`.
    pub open spec fn answers(self, retailer: Retailer, denomination: u32) -> bool {
        self.retailer == retailer && self.denomination == denomination
    }

    /// Describes a card; the retailer is read from its name.
    pub fn new(retailer: &str, denomination: u32, purchase_price: u32, days_until_expiration: u32) -> (card:
        GiftCard)
        ensures
            card == (GiftCard {
                retailer: Retailer::spec_from_name(retailer@),
                denomination,
                purchase_price,
                days_until_expiration,
            }),
    {
        GiftCard { retailer: Retailer::from_name(retailer), denomination, purchase_price, days_until_expiration }
    }

    /// The market value of one card.
    pub fn market_value(&self) -> (value: u32)
        ensures
            value == self.spec_market_value(),
    {
        let hundredths: u64 = match self.retailer {
            Retailer::Amazon => 130,
            Retailer::Starbucks => 125,
            Retailer::Target => 128,
            Retailer::ITunes => 122,
            Retailer::Walmart => 120,
            Retailer::Other => 125,
        };
        let face: u64 = self.denomination as u64;
        assert(face * hundredths <= 0xffff_ffff * 130) by (nonlinear_arith)
            requires
                face <= 0xffff_ffff,
                hundredths <= 130,
        ;
        let value: u64 = face * hundredths / 100;
        if value > 0xffff_ffff {
            u32::MAX
        } else {
            value as u32
        }
    }

    /// What selling one card at market value would earn over its cost.
    pub fn potential_profit(&self) -> (profit: i64)
        ensures
            profit == self.spec_potential_profit(),
    {
        self.market_value() as i64 - self.purchase_price as i64
    }

    /// Whether the card expires within 15 days.
    pub fn is_expiring_soon(&self) -> (soon: bool)
        ensures
            soon == (self.days_until_expiration <= 15),
    {
        self.days_until_expiration <= 15
    }
}

impl InventoryItem {
    /// The market value of the whole lot.
    pub open spec fn spec_total_value(self) -> nat {
        (self.card.spec_market_value() as nat) * (self.quantity as nat)
    }

    /// What the whole lot cost.
    pub open spec fn spec_total_cost(self) -> nat {
        (self.card.purchase_price as nat) * (self.quantity as nat)
    }

    /// The lot a day later.
    pub open spec fn aged(self) -> InventoryItem {
        InventoryItem {
            card: GiftCard {
                days_until_expiration: (self.card.days_until_expiration - 1) as u32,
                ..self.card
            },
            quantity: self.quantity,
        }
    }

    /// Whether a day's aging leaves the lot expired.
    pub open spec fn expires_next(self) -> bool {
        self.card.days_until_expiration <= 1
    }

    /// A lot of `quantity` cards.
    pub fn new(card: GiftCard, quantity: u32) -> (item: InventoryItem)
        ensures
            item == (InventoryItem { card, quantity }),
    {
        InventoryItem { card, quantity }
    }

    /// The market value of the whole lot.
    pub fn total_value(&self) -> (value: u64)
        ensures
            value == self.spec_total_value(),
    {
        let unit: u64 = self.card.market_value() as u64;
        let count: u64 = self.quantity as u64;
        assert(unit * count <= 0xffff_ffff * 0xffff_ffff) by (nonlinear_arith)
            requires
                unit <= 0xffff_ffff,
                count <= 0xffff_ffff,
        ;
        unit * count
    }

    /// What the whole lot cost.
    pub fn total_cost(&self) -> (cost: u64)
        ensures
            cost == self.spec_total_cost(),
    {
        let unit: u64 = self.card.purchase_price as u64;
        let count: u64 = self.quantity as u64;
        assert(unit * count <= 0xffff_ffff * 0xffff_ffff) by (nonlinear_arith)
            requires
                unit <= 0xffff_ffff,
                count <= 0xffff_ffff,
        ;
        unit * count
    }
}

/// A quantity that each lot contributes to a total over the ledger.
#[derive(Clone, Copy, Debug)]
pub enum Measure {
    /// The cards of the lot.
    Cards,
    /// The market value of the lot.
    Value,
    /// The cost of the lot.
    Cost,
    /// The cards of the lot if it answers a request for the given retailer
    /// and face value, else nothing.
    Matching(Retailer, u32),
    /// The cards of the lot if the next day's aging expires it, else nothing.
    ExpiringCards,
    /// The cost of the lot if the next day's aging expires it, else nothing.
    ExpiringCost,
    /// One if the lot expires within 15 days, else nothing.
    ExpiringSoon,
}

impl Measure {
    /// What the lot `e` contributes.
    pub open spec fn of(self, e: InventoryItem) -> nat {
        match self {
            Measure::Cards => e.quantity as nat,
            Measure::Value => e.spec_total_value(),
            Measure::Cost => e.spec_total_cost(),
            Measure::Matching(retailer, denomination) => if e.card.answers(retailer, denomination) {
                e.quantity as nat
            } else {
                0
            },
            Measure::ExpiringCards => if e.expires_next() {
                e.quantity as nat
            } else {
                0
            },
            Measure::ExpiringCost => if e.expires_next() {
                e.spec_total_cost()
            } else {
                0
            },
            Measure::ExpiringSoon => if e.card.days_until_expiration <= 15 {
                1
            } else {
                0
            },
        }
    }
}

/// The sum of a measure over the lots of a ledger.
pub open spec fn sum_by(s: Seq<InventoryItem>, m: Measure) -> nat
    decreases s.len(),
{
    if s.len() == 0 {
        0
    } else {
        m.of(s[0]) + sum_by(s.skip(1), m)
    }
}

/// The number of cards in the ledger.
pub open spec fn ledger_cards(s: Seq<InventoryItem>) -> nat {
    sum_by(s, Measure::Cards)
}

/// The market value of the ledger: the sum over its lots of market value per
/// card times quantity.
pub open spec fn ledger_value(s: Seq<InventoryItem>) -> nat {
    sum_by(s, Measure::Value)
}

/// What the ledger cost: the sum over its lots of unit cost times quantity.
pub open spec fn ledger_cost(s: Seq<InventoryItem>) -> nat {
    sum_by(s, Measure::Cost)
}

/// The number of cards in the ledger that answer a request for `retailer`
/// cards of face value `denomination`.
pub open spec fn matching_cards(s: Seq<InventoryItem>, retailer: Retailer, denomination: u32) -> nat {
    sum_by(s, Measure::Matching(retailer, denomination))
}

/// The number of cards that the next day's aging will expire.
pub open spec fn expiring_cards(s: Seq<InventoryItem>) -> nat {
    sum_by(s, Measure::ExpiringCards)
}

/// What the cards cost that the next day's aging will expire.
pub open spec fn expiring_cost(s: Seq<InventoryItem>) -> nat {
    sum_by(s, Measure::ExpiringCost)
}

/// The number of lots that expire within 15 days.
pub open spec fn expiring_soon_lots(s: Seq<InventoryItem>) -> nat {
    sum_by(s, Measure::ExpiringSoon)
}

/// The retailers that have a lot in the ledger.
pub open spec fn retailers_held(s: Seq<InventoryItem>) -> Set<Retailer> {
    Set::new(|r: Retailer| exists|i: int| 0 <= i < s.len() && #[trigger] s[i].card.retailer == r)
}

/// A well-formed ledger: no lot is empty, and the card count fits in 32 bits.
pub open spec fn ledger_wf(s: Seq<InventoryItem>) -> bool {
    &&& forall|i: int| 0 <= i < s.len() ==> (#[trigger] s[i]).quantity > 0
    &&& ledger_cards(s) <= u32::MAX
}

/// The ledger after a day: every lot one day closer to expiry, and the lots
/// that reached zero days removed.
pub open spec fn aged_ledger(s: Seq<InventoryItem>) -> Seq<InventoryItem>
    decreases s.len(),
{
    if s.len() == 0 {
        s
    } else if s[0].expires_next() {
        aged_ledger(s.skip(1))
    } else {
        seq![s[0].aged()] + aged_ledger(s.skip(1))
    }
}

/// The position of the first lot that a purchase of `card` merges into, or
/// the ledger's length where there is none.
pub open spec fn merge_position(s: Seq<InventoryItem>, card: GiftCard) -> int
    decreases s.len(),
{
    if s.len() == 0 {
        0
    } else if s[0].card.same_lot(card) {
        0
    } else {
        1 + merge_position(s.skip(1), card)
    }
}

/// The ledger after a purchase of `quantity` cards like `card`: added to the
/// first lot of the same issuer, face value and unit cost, or appended as a
/// new lot.
pub open spec fn with_purchase(s: Seq<InventoryItem>, card: GiftCard, quantity: u32) -> Seq<
    InventoryItem,
> {
    let at = merge_position(s, card);
    if at < s.len() {
        s.update(at, InventoryItem { card: s[at].card, quantity: (s[at].quantity + quantity) as u32 })
    } else {
        s.push(InventoryItem { card, quantity })
    }
}

/// The ledger after `needed` cards of the given retailer and face value were
/// taken from it, lot by lot in ledger order; a lot that is drained leaves
/// the ledger.
pub open spec fn consumed(s: Seq<InventoryItem>, retailer: Retailer, denomination: u32, needed: nat) -> Seq<
    InventoryItem,
>
    decreases s.len(),
{
    if s.len() == 0 {
        s
    } else if needed > 0 && s[0].card.answers(retailer, denomination) {
        if s[0].quantity as nat <= needed {
            consumed(s.skip(1), retailer, denomination, (needed - s[0].quantity as nat) as nat)
        } else {
            seq![InventoryItem { card: s[0].card, quantity: (s[0].quantity as nat - needed) as u32 }]
                + s.skip(1)
        }
    } else {
        seq![s[0]] + consumed(s.skip(1), retailer, denomination, needed)
    }
}

/// A sum over a ledger from position `i` on is the lot at `i` plus the sum
/// from `i + 1` on.
pub proof fn lemma_sum_step(s: Seq<InventoryItem>, i: int, m: Measure)
    requires
        0 <= i < s.len(),
    ensures
        sum_by(s.skip(i), m) == m.of(s[i]) + sum_by(s.skip(i + 1), m),
{
    assert(s.skip(i).skip(1) =~= s.skip(i + 1));
}

/// A sum over a ledger from its end on is zero, and from its start on is the
/// whole sum.
pub proof fn lemma_sum_ends(s: Seq<InventoryItem>, m: Measure)
    ensures
        sum_by(s.skip(s.len() as int), m) == 0,
        sum_by(s.skip(0), m) == sum_by(s, m),
{
    assert(s.skip(0) =~= s);
}

/// A lot put in front adds its measure to the sum.
pub proof fn lemma_sum_front(x: InventoryItem, rest: Seq<InventoryItem>, m: Measure)
    ensures
        sum_by(seq![x] + rest, m) == m.of(x) + sum_by(rest, m),
{
    assert((seq![x] + rest).skip(1) =~= rest);
}

/// A lot appended adds its measure to the sum.
pub proof fn lemma_sum_push(s: Seq<InventoryItem>, x: InventoryItem, m: Measure)
    ensures
        sum_by(s.push(x), m) == sum_by(s, m) + m.of(x),
    decreases s.len(),
{
    if s.len() == 0 {
        assert(s.push(x).skip(1) =~= s);
    } else {
        assert(s.push(x).skip(1) =~= s.skip(1).push(x));
        lemma_sum_push(s.skip(1), x, m);
    }
}

/// Replacing a lot changes the sum by the difference of the two measures.
pub proof fn lemma_sum_update(s: Seq<InventoryItem>, i: int, y: InventoryItem, m: Measure)
    requires
        0 <= i < s.len(),
    ensures
        sum_by(s.update(i, y), m) + m.of(s[i]) == sum_by(s, m) + m.of(y),
    decreases s.len(),
{
    if i == 0 {
        assert(s.update(i, y).skip(1) =~= s.skip(1));
    } else {
        assert(s.update(i, y).skip(1) =~= s.skip(1).update(i - 1, y));
        lemma_sum_update(s.skip(1), i - 1, y, m);
    }
}

/// Removing a lot takes its measure from the sum.
pub proof fn lemma_sum_remove(s: Seq<InventoryItem>, i: int, m: Measure)
    requires
        0 <= i < s.len(),
    ensures
        sum_by(s.remove(i), m) + m.of(s[i]) == sum_by(s, m),
    decreases s.len(),
{
    if i == 0 {
        assert(s.remove(i) =~= s.skip(1));
    } else {
        assert(s.remove(i).skip(1) =~= s.skip(1).remove(i - 1));
        lemma_sum_remove(s.skip(1), i - 1, m);
    }
}

/// A measure that is nowhere larger than another has the smaller sum.
pub proof fn lemma_sum_monotone(s: Seq<InventoryItem>, small: Measure, large: Measure)
    requires
        forall|e: InventoryItem| small.of(e) <= large.of(e),
    ensures
        sum_by(s, small) <= sum_by(s, large),
    decreases s.len(),
{
    if s.len() > 0 {
        lemma_sum_monotone(s.skip(1), small, large);
    }
}

/// Neither the value nor the cost of a ledger exceeds its card count times
/// the largest 32-bit price.
pub proof fn lemma_money_bound(s: Seq<InventoryItem>)
    ensures
        ledger_value(s) <= 0xffff_ffff * ledger_cards(s),
        ledger_cost(s) <= 0xffff_ffff * ledger_cards(s),
    decreases s.len(),
{
    if s.len() > 0 {
        lemma_money_bound(s.skip(1));
        let q = s[0].quantity as nat;
        let v = s[0].card.spec_market_value() as nat;
        let c = s[0].card.purchase_price as nat;
        let rest = ledger_cards(s.skip(1));
        assert(v * q <= 0xffff_ffff * q) by (nonlinear_arith)
            requires
                v <= 0xffff_ffff,
        ;
        assert(c * q <= 0xffff_ffff * q) by (nonlinear_arith)
            requires
                c <= 0xffff_ffff,
        ;
        assert(0xffff_ffff * q + 0xffff_ffff * rest == 0xffff_ffff * (q + rest)) by (nonlinear_arith);
    }
}

/// A ledger whose card count fits in 32 bits has a value and a cost that fit
/// in 64 bits.
pub proof fn lemma_money_fits(s: Seq<InventoryItem>)
    requires
        ledger_cards(s) <= u32::MAX,
    ensures
        ledger_value(s) <= u64::MAX,
        ledger_cost(s) <= u64::MAX,
{
    lemma_money_bound(s);
    let n = ledger_cards(s);
    assert(0xffff_ffff * n <= 0xffff_ffff * 0xffff_ffff) by (nonlinear_arith)
        requires
            n <= 0xffff_ffff,
    ;
}

} // verus!
