//! Operations on the inventory ledger: totals, fulfillability, aging,
//! purchases and consumption, each proved against the ledger's model.

use vstd::prelude::*;
use crate::inventory::{
    aged_ledger, consumed, expiring_cards, expiring_cost, ledger_cards, ledger_cost, ledger_wf,
    lemma_money_fits, lemma_sum_ends, lemma_sum_front, lemma_sum_monotone, lemma_sum_push,
    lemma_sum_step, lemma_sum_update, matching_cards, merge_position, retailers_held, sum_by,
    with_purchase, GiftCard, InventoryItem, Measure,
};
use crate::retailer::Retailer;

verus! {

impl Measure {
    /// What the lot `e` contributes.
    pub fn apply(&self, e: &InventoryItem) -> (v: u64)
        ensures
            v == self.of(*e),
    {
        match self {
            Measure::Cards => e.quantity as u64,
            Measure::Value => e.total_value(),
            Measure::Cost => e.total_cost(),
            Measure::Matching(retailer, denomination) => {
                if e.card.retailer == *retailer && e.card.denomination == *denomination {
                    e.quantity as u64
                } else {
                    0
                }
            },
            Measure::ExpiringCards => {
                if e.card.days_until_expiration <= 1 {
                    e.quantity as u64
                } else {
                    0
                }
            },
            Measure::ExpiringCost => {
                if e.card.days_until_expiration <= 1 {
                    e.total_cost()
                } else {
                    0
                }
            },
            Measure::ExpiringSoon => {
                if e.card.days_until_expiration <= 15 {
                    1
                } else {
                    0
                }
            },
        }
    }
}

/// Sums a measure over the ledger.
pub fn sum_ledger(inventory: &Vec<InventoryItem>, m: Measure) -> (total: u64)
    requires
        sum_by(inventory@, m) <= u64::MAX,
    ensures
        total == sum_by(inventory@, m),
{
    let mut total: u64 = 0;
    let mut i: usize = 0;
    proof {
        lemma_sum_ends(inventory@, m);
    }
    while i < inventory.len()
        invariant
            i <= inventory.len(),
            total + sum_by(inventory@.skip(i as int), m) == sum_by(inventory@, m),
            sum_by(inventory@, m) <= u64::MAX,
        decreases inventory.len() - i,
    {
        proof {
            lemma_sum_step(inventory@, i as int, m);
        }
        total = total + m.apply(&inventory[i]);
        i = i + 1;
    }
    proof {
        lemma_sum_ends(inventory@, m);
    }
    total
}

/// Whether the ledger holds at least `needed` cards of the given retailer
/// and face value, over all its lots together.
pub fn holds_enough(inventory: &Vec<InventoryItem>, retailer: Retailer, denomination: u32, needed: u32) -> (enough:
    bool)
    ensures
        enough == (matching_cards(inventory@, retailer, denomination) >= needed),
{
    let m = Measure::Matching(retailer, denomination);
    let mut found: u64 = 0;
    let mut i: usize = 0;
    proof {
        lemma_sum_ends(inventory@, m);
    }
    while i < inventory.len() && found < needed as u64
        invariant
            i <= inventory.len(),
            found + sum_by(inventory@.skip(i as int), m) == sum_by(inventory@, m),
            found <= 0x1_ffff_fffe,
            m == Measure::Matching(retailer, denomination),
        decreases inventory.len() - i,
    {
        proof {
            lemma_sum_step(inventory@, i as int, m);
        }
        found = found + m.apply(&inventory[i]);
        i = i + 1;
    }
    proof {
        lemma_sum_ends(inventory@, m);
    }
    found >= needed as u64
}

/// The number of distinct retailers among the lots.
pub fn count_retailers(inventory: &Vec<InventoryItem>) -> (count: u32)
    ensures
        count == retailers_held(inventory@).len(),
        count <= 6,
{
    let mut seen: [bool; 6] = [false, false, false, false, false, false];
    let mut i: usize = 0;
    while i < inventory.len()
        invariant
            i <= inventory.len(),
            forall|k: int|
                0 <= k < 6 ==> (#[trigger] seen[k] <==> exists|j: int|
                    0 <= j < i && (#[trigger] inventory@[j]).card.retailer.spec_index() == k),
        decreases inventory.len() - i,
    {
        let at = inventory[i].card.retailer.index();
        let ghost before = seen;
        seen[at] = true;
        assert forall|k: int| 0 <= k < 6 implies (#[trigger] seen[k] <==> exists|j: int|
            0 <= j < i + 1 && (#[trigger] inventory@[j]).card.retailer.spec_index() == k) by {
            if seen[k] {
                if k == at {
                    assert(inventory@[i as int].card.retailer.spec_index() == k);
                } else {
                    assert(before[k]);
                }
            }
            if exists|j: int| 0 <= j < i + 1 && (#[trigger] inventory@[j]).card.retailer.spec_index() == k {
                let j = choose|j: int|
                    0 <= j < i + 1 && (#[trigger] inventory@[j]).card.retailer.spec_index() == k;
                if j < i {
                    assert(before[k]);
                }
            }
        }
        i = i + 1;
    }
    let mut count: u32 = 0;
    let ghost mut held: Set<Retailer> = Set::empty();
    if seen[0] {
        count = count + 1;
        proof {
            held = held.insert(Retailer::Amazon);
        }
    }
    if seen[1] {
        count = count + 1;
        proof {
            held = held.insert(Retailer::Starbucks);
        }
    }
    if seen[2] {
        count = count + 1;
        proof {
            held = held.insert(Retailer::Target);
        }
    }
    if seen[3] {
        count = count + 1;
        proof {
            held = held.insert(Retailer::ITunes);
        }
    }
    if seen[4] {
        count = count + 1;
        proof {
            held = held.insert(Retailer::Walmart);
        }
    }
    if seen[5] {
        count = count + 1;
        proof {
            held = held.insert(Retailer::Other);
        }
    }
    proof {
        assert(held.finite() && held.len() == count);
        assert forall|r: Retailer| held.contains(r) <==> retailers_held(inventory@).contains(r) by {
            let k = r.spec_index();
            assert(held.contains(r) == seen[k]);
            if seen[k] {
                let j = choose|j: int|
                    0 <= j < inventory@.len() && (#[trigger] inventory@[j]).card.retailer.spec_index() == k;
                assert(inventory@[j].card.retailer == r);
            }
            if retailers_held(inventory@).contains(r) {
                let j = choose|j: int| 0 <= j < inventory@.len() && #[trigger] inventory@[j].card.retailer == r;
                assert(inventory@[j].card.retailer.spec_index() == k);
            }
        }
        assert(held =~= retailers_held(inventory@));
    }
    count
}

/// What a day's aging does to the totals: the cards and the cost that leave
/// are those of the expiring lots, no remaining lot is empty or out of days,
/// and no lot is added.
pub proof fn lemma_aged_totals(s: Seq<InventoryItem>)
    ensures
        ledger_cards(aged_ledger(s)) + expiring_cards(s) == ledger_cards(s),
        ledger_cost(aged_ledger(s)) + expiring_cost(s) == ledger_cost(s),
        aged_ledger(s).len() <= s.len(),
        forall|i: int|
            0 <= i < aged_ledger(s).len() ==> (#[trigger] aged_ledger(s)[i]).card.days_until_expiration
                >= 1,
        (forall|i: int| 0 <= i < s.len() ==> (#[trigger] s[i]).quantity > 0) ==> (forall|i: int|
            0 <= i < aged_ledger(s).len() ==> (#[trigger] aged_ledger(s)[i]).quantity > 0),
    decreases s.len(),
{
    if s.len() > 0 {
        let rest = s.skip(1);
        lemma_aged_totals(rest);
        if !s[0].expires_next() {
            lemma_sum_front(s[0].aged(), aged_ledger(rest), Measure::Cards);
            lemma_sum_front(s[0].aged(), aged_ledger(rest), Measure::Cost);
        }
        if forall|i: int| 0 <= i < s.len() ==> (#[trigger] s[i]).quantity > 0 {
            assert forall|i: int| 0 <= i < rest.len() implies (#[trigger] rest[i]).quantity > 0 by {
                assert(rest[i] == s[i + 1]);
            }
        }
    }
}

/// Ages the ledger by a day: every lot comes one day closer to expiry, and
/// the lots that reach zero days leave. Returns how many cards were lost and
/// what they had cost.
pub fn age_ledger(inventory: &mut Vec<InventoryItem>) -> (lost: (u32, u64))
    requires
        ledger_cards(old(inventory)@) <= u32::MAX,
    ensures
        final(inventory)@ == aged_ledger(old(inventory)@),
        lost.0 == expiring_cards(old(inventory)@),
        lost.1 == expiring_cost(old(inventory)@),
{
    let ghost before = inventory@;
    let mut kept: Vec<InventoryItem> = Vec::new();
    let mut lost_cards: u32 = 0;
    let mut lost_cost: u64 = 0;
    let mut i: usize = 0;
    proof {
        lemma_sum_ends(before, Measure::ExpiringCards);
        lemma_sum_ends(before, Measure::ExpiringCost);
        lemma_sum_monotone(before, Measure::ExpiringCards, Measure::Cards);
        lemma_sum_monotone(before, Measure::ExpiringCost, Measure::Cost);
        lemma_money_fits(before);
        assert(before.skip(0) =~= before);
        assert(kept@ + aged_ledger(before.skip(0)) =~= aged_ledger(before));
    }
    while i < inventory.len()
        invariant
            inventory@ == before,
            i <= before.len(),
            kept@ + aged_ledger(before.skip(i as int)) == aged_ledger(before),
            lost_cards + sum_by(before.skip(i as int), Measure::ExpiringCards) == expiring_cards(before),
            lost_cost + sum_by(before.skip(i as int), Measure::ExpiringCost) == expiring_cost(before),
            expiring_cards(before) <= u32::MAX,
            expiring_cost(before) <= u64::MAX,
        decreases before.len() - i,
    {
        let lot = inventory[i];
        proof {
            lemma_sum_step(before, i as int, Measure::ExpiringCards);
            lemma_sum_step(before, i as int, Measure::ExpiringCost);
            assert(before.skip(i as int).skip(1) =~= before.skip(i + 1));
        }
        if lot.card.days_until_expiration <= 1 {
            lost_cards = lost_cards + lot.quantity;
            lost_cost = lost_cost + lot.total_cost();
        } else {
            let aged = InventoryItem {
                card: GiftCard {
                    retailer: lot.card.retailer,
                    denomination: lot.card.denomination,
                    purchase_price: lot.card.purchase_price,
                    days_until_expiration: lot.card.days_until_expiration - 1,
                },
                quantity: lot.quantity,
            };
            let ghost kept_before = kept@;
            kept.push(aged);
            assert(kept@ + aged_ledger(before.skip(i + 1)) =~= kept_before + (seq![aged] + aged_ledger(
                before.skip(i + 1),
            )));
        }
        i = i + 1;
    }
    proof {
        lemma_sum_ends(before, Measure::ExpiringCards);
        lemma_sum_ends(before, Measure::ExpiringCost);
        assert(kept@ + aged_ledger(before.skip(before.len() as int)) =~= kept@);
    }
    *inventory = kept;
    (lost_cards, lost_cost)
}

/// Where a purchase merges, the merge position holds a lot of the same kind
/// and no earlier lot is of that kind.
pub proof fn lemma_merge_position(s: Seq<InventoryItem>, card: GiftCard)
    ensures
        0 <= merge_position(s, card) <= s.len(),
        merge_position(s, card) < s.len() ==> s[merge_position(s, card)].card.same_lot(card),
        forall|j: int| 0 <= j < merge_position(s, card) ==> !(#[trigger] s[j]).card.same_lot(card),
    decreases s.len(),
{
    if s.len() > 0 && !s[0].card.same_lot(card) {
        let rest = s.skip(1);
        lemma_merge_position(rest, card);
        assert forall|j: int| 0 <= j < merge_position(s, card) implies !(#[trigger] s[j]).card.same_lot(
            card,
        ) by {
            if j > 0 {
                assert(s[j] == rest[j - 1]);
            }
        }
    }
}

/// A purchase adds its cards to the count, changes no card of another
/// retailer or face value, and leaves no lot empty.
pub proof fn lemma_purchase_totals(s: Seq<InventoryItem>, card: GiftCard, quantity: u32)
    requires
        ledger_cards(s) + quantity <= u32::MAX,
    ensures
        ledger_cards(with_purchase(s, card, quantity)) == ledger_cards(s) + quantity,
        matching_cards(with_purchase(s, card, quantity), card.retailer, card.denomination)
            == matching_cards(s, card.retailer, card.denomination) + quantity,
        (quantity > 0 && ledger_wf(s)) ==> ledger_wf(with_purchase(s, card, quantity)),
{
    lemma_merge_position(s, card);
    let at = merge_position(s, card);
    let m = Measure::Matching(card.retailer, card.denomination);
    if at < s.len() {
        lemma_sum_remove_bound(s, at);
        let merged = InventoryItem { card: s[at].card, quantity: (s[at].quantity + quantity) as u32 };
        lemma_sum_update(s, at, merged, Measure::Cards);
        lemma_sum_update(s, at, merged, m);
    } else {
        let lot = InventoryItem { card, quantity };
        lemma_sum_push(s, lot, Measure::Cards);
        lemma_sum_push(s, lot, m);
    }
}

/// No lot holds more cards than the whole ledger.
pub proof fn lemma_sum_remove_bound(s: Seq<InventoryItem>, i: int)
    requires
        0 <= i < s.len(),
    ensures
        s[i].quantity <= ledger_cards(s),
    decreases s.len(),
{
    if i > 0 {
        lemma_sum_remove_bound(s.skip(1), i - 1);
    }
}

/// Records a purchase of `quantity` cards like `card`: they join the first
/// lot of the same retailer, face value and unit cost, which keeps its own
/// expiry, or form a new lot at the end.
pub fn add_to_ledger(inventory: &mut Vec<InventoryItem>, card: GiftCard, quantity: u32)
    requires
        ledger_cards(old(inventory)@) + quantity <= u32::MAX,
    ensures
        final(inventory)@ == with_purchase(old(inventory)@, card, quantity),
{
    let ghost before = inventory@;
    let mut i: usize = 0;
    proof {
        assert(before.skip(0) =~= before);
    }
    while i < inventory.len() && !(inventory[i].card.retailer == card.retailer
        && inventory[i].card.denomination == card.denomination && inventory[i].card.purchase_price
        == card.purchase_price)
        invariant
            inventory@ == before,
            i <= before.len(),
            merge_position(before, card) == i + merge_position(before.skip(i as int), card),
        decreases before.len() - i,
    {
        proof {
            assert(before.skip(i as int)[0] == before[i as int]);
            assert(before.skip(i as int).skip(1) =~= before.skip(i + 1));
        }
        i = i + 1;
    }
    if i < inventory.len() {
        proof {
            assert(before.skip(i as int)[0] == before[i as int]);
            lemma_sum_remove_bound(before, i as int);
        }
        let merged = InventoryItem { card: inventory[i].card, quantity: inventory[i].quantity + quantity };
        inventory[i] = merged;
    } else {
        inventory.push(InventoryItem { card, quantity });
    }
}

/// What consumption does to the totals, when the ledger holds enough: the
/// matching cards and the card count fall by what was taken, and no lot is
/// left empty.
pub proof fn lemma_consumed_totals(s: Seq<InventoryItem>, retailer: Retailer, denomination: u32, needed: nat)
    requires
        needed <= matching_cards(s, retailer, denomination),
    ensures
        matching_cards(consumed(s, retailer, denomination, needed), retailer, denomination) + needed
            == matching_cards(s, retailer, denomination),
        ledger_cards(consumed(s, retailer, denomination, needed)) + needed == ledger_cards(s),
        consumed(s, retailer, denomination, needed).len() <= s.len(),
        (forall|i: int| 0 <= i < s.len() ==> (#[trigger] s[i]).quantity > 0) ==> (forall|i: int|
            0 <= i < consumed(s, retailer, denomination, needed).len() ==> (#[trigger] consumed(
                s,
                retailer,
                denomination,
                needed,
            )[i]).quantity > 0),
    decreases s.len(),
{
    let m = Measure::Matching(retailer, denomination);
    let after = consumed(s, retailer, denomination, needed);
    if s.len() > 0 {
        let rest = s.skip(1);
        let positive = forall|i: int| 0 <= i < s.len() ==> (#[trigger] s[i]).quantity > 0;
        if positive {
            assert forall|i: int| 0 <= i < rest.len() implies (#[trigger] rest[i]).quantity > 0 by {
                assert(rest[i] == s[i + 1]);
            }
        }
        if needed > 0 && s[0].card.answers(retailer, denomination) {
            if s[0].quantity as nat <= needed {
                lemma_consumed_totals(rest, retailer, denomination, (needed - s[0].quantity as nat) as nat);
            } else {
                let left = InventoryItem { card: s[0].card, quantity: (s[0].quantity as nat - needed) as u32 };
                lemma_sum_front(left, rest, m);
                lemma_sum_front(left, rest, Measure::Cards);
                if positive {
                    assert forall|i: int| 0 <= i < after.len() implies (#[trigger] after[i]).quantity > 0 by {
                        if i > 0 {
                            assert(after[i] == rest[i - 1]);
                        }
                    }
                }
            }
        } else {
            lemma_consumed_totals(rest, retailer, denomination, needed);
            let tail = consumed(rest, retailer, denomination, needed);
            lemma_sum_front(s[0], tail, m);
            lemma_sum_front(s[0], tail, Measure::Cards);
            if positive {
                assert forall|i: int| 0 <= i < after.len() implies (#[trigger] after[i]).quantity > 0 by {
                    if i > 0 {
                        assert(after[i] == tail[i - 1]);
                    } else {
                        assert(after[0] == s[0]);
                    }
                }
            }
        }
    }
}

/// Consumption leaves the cards of every other retailer or face value as
/// they were.
pub proof fn lemma_consumed_others(
    s: Seq<InventoryItem>,
    retailer: Retailer,
    denomination: u32,
    needed: nat,
    other_retailer: Retailer,
    other_denomination: u32,
)
    requires
        other_retailer != retailer || other_denomination != denomination,
    ensures
        matching_cards(consumed(s, retailer, denomination, needed), other_retailer, other_denomination)
            == matching_cards(s, other_retailer, other_denomination),
    decreases s.len(),
{
    let m = Measure::Matching(other_retailer, other_denomination);
    if s.len() > 0 {
        let rest = s.skip(1);
        if needed > 0 && s[0].card.answers(retailer, denomination) {
            if s[0].quantity as nat <= needed {
                lemma_consumed_others(
                    rest,
                    retailer,
                    denomination,
                    (needed - s[0].quantity as nat) as nat,
                    other_retailer,
                    other_denomination,
                );
            } else {
                let left = InventoryItem { card: s[0].card, quantity: (s[0].quantity as nat - needed) as u32 };
                lemma_sum_front(left, rest, m);
            }
        } else {
            lemma_consumed_others(rest, retailer, denomination, needed, other_retailer, other_denomination);
            lemma_sum_front(s[0], consumed(rest, retailer, denomination, needed), m);
        }
    }
}

/// Takes `needed` cards of the given retailer and face value from the
/// ledger, lot by lot in ledger order; a lot that is drained leaves the
/// ledger. Where the ledger holds fewer, all of them leave.
pub fn consume_cards(inventory: &mut Vec<InventoryItem>, retailer: Retailer, denomination: u32, needed: u32)
    ensures
        final(inventory)@ == consumed(old(inventory)@, retailer, denomination, needed as nat),
{
    let ghost before = inventory@;
    let mut kept: Vec<InventoryItem> = Vec::new();
    let mut wanted: u32 = needed;
    let mut i: usize = 0;
    proof {
        assert(before.skip(0) =~= before);
        assert(kept@ + consumed(before.skip(0), retailer, denomination, wanted as nat) =~= consumed(
            before,
            retailer,
            denomination,
            needed as nat,
        ));
    }
    while i < inventory.len()
        invariant
            inventory@ == before,
            i <= before.len(),
            kept@ + consumed(before.skip(i as int), retailer, denomination, wanted as nat) == consumed(
                before,
                retailer,
                denomination,
                needed as nat,
            ),
        decreases before.len() - i,
    {
        let lot = inventory[i];
        let ghost kept_before = kept@;
        let ghost here = before.skip(i as int);
        proof {
            assert(here.skip(1) =~= before.skip(i + 1));
            assert(here[0] == lot);
        }
        if wanted > 0 && lot.card.retailer == retailer && lot.card.denomination == denomination {
            if lot.quantity <= wanted {
                wanted = wanted - lot.quantity;
            } else {
                let left = InventoryItem { card: lot.card, quantity: lot.quantity - wanted };
                kept.push(left);
                wanted = 0;
                proof {
                    lemma_consumed_nothing(before.skip(i + 1), retailer, denomination);
                    assert(kept@ + consumed(before.skip(i + 1), retailer, denomination, 0) =~= kept_before + (
                    seq![left] + before.skip(i + 1)));
                }
            }
        } else {
            kept.push(lot);
            assert(kept@ + consumed(before.skip(i + 1), retailer, denomination, wanted as nat) =~= kept_before
                + (seq![lot] + consumed(before.skip(i + 1), retailer, denomination, wanted as nat)));
        }
        i = i + 1;
    }
    proof {
        assert(kept@ + consumed(before.skip(before.len() as int), retailer, denomination, wanted as nat)
            =~= kept@);
    }
    *inventory = kept;
}

/// Taking no cards leaves the ledger as it is.
pub proof fn lemma_consumed_nothing(s: Seq<InventoryItem>, retailer: Retailer, denomination: u32)
    ensures
        consumed(s, retailer, denomination, 0) == s,
    decreases s.len(),
{
    if s.len() > 0 {
        lemma_consumed_nothing(s.skip(1), retailer, denomination);
        assert(seq![s[0]] + s.skip(1) =~= s);
    }
}

/// Whether the ledger is well formed: no lot is empty, and the card count
/// fits in 32 bits.
pub fn ledger_is_valid(inventory: &Vec<InventoryItem>) -> (valid: bool)
    ensures
        valid == ledger_wf(inventory@),
{
    let ghost s = inventory@;
    let mut cards: u64 = 0;
    let mut i: usize = 0;
    proof {
        lemma_sum_ends(s, Measure::Cards);
    }
    while i < inventory.len()
        invariant
            s == inventory@,
            i <= s.len(),
            cards <= u32::MAX,
            cards + sum_by(s.skip(i as int), Measure::Cards) == ledger_cards(s),
            forall|j: int| 0 <= j < i ==> (#[trigger] s[j]).quantity > 0,
        decreases s.len() - i,
    {
        proof {
            lemma_sum_step(s, i as int, Measure::Cards);
        }
        let quantity = inventory[i].quantity;
        if quantity == 0 {
            return false;
        }
        cards = cards + quantity as u64;
        if cards > 0xffff_ffff {
            return false;
        }
        i = i + 1;
    }
    proof {
        lemma_sum_ends(s, Measure::Cards);
    }
    true
}

} // verus!
