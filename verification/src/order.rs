//! Customer orders: what an order holds, how a new order is drawn from the
//! day, the hour, the reputation and the market, and how the order book
//! ages.

use std::collections::VecDeque;
use vstd::prelude::*;
use vstd::string::StringExecFns;
use crate::market::MarketConditions;
use crate::multiplier::Multiplier;
use crate::retailer::{catalog_entry, spec_catalog_entry, Retailer};
use crate::text::{decimal, u64_to_string};

verus! {

/// How attractive an order's offer is.
#[derive(Clone, Copy, Debug, PartialEq, Eq, Structural)]
pub enum OrderPriority {
    Low,
    Medium,
    High,
}

/// A customer's standing request for cards.
#[derive(Clone, Debug)]
pub struct CustomerOrder {
    pub id: u32,
    pub customer_name: String,
    pub retailer: Retailer,
    pub denomination: u32,
    pub quantity: u32,
    pub offered_price_per_card: u32,
    /// The days left to fulfill the order.
    pub deadline_days: u32,
    pub priority: OrderPriority,
}

/// What an order holds, with the customer's name as a sequence of
/// characters.
pub struct OrderView {
    pub id: u32,
    pub customer_name: Seq<char>,
    pub retailer: Retailer,
    pub denomination: u32,
    pub quantity: u32,
    pub offered_price_per_card: u32,
    pub deadline_days: u32,
    pub priority: OrderPriority,
}

impl View for CustomerOrder {
    type V = OrderView;

    open spec fn view(&self) -> OrderView {
        OrderView {
            id: self.id,
            customer_name: self.customer_name@,
            retailer: self.retailer,
            denomination: self.denomination,
            quantity: self.quantity,
            offered_price_per_card: self.offered_price_per_card,
            deadline_days: self.deadline_days,
            priority: self.priority,
        }
    }
}

impl OrderPriority {
    /// The priority's name.
    pub open spec fn spec_display(self) -> Seq<char> {
        match self {
            OrderPriority::Low => "Low"@,
            OrderPriority::Medium => "Medium"@,
            OrderPriority::High => "High"@,
        }
    }

    /// The priority of an offer for a card of a face value: high from eight
    /// above face value, medium from five above, else low.
    pub open spec fn spec_for_offer(offered: u32, denomination: u32) -> OrderPriority {
        if offered as int >= denomination as int + 8 {
            OrderPriority::High
        } else if offered as int >= denomination as int + 5 {
            OrderPriority::Medium
        } else {
            OrderPriority::Low
        }
    }

    /// The priority's name.
    pub fn display(&self) -> (name: &'static str)
        ensures
            name@ == self.spec_display(),
    {
        match self {
            OrderPriority::Low => "Low",
            OrderPriority::Medium => "Medium",
            OrderPriority::High => "High",
        }
    }

    /// The priority of an offer for a card of a face value.
    pub fn for_offer(offered: u32, denomination: u32) -> (priority: OrderPriority)
        ensures
            priority == OrderPriority::spec_for_offer(offered, denomination),
    {
        let offer: u64 = offered as u64;
        let face: u64 = denomination as u64;
        if offer >= face + 8 {
            OrderPriority::High
        } else if offer >= face + 5 {
            OrderPriority::Medium
        } else {
            OrderPriority::Low
        }
    }
}

/// The number of customer names.
pub const CUSTOMER_COUNT: u64 = 8;

/// The customer name at position `i`.
pub open spec fn spec_customer_name(i: int) -> Seq<char> {
    if i == 0 {
        "Alice"@
    } else if i == 1 {
        "Bob"@
    } else if i == 2 {
        "Charlie"@
    } else if i == 3 {
        "Diana"@
    } else if i == 4 {
        "Eve"@
    } else if i == 5 {
        "Frank"@
    } else if i == 6 {
        "Grace"@
    } else {
        "Henry"@
    }
}

/// The customer name at position `i`.
pub fn customer_name(i: u64) -> (name: &'static str)
    requires
        i < CUSTOMER_COUNT,
    ensures
        name@ == spec_customer_name(i as int),
{
    if i == 0 {
        "Alice"
    } else if i == 1 {
        "Bob"
    } else if i == 2 {
        "Charlie"
    } else if i == 3 {
        "Diana"
    } else if i == 4 {
        "Eve"
    } else if i == 5 {
        "Frank"
    } else if i == 6 {
        "Grace"
    } else {
        "Henry"
    }
}

/// The share of face value that a customer offers, in hundredths: 95, 93,
/// 90, 87 or 85 for a reputation of five stars down to one, two more where
/// demand is above 1.2, three less where it is below 0.8, and in any case
/// between 80 and 98.
pub open spec fn spec_discount_hundredths(reputation: u8, demand: Multiplier) -> int {
    let base: int = if reputation == 5 {
        95
    } else if reputation == 4 {
        93
    } else if reputation == 3 {
        90
    } else if reputation == 2 {
        87
    } else {
        85
    };
    let adjusted = if demand.billionths > 1_200_000_000 {
        base + 2
    } else if demand.billionths < 800_000_000 {
        base - 3
    } else {
        base
    };
    if adjusted < 80 {
        80
    } else if adjusted > 98 {
        98
    } else {
        adjusted
    }
}

/// The share of face value that a customer offers, in hundredths.
pub fn discount_hundredths(reputation: u8, demand: Multiplier) -> (discount: u32)
    ensures
        discount == spec_discount_hundredths(reputation, demand),
        80 <= discount <= 98,
{
    let base: u32 = if reputation == 5 {
        95
    } else if reputation == 4 {
        93
    } else if reputation == 3 {
        90
    } else if reputation == 2 {
        87
    } else {
        85
    };
    let adjusted: u32 = if demand.exceeds_hundredths(120) {
        base + 2
    } else if demand.below_hundredths(80) {
        base - 3
    } else {
        base
    };
    if adjusted < 80 {
        80
    } else if adjusted > 98 {
        98
    } else {
        adjusted
    }
}

/// The order that a day, an hour, a reputation and an id draw from the
/// market: the card is the catalog line at `(day + hour) mod 5`, the
/// customer the name at `(id + day) mod 8`, the quantity `1 + day mod 5`,
/// the offer per card the face value times the discount, rounded down, and
/// the deadline `2 + day mod 5` days.
pub open spec fn spec_generate_order(
    day: u32,
    hour: u8,
    reputation: u8,
    next_order_id: u32,
    market: &MarketConditions,
) -> OrderView {
    let entry = spec_catalog_entry((day as int + hour as int) % 5);
    let discount = spec_discount_hundredths(reputation, market.spec_demand_multiplier(entry.retailer));
    let offered = (entry.denomination as int * discount / 100) as u32;
    OrderView {
        id: next_order_id,
        customer_name: spec_customer_name((next_order_id as int + day as int) % 8),
        retailer: entry.retailer,
        denomination: entry.denomination,
        quantity: (1 + day % 5) as u32,
        offered_price_per_card: offered,
        deadline_days: (2 + day % 5) as u32,
        priority: OrderPriority::spec_for_offer(offered, entry.denomination),
    }
}

/// The log line for a new order.
pub open spec fn new_order_line(order: OrderView) -> Seq<char> {
    "📋 New order: "@ + order.customer_name + " wants "@ + decimal(order.quantity as nat) + " "@
        + order.retailer.spec_name() + " $"@ + decimal(order.denomination as nat) + " cards"@
}

/// Draws a new order.
pub fn generate_order(day: u32, hour: u8, reputation: u8, next_order_id: u32, market: &MarketConditions) -> (order:
    CustomerOrder)
    ensures
        order@ == spec_generate_order(day, hour, reputation, next_order_id, market),
{
    let card_index: u64 = (day as u64 + hour as u64) % 5;
    let customer_index: u64 = (next_order_id as u64 + day as u64) % 8;
    let entry = catalog_entry(card_index as usize);
    let demand = market.get_demand_multiplier(entry.retailer);
    let discount = discount_hundredths(reputation, demand);
    assert(entry.denomination <= 50);
    let offered: u32 = entry.denomination * discount / 100;
    CustomerOrder {
        id: next_order_id,
        customer_name: String::from_str(customer_name(customer_index)),
        retailer: entry.retailer,
        denomination: entry.denomination,
        quantity: 1 + day % 5,
        offered_price_per_card: offered,
        deadline_days: 2 + day % 5,
        priority: OrderPriority::for_offer(offered, entry.denomination),
    }
}

/// Writes the log line for a new order.
pub fn describe_new_order(order: &CustomerOrder) -> (line: String)
    ensures
        line@ == new_order_line(order@),
{
    let mut line = String::from_str("📋 New order: ");
    line.append(order.customer_name.as_str());
    line.append(" wants ");
    line.append(u64_to_string(order.quantity as u64).as_str());
    line.append(" ");
    line.append(order.retailer.name());
    line.append(" $");
    line.append(u64_to_string(order.denomination as u64).as_str());
    line.append(" cards");
    line
}

impl CustomerOrder {
    /// What the customer pays for the whole order.
    pub open spec fn spec_total_offered(&self) -> nat {
        (self.offered_price_per_card as nat) * (self.quantity as nat)
    }

    /// Whether a day's aging expires the order.
    pub open spec fn expires_next(&self) -> bool {
        self.deadline_days <= 1
    }

    /// The order a day later.
    pub open spec fn aged(self) -> CustomerOrder {
        CustomerOrder { deadline_days: (self.deadline_days - 1) as u32, ..self }
    }

    /// An order; the retailer is read from its name.
    pub fn new(
        id: u32,
        customer_name: &str,
        retailer: &str,
        denomination: u32,
        quantity: u32,
        offered_price_per_card: u32,
        deadline_days: u32,
        priority: OrderPriority,
    ) -> (order: CustomerOrder)
        ensures
            order@ == (OrderView {
                id,
                customer_name: customer_name@,
                retailer: Retailer::spec_from_name(retailer@),
                denomination,
                quantity,
                offered_price_per_card,
                deadline_days,
                priority,
            }),
    {
        CustomerOrder {
            id,
            customer_name: String::from_str(customer_name),
            retailer: Retailer::from_name(retailer),
            denomination,
            quantity,
            offered_price_per_card,
            deadline_days,
            priority,
        }
    }

    /// What the customer pays for the whole order.
    pub fn total_offered(&self) -> (total: u64)
        ensures
            total == self.spec_total_offered(),
    {
        let unit: u64 = self.offered_price_per_card as u64;
        let count: u64 = self.quantity as u64;
        assert(unit * count <= 0xffff_ffff * 0xffff_ffff) by (nonlinear_arith)
            requires
                unit <= 0xffff_ffff,
                count <= 0xffff_ffff,
        ;
        unit * count
    }

    /// Whether no day is left to fulfill the order.
    pub fn is_expired(&self) -> (expired: bool)
        ensures
            expired == (self.deadline_days == 0),
    {
        self.deadline_days == 0
    }
}

/// The order book after a day: every order one day closer to its deadline,
/// and the orders that reached zero days removed.
pub open spec fn aged_orders(orders: Seq<CustomerOrder>) -> Seq<CustomerOrder>
    decreases orders.len(),
{
    if orders.len() == 0 {
        orders
    } else if orders.last().expires_next() {
        aged_orders(orders.drop_last())
    } else {
        aged_orders(orders.drop_last()).push(orders.last().aged())
    }
}

/// The number of orders that the next day's aging expires.
pub open spec fn expiring_orders(orders: Seq<CustomerOrder>) -> nat
    decreases orders.len(),
{
    if orders.len() == 0 {
        0
    } else if orders.last().expires_next() {
        expiring_orders(orders.drop_last()) + 1
    } else {
        expiring_orders(orders.drop_last())
    }
}

/// Ages the order book by a day. Returns how many orders expired.
pub fn age_orders(orders: &mut VecDeque<CustomerOrder>) -> (expired: usize)
    ensures
        final(orders)@ == aged_orders(old(orders)@),
        expired == expiring_orders(old(orders)@),
{
    let ghost before = orders@;
    let mut kept: VecDeque<CustomerOrder> = VecDeque::new();
    let mut expired: usize = 0;
    let n = orders.len();
    let mut i: usize = 0;
    proof {
        assert(before.take(0) =~= Seq::<CustomerOrder>::empty());
        assert(before.skip(0) =~= before);
    }
    while i < n
        invariant
            n == before.len(),
            i <= n,
            orders@ == before.skip(i as int),
            kept@ == aged_orders(before.take(i as int)),
            expired == expiring_orders(before.take(i as int)),
            expired <= i,
        decreases n - i,
    {
        proof {
            assert(before.take(i + 1).drop_last() =~= before.take(i as int));
            assert(before.skip(i as int).subrange(1, before.skip(i as int).len() as int) =~= before.skip(i + 1));
        }
        let popped = orders.pop_front();
        match popped {
            Some(order) => {
                if order.deadline_days <= 1 {
                    expired = expired + 1;
                } else {
                    let aged = CustomerOrder {
                        id: order.id,
                        customer_name: order.customer_name,
                        retailer: order.retailer,
                        denomination: order.denomination,
                        quantity: order.quantity,
                        offered_price_per_card: order.offered_price_per_card,
                        deadline_days: order.deadline_days - 1,
                        priority: order.priority,
                    };
                    kept.push_back(aged);
                }
            },
            None => {},
        }
        i = i + 1;
    }
    proof {
        assert(before.take(n as int) =~= before);
    }
    *orders = kept;
    expired
}

} // verus!
