//! The retailers whose cards are traded, and the wholesale catalog.

use vstd::prelude::*;
use vstd::string::StringExecFns;

verus! {

/// A card issuer. `Other` stands for any issuer outside the catalog.
#[derive(Clone, Copy, Debug, PartialEq, Eq, Structural, Hash)]
pub enum Retailer {
    Amazon,
    Starbucks,
    Target,
    ITunes,
    Walmart,
    Other,
}

/// One line of the wholesale catalog.
#[derive(Clone, Copy, Debug, PartialEq, Eq, Structural)]
pub struct CatalogEntry {
    pub retailer: Retailer,
    pub denomination: u32,
    pub base_cost: u32,
    pub stock: u32,
}

/// The number of lines in the wholesale catalog.
pub const CATALOG_SIZE: usize = 5;

/// Whether two strings hold the same characters.
pub fn same_text(a: &str, b: &str) -> (r: bool)
    ensures
        r == (a@ == b@),
{
    let x = String::from_str(a);
    let y = String::from_str(b);
    x == y
}

impl Retailer {
    /// The retailer's display name.
    pub open spec fn spec_name(self) -> Seq<char> {
        match self {
            Retailer::Amazon => "Amazon"@,
            Retailer::Starbucks => "Starbucks"@,
            Retailer::Target => "Target"@,
            Retailer::ITunes => "iTunes"@,
            Retailer::Walmart => "Walmart"@,
            Retailer::Other => "Other"@,
        }
    }

    /// The retailer that a name denotes: one of the five catalog names, or
    /// `Other` for every other text.
    pub open spec fn spec_from_name(name: Seq<char>) -> Retailer {
        if name == "Amazon"@ {
            Retailer::Amazon
        } else if name == "Starbucks"@ {
            Retailer::Starbucks
        } else if name == "Target"@ {
            Retailer::Target
        } else if name == "iTunes"@ {
            Retailer::ITunes
        } else if name == "Walmart"@ {
            Retailer::Walmart
        } else {
            Retailer::Other
        }
    }

    /// The position of a catalog retailer in the catalog; 5 for `Other`.
    pub open spec fn spec_index(self) -> int {
        match self {
            Retailer::Amazon => 0,
            Retailer::Starbucks => 1,
            Retailer::Target => 2,
            Retailer::ITunes => 3,
            Retailer::Walmart => 4,
            Retailer::Other => 5,
        }
    }

    /// Reads a retailer from its name.
    pub fn from_name(name: &str) -> (r: Retailer)
        ensures
            r == Retailer::spec_from_name(name@),
    {
        if same_text(name, "Amazon") {
            Retailer::Amazon
        } else if same_text(name, "Starbucks") {
            Retailer::Starbucks
        } else if same_text(name, "Target") {
            Retailer::Target
        } else if same_text(name, "iTunes") {
            Retailer::ITunes
        } else if same_text(name, "Walmart") {
            Retailer::Walmart
        } else {
            Retailer::Other
        }
    }

    /// The retailer's display name.
    pub fn name(self) -> (s: &'static str)
        ensures
            s@ == self.spec_name(),
    {
        match self {
            Retailer::Amazon => "Amazon",
            Retailer::Starbucks => "Starbucks",
            Retailer::Target => "Target",
            Retailer::ITunes => "iTunes",
            Retailer::Walmart => "Walmart",
            Retailer::Other => "Other",
        }
    }

    /// The position of a catalog retailer in the catalog; 5 for `Other`.
    pub fn index(self) -> (i: usize)
        ensures
            i == self.spec_index(),
            i <= 5,
    {
        match self {
            Retailer::Amazon => 0,
            Retailer::Starbucks => 1,
            Retailer::Target => 2,
            Retailer::ITunes => 3,
            Retailer::Walmart => 4,
            Retailer::Other => 5,
        }
    }
}

/// The catalog line at position `i`; positions past the end wrap to the
/// last line.
pub open spec fn spec_catalog_entry(i: int) -> CatalogEntry {
    if i == 0 {
        CatalogEntry { retailer: Retailer::Amazon, denomination: 25, base_cost: 20, stock: 50 }
    } else if i == 1 {
        CatalogEntry { retailer: Retailer::Starbucks, denomination: 10, base_cost: 8, stock: 30 }
    } else if i == 2 {
        CatalogEntry { retailer: Retailer::Target, denomination: 50, base_cost: 42, stock: 15 }
    } else if i == 3 {
        CatalogEntry { retailer: Retailer::ITunes, denomination: 15, base_cost: 12, stock: 25 }
    } else {
        CatalogEntry { retailer: Retailer::Walmart, denomination: 20, base_cost: 17, stock: 40 }
    }
}

/// The catalog line at position `i`.
pub fn catalog_entry(i: usize) -> (e: CatalogEntry)
    requires
        i < CATALOG_SIZE,
    ensures
        e == spec_catalog_entry(i as int),
{
    if i == 0 {
        CatalogEntry { retailer: Retailer::Amazon, denomination: 25, base_cost: 20, stock: 50 }
    } else if i == 1 {
        CatalogEntry { retailer: Retailer::Starbucks, denomination: 10, base_cost: 8, stock: 30 }
    } else if i == 2 {
        CatalogEntry { retailer: Retailer::Target, denomination: 50, base_cost: 42, stock: 15 }
    } else if i == 3 {
        CatalogEntry { retailer: Retailer::ITunes, denomination: 15, base_cost: 12, stock: 25 }
    } else {
        CatalogEntry { retailer: Retailer::Walmart, denomination: 20, base_cost: 17, stock: 40 }
    }
}

/// Every retailer's own name denotes it: the five catalog names denote
/// five different retailers, and the name of `Other` is none of them.
pub proof fn lemma_name_round_trip(r: Retailer)
    ensures
        Retailer::spec_from_name(r.spec_name()) == r,
{
    reveal_strlit("Amazon");
    reveal_strlit("Starbucks");
    reveal_strlit("Target");
    reveal_strlit("iTunes");
    reveal_strlit("Walmart");
    reveal_strlit("Other");
    assert("Amazon"@[0] == 'A');
    assert("Starbucks"@[0] == 'S');
    assert("Target"@[0] == 'T');
    assert("iTunes"@[0] == 'i');
    assert("Walmart"@[0] == 'W');
    assert("Other"@[0] == 'O');
}

} // verus!
