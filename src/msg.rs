use std::str::FromStr;

use vstd::prelude::*;

use crate::errors::Error;

verus! {

/// Kinds of snacks.
#[derive(Debug, Clone, Copy, PartialEq, Eq, Hash, Structural)]
pub enum Snack {
    Chocolate,
    Water,
    Chips,
}

/// Every kind, in the order in which reports list them.
pub open spec fn all_snacks() -> Seq<Snack> {
    seq![Snack::Chocolate, Snack::Water, Snack::Chips]
}

/// The storage key of a kind.
pub open spec fn key_of(k: Snack) -> u64 {
    match k {
        Snack::Chocolate => 0,
        Snack::Water => 1,
        Snack::Chips => 2,
    }
}

/// The display name of a kind.
pub open spec fn name_of(k: Snack) -> Seq<char> {
    match k {
        Snack::Chocolate => "Chocolate"@,
        Snack::Water => "Water"@,
        Snack::Chips => "Chips"@,
    }
}

/// The kind that a lower-case name stands for, if any.
pub open spec fn snack_named(t: Seq<char>) -> Option<Snack> {
    if t == "chocolate"@ {
        Some(Snack::Chocolate)
    } else if t == "chips"@ {
        Some(Snack::Chips)
    } else if t == "water"@ {
        Some(Snack::Water)
    } else {
        None
    }
}

/// What `str::to_lowercase` returns for a string.
pub uninterp spec fn lower_of(s: Seq<char>) -> Seq<char>;

/// Relies on `str::to_lowercase`: the lower-case form depends on the
/// characters alone.
#[verifier::external_body]
fn lowercase(s: &str) -> (r: String)
    ensures
        r@ == lower_of(s@),
{
    s.to_lowercase()
}

impl Snack {
    /// Every kind, in the order in which reports list them.
    pub fn all() -> (r: Vec<Snack>)
        ensures
            r@ == all_snacks(),
    {
        let r = vec![Snack::Chocolate, Snack::Water, Snack::Chips];
        assert(r@ =~= all_snacks());
        r
    }

    /// The storage key of this kind.
    pub fn key(self) -> (r: u64)
        ensures
            r == key_of(self),
    {
        match self {
            Snack::Chocolate => 0,
            Snack::Water => 1,
            Snack::Chips => 2,
        }
    }

    /// The display name of this kind.
    pub fn name(self) -> (r: &'static str)
        ensures
            r@ == name_of(self),
    {
        match self {
            Snack::Chocolate => "Chocolate",
            Snack::Water => "Water",
            Snack::Chips => "Chips",
        }
    }

    /// Maps an already lower-cased name to its kind; `given` is the name
    /// as it was given, reported back when nothing matches.
    pub fn from_lowercase(lowered: &String, given: &str) -> (r: Result<Snack, Error>)
        ensures
            match snack_named(lowered@) {
                Some(k) => r == Ok::<Snack, Error>(k),
                None => r matches Err(Error::UnknownItem(u)) && u@ == given@,
            },
    {
        if *lowered == "chocolate".to_string() {
            Ok(Snack::Chocolate)
        } else if *lowered == "chips".to_string() {
            Ok(Snack::Chips)
        } else if *lowered == "water".to_string() {
            Ok(Snack::Water)
        } else {
            Err(Error::UnknownItem(given.to_owned()))
        }
    }

    /// Reads a snack kind from its name, ignoring case.
    pub fn parse(s: &str) -> (r: Result<Snack, Error>)
        ensures
            match snack_named(lower_of(s@)) {
                Some(k) => r == Ok::<Snack, Error>(k),
                None => r matches Err(Error::UnknownItem(u)) && u@ == s@,
            },
    {
        let lowered = lowercase(s);
        Snack::from_lowercase(&lowered, s)
    }
}

impl FromStr for Snack {
    type Err = Error;

    fn from_str(s: &str) -> Result<Snack, Error> {
        Snack::parse(s)
    }
}

/// The message that sets up a new inventory.
#[derive(Debug, Clone, PartialEq)]
pub struct InstantiateMsg {
    /// Address of the owner of the inventory.
    pub owner: String,
    /// Initial amounts of items; a later entry for a kind replaces an earlier one.
    pub initial_amount: Vec<(Snack, u64)>,
}

/// Read-only requests.
#[derive(Debug, Clone, Copy, PartialEq, Eq, Structural)]
pub enum QueryMsg {
    /// Get the current amount of every item.
    ItemsCount,
}

/// The answer to `QueryMsg::ItemsCount`.
#[derive(Debug, Clone, PartialEq)]
pub struct ItemsCountResp {
    /// Every kind with its available amount.
    pub items: Vec<(Snack, u64)>,
}

/// State-changing requests.
#[derive(Debug, Clone, Copy, PartialEq, Eq, Structural)]
pub enum ExecuteMsg {
    /// Decreases the amount of the item by 1.
    GetItem(Snack),
    /// Increases the amount of the item by the given amount (owner only).
    Refill { item: Snack, amount: u64 },
}

} // verus!
