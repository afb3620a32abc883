use std::collections::HashMap;

use vstd::prelude::*;

use crate::msg::{key_of, Snack};

verus! {

/// What a ledger holds: the owner's address and the stored counters, keyed
/// by `key_of`. A kind without an entry has count 0.
pub struct LedgerModel {
    pub owner: Seq<char>,
    pub snacks: Map<u64, u64>,
}

/// The count of a kind in a map of stored counters.
pub open spec fn count_of(snacks: Map<u64, u64>, k: Snack) -> u64 {
    if snacks.contains_key(key_of(k)) {
        snacks[key_of(k)]
    } else {
        0
    }
}

/// The persisted state of an inventory: its owner, fixed when it is made,
/// and a sparse map of counters.
#[derive(Debug)]
pub struct Ledger {
    owner: String,
    snacks: HashMap<u64, u64>,
}

impl View for Ledger {
    type V = LedgerModel;

    closed spec fn view(&self) -> LedgerModel {
        LedgerModel { owner: self.owner@, snacks: self.snacks@ }
    }
}

impl Ledger {
    /// A ledger owned by `owner`, with no counters stored.
    pub fn new(owner: String) -> (r: Ledger)
        ensures
            r@.owner == owner@,
            r@.snacks == Map::<u64, u64>::empty(),
    {
        Ledger { owner, snacks: HashMap::new() }
    }

    /// The owner's address.
    pub fn owner(&self) -> (r: &String)
        ensures
            r@ == self@.owner,
    {
        &self.owner
    }

    /// The stored counter under `key`, if any.
    pub fn load(&self, key: u64) -> (r: Option<u64>)
        ensures
            r == (if self@.snacks.contains_key(key) {
                Some(self@.snacks[key])
            } else {
                None::<u64>
            }),
    {
        match self.snacks.get(&key) {
            Some(v) => Some(*v),
            None => None,
        }
    }

    /// The current count of a kind: 0 where nothing is stored.
    pub fn count(&self, k: Snack) -> (r: u64)
        ensures
            r == count_of(self@.snacks, k),
    {
        match self.load(k.key()) {
            Some(v) => v,
            None => 0,
        }
    }

    /// Overwrites the counter under `key`.
    pub fn save(&mut self, key: u64, value: u64)
        ensures
            final(self)@.owner == old(self)@.owner,
            final(self)@.snacks == old(self)@.snacks.insert(key, value),
    {
        self.snacks.insert(key, value);
    }
}

} // verus!
