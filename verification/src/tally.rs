//! The running record of a simulation: attempts taken and one counter per
//! category.

use vstd::prelude::*;
use crate::rarity::Rarity;
use crate::rarity::COST_PER_ATTEMPT;

verus! {

/// Attempts taken so far and how often each category came up.
#[derive(Clone, Copy, Debug, PartialEq, Eq, Structural)]
pub struct SimulationResult {
    pub attempts: u64,
    pub uncommon: u64,
    pub rare: u64,
    pub epic: u64,
    pub legendary: u64,
    pub ancient: u64,
}

impl SimulationResult {
    /// The record before any attempt: every field zero.
    pub open spec fn zero() -> SimulationResult {
        SimulationResult { attempts: 0, uncommon: 0, rare: 0, epic: 0, legendary: 0, ancient: 0 }
    }

    /// The counter kept for one category.
    pub open spec fn spec_count(self, r: Rarity) -> u64 {
        match r {
            Rarity::Uncommon => self.uncommon,
            Rarity::Rare => self.rare,
            Rarity::Epic => self.epic,
            Rarity::Legendary => self.legendary,
            Rarity::Ancient => self.ancient,
        }
    }

    /// Sum of the five category counters.
    pub open spec fn counted(self) -> int {
        self.uncommon + self.rare + self.epic + self.legendary + self.ancient
    }

    /// The record's invariant: every attempt was counted under exactly one
    /// category, and `Ancient` came up at most once.
    pub open spec fn wf(self) -> bool {
        &&& self.counted() == self.attempts
        &&& self.ancient <= 1
    }

    /// The record after one more attempt whose outcome is `r`.
    pub open spec fn recorded(self, r: Rarity) -> SimulationResult
        recommends
            self.attempts < u64::MAX,
            self.wf(),
    {
        let attempts = (self.attempts + 1) as u64;
        match r {
            Rarity::Uncommon => SimulationResult {
                attempts,
                uncommon: (self.uncommon + 1) as u64,
                ..self
            },
            Rarity::Rare => SimulationResult { attempts, rare: (self.rare + 1) as u64, ..self },
            Rarity::Epic => SimulationResult { attempts, epic: (self.epic + 1) as u64, ..self },
            Rarity::Legendary => SimulationResult {
                attempts,
                legendary: (self.legendary + 1) as u64,
                ..self
            },
            Rarity::Ancient => SimulationResult {
                attempts,
                ancient: (self.ancient + 1) as u64,
                ..self
            },
        }
    }

    /// Whether a run with this record and attempt limit goes on: no `Ancient`
    /// yet, and attempts left.
    pub open spec fn running(self, limit: u64) -> bool {
        self.ancient == 0 && self.attempts < limit
    }

    /// What the attempts so far have cost, as a number.
    pub open spec fn spec_total_cost(self) -> int {
        self.attempts * 200
    }

    /// A fresh record: no attempts, every counter zero.
    pub fn new() -> (r: SimulationResult)
        ensures
            r == SimulationResult::zero(),
            r.wf(),
    {
        SimulationResult { attempts: 0, uncommon: 0, rare: 0, epic: 0, legendary: 0, ancient: 0 }
    }

    /// Whether the record meets its invariant.
    pub fn is_well_formed(&self) -> (b: bool)
        ensures
            b == self.wf(),
    {
        let sum: u128 = self.uncommon as u128 + self.rare as u128 + self.epic as u128
            + self.legendary as u128 + self.ancient as u128;
        sum == self.attempts as u128 && self.ancient <= 1
    }

    /// Whether another attempt is due under `limit`.
    pub fn is_running(&self, limit: u64) -> (b: bool)
        ensures
            b == self.running(limit),
    {
        self.ancient == 0 && self.attempts < limit
    }

    /// Counts one attempt with outcome `r`: attempts and that category's
    /// counter go up by one, the other counters stay.
    pub fn record(&mut self, r: Rarity)
        requires
            old(self).wf(),
            old(self).attempts < u64::MAX,
        ensures
            *final(self) == old(self).recorded(r),
            final(self).attempts == old(self).attempts + 1,
            final(self).spec_count(r) == old(self).spec_count(r) + 1,
            forall|o: Rarity| o != r ==> final(self).spec_count(o) == old(self).spec_count(o),
            final(self).counted() == final(self).attempts,
            old(self).ancient == 0 ==> final(self).wf(),
    {
        self.attempts = self.attempts + 1;
        match r {
            Rarity::Uncommon => {
                self.uncommon = self.uncommon + 1;
            },
            Rarity::Rare => {
                self.rare = self.rare + 1;
            },
            Rarity::Epic => {
                self.epic = self.epic + 1;
            },
            Rarity::Legendary => {
                self.legendary = self.legendary + 1;
            },
            Rarity::Ancient => {
                self.ancient = self.ancient + 1;
            },
        }
    }

    /// The counter kept for one category.
    pub fn count(&self, r: Rarity) -> (n: u64)
        ensures
            n == self.spec_count(r),
    {
        match r {
            Rarity::Uncommon => self.uncommon,
            Rarity::Rare => self.rare,
            Rarity::Epic => self.epic,
            Rarity::Legendary => self.legendary,
            Rarity::Ancient => self.ancient,
        }
    }

    /// The five counters in declaration order.
    pub fn counts(&self) -> (v: [u64; 5])
        ensures
            forall|r: Rarity| #[trigger] v@[r.position()] == self.spec_count(r),
    {
        [self.uncommon, self.rare, self.epic, self.legendary, self.ancient]
    }

    /// Total cost of the attempts taken: attempts times the cost per attempt,
    /// exactly, in a type wide enough for every attempt count.
    pub fn total_cost(&self) -> (c: u128)
        ensures
            c == self.attempts * COST_PER_ATTEMPT,
            c == self.spec_total_cost(),
    {
        let a: u128 = self.attempts as u128;
        let unit: u128 = COST_PER_ATTEMPT as u128;
        assert(a * unit <= 0xFFFF_FFFF_FFFF_FFFF * 200) by (nonlinear_arith)
            requires
                a <= 0xFFFF_FFFF_FFFF_FFFF,
                unit == 200,
        ;
        a * unit
    }
}

} // verus!
