//! The engine's storage: the contract registry, the prediction ledger, the
//! oracle authorization set, the owner and the identifier counter.
use vstd::prelude::*;

use crate::types::{AIPrediction, AdaptiveContract};

verus! {

/// The engine's tables. The contract with identifier `id` is stored at
/// `contracts[id - 1]` and its prediction history at `predictions[id - 1]`;
/// identifiers are handed out together with the insertion, so none is
/// skipped.
pub struct SmartContract2State {
    pub contract_counter: u64,
    pub contracts: Vec<AdaptiveContract>,
    pub predictions: Vec<Vec<AIPrediction>>,
    pub authorized_oracles: Vec<String>,
    pub owner: String,
}

/// The contract record `c` is well formed at slot `i`.
pub open spec fn record_wf(c: AdaptiveContract, i: int) -> bool {
    &&& c.id == i + 1
    &&& c.created_at <= c.last_updated
}

/// Every prediction of `ps` carries a confidence within `0..=100`.
pub open spec fn history_wf(ps: Seq<AIPrediction>) -> bool {
    forall|k: int| 0 <= k < ps.len() ==> #[trigger] ps[k].confidence <= 100
}

impl SmartContract2State {
    /// The tables' invariant.
    pub open spec fn wf(&self) -> bool {
        &&& self.contracts@.len() == self.contract_counter
        &&& self.predictions@.len() == self.contracts@.len()
        &&& forall|i: int| 0 <= i < self.contracts@.len() ==> record_wf(#[trigger] self.contracts@[i], i)
        &&& forall|i: int| 0 <= i < self.predictions@.len() ==> history_wf(#[trigger] self.predictions@[i]@)
    }

    /// The record of contract `id`, if there is one.
    pub open spec fn contract_of(&self, id: u64) -> Option<AdaptiveContract> {
        if 1 <= id && id <= self.contracts@.len() {
            Some(self.contracts@[id - 1])
        } else {
            None
        }
    }

    /// The prediction history of contract `id`, oldest first; empty for an
    /// unknown contract.
    pub open spec fn history_of(&self, id: u64) -> Seq<AIPrediction> {
        if 1 <= id && id <= self.predictions@.len() {
            self.predictions@[id - 1]@
        } else {
            Seq::empty()
        }
    }

    /// Whether `oracle` holds a `true` flag in the authorization set.
    pub open spec fn authorized(&self, oracle: Seq<char>) -> bool {
        exists|i: int| 0 <= i < self.authorized_oracles@.len() && (#[trigger] self.authorized_oracles@[i])@ == oracle
    }

    /// The freshly initialized tables of an engine owned by `owner`.
    pub open spec fn is_initial(&self, owner: Seq<char>) -> bool {
        &&& self.contract_counter == 0
        &&& self.contracts@.len() == 0
        &&& self.predictions@.len() == 0
        &&& self.authorized_oracles@.len() == 0
        &&& self.owner@ == owner
    }

    /// Empty tables owned by `owner`.
    pub fn new(owner: String) -> (r: Self)
        ensures
            r.wf(),
            r.is_initial(owner@),
    {
        SmartContract2State {
            contract_counter: 0,
            contracts: Vec::new(),
            predictions: Vec::new(),
            authorized_oracles: Vec::new(),
            owner,
        }
    }

    /// Sets the owner and resets the tables, the counter included.
    pub fn initialize(&mut self, owner: String)
        ensures
            final(self).wf(),
            final(self).is_initial(owner@),
    {
        *self = SmartContract2State::new(owner);
    }

    /// Whether `oracle` is authorized; an unknown identity is not.
    pub fn is_oracle_authorized(&self, oracle: &String) -> (r: bool)
        ensures
            r == self.authorized(oracle@),
    {
        let mut i: usize = 0;
        while i < self.authorized_oracles.len()
            invariant
                0 <= i <= self.authorized_oracles@.len(),
                forall|k: int| 0 <= k < i ==> (#[trigger] self.authorized_oracles@[k])@ != oracle@,
            decreases self.authorized_oracles@.len() - i,
        {
            if self.authorized_oracles[i] == *oracle {
                return true;
            }
            i = i + 1;
        }
        false
    }

    /// Sets the flag of `oracle` to `true`; every other flag is kept.
    pub fn set_oracle_authorized(&mut self, oracle: String)
        requires
            old(self).wf(),
        ensures
            final(self).wf(),
            forall|o: Seq<char>| #[trigger] final(self).authorized(o) == (old(self).authorized(o) || o == oracle@),
            final(self).contract_counter == old(self).contract_counter,
            final(self).contracts == old(self).contracts,
            final(self).predictions == old(self).predictions,
            final(self).owner == old(self).owner,
    {
        if !self.is_oracle_authorized(&oracle) {
            let ghost prev = self.authorized_oracles@;
            self.authorized_oracles.push(oracle);
            assert forall|o: Seq<char>| #[trigger] self.authorized(o) == (old(self).authorized(o) || o == self.authorized_oracles@.last()@) by {
                if old(self).authorized(o) {
                    let i = choose|i: int| 0 <= i < prev.len() && (#[trigger] prev[i])@ == o;
                    assert(self.authorized_oracles@[i] == prev[i]);
                }
                if self.authorized(o) {
                    let i = choose|i: int| 0 <= i < self.authorized_oracles@.len() && (#[trigger] self.authorized_oracles@[i])@ == o;
                    if i < prev.len() {
                        assert(prev[i] == self.authorized_oracles@[i]);
                    }
                }
                if o == self.authorized_oracles@.last()@ {
                    assert(self.authorized_oracles@[prev.len() as int]@ == o);
                }
            }
        }
    }

    /// Allocates the next identifier (counter + 1) and stores under it an
    /// active contract created at `now` by `creator`; the prediction history
    /// of the new contract starts empty. Returns the identifier.
    pub fn next_contract_id(&mut self, creator: String, contract_type: String, threshold: u64, now: u64) -> (id: u64)
        requires
            old(self).wf(),
            old(self).contract_counter < u64::MAX,
        ensures
            final(self).wf(),
            id == old(self).contract_counter + 1,
            final(self).contract_counter == id,
            final(self).contracts@ == old(self).contracts@.push(AdaptiveContract {
                id,
                creator,
                contract_type,
                threshold,
                is_active: true,
                created_at: now,
                last_updated: now,
            }),
            final(self).predictions@.len() == old(self).predictions@.len() + 1,
            final(self).predictions@.drop_last() == old(self).predictions@,
            forall|k: u64| #[trigger] final(self).history_of(k) == if k == id {
                Seq::<AIPrediction>::empty()
            } else {
                old(self).history_of(k)
            },
            final(self).authorized_oracles == old(self).authorized_oracles,
            final(self).owner == old(self).owner,
    {
        let id = self.contract_counter + 1;
        self.contract_counter = id;
        self.contracts.push(AdaptiveContract {
            id,
            creator,
            contract_type,
            threshold,
            is_active: true,
            created_at: now,
            last_updated: now,
        });
        let ghost before = self.predictions@;
        let empty: Vec<AIPrediction> = Vec::new();
        self.predictions.push(empty);
        assert(self.predictions@[before.len() as int]@ == Seq::<AIPrediction>::empty());
        assert(self.predictions@.drop_last() == before);
        assert forall|k: u64| #[trigger] self.history_of(k) == if k == id {
            Seq::<AIPrediction>::empty()
        } else {
            old(self).history_of(k)
        } by {
            if 1 <= k && k < id {
                assert(self.predictions@[k - 1] == before[k - 1]);
            }
        }
        assert forall|i: int| 0 <= i < self.predictions@.len() implies history_wf(#[trigger] self.predictions@[i]@) by {
            if i < before.len() {
                assert(self.predictions@[i] == before[i]);
            }
        }
        id
    }

    /// The slot of contract `id` in the tables, when the contract exists.
    fn slot(&self, id: u64) -> (r: Option<usize>)
        requires
            self.wf(),
        ensures
            r.is_some() == (1 <= id && id <= self.contracts@.len()),
            r.is_some() ==> r.unwrap() == id - 1,
    {
        let n = self.contracts.len();
        if id < 1 || id > n as u64 {
            None
        } else {
            Some((id - 1) as usize)
        }
    }

    /// The record of contract `id`, or `None` when there is none.
    pub fn get_contract(&self, id: u64) -> (r: Option<AdaptiveContract>)
        requires
            self.wf(),
        ensures
            r == self.contract_of(id),
    {
        match self.slot(id) {
            Some(idx) => Some(self.contracts[idx].copy()),
            None => None,
        }
    }

    /// Replaces the stored record of contract `c.id` by `c`; nothing else
    /// changes.
    pub fn put_contract(&mut self, c: AdaptiveContract)
        requires
            old(self).wf(),
            old(self).contract_of(c.id).is_some(),
            c.created_at <= c.last_updated,
        ensures
            final(self).wf(),
            final(self).contracts@ == old(self).contracts@.update(c.id - 1, c),
            final(self).contract_counter == old(self).contract_counter,
            final(self).predictions == old(self).predictions,
            final(self).authorized_oracles == old(self).authorized_oracles,
            final(self).owner == old(self).owner,
    {
        let idx = self.slot(c.id).unwrap();
        self.contracts[idx] = c;
        assert forall|i: int| 0 <= i < self.contracts@.len() implies record_wf(#[trigger] self.contracts@[i], i) by {
            if i != idx {
                assert(self.contracts@[i] == old(self).contracts@[i]);
            }
        }
    }

    /// All stored contracts, by increasing identifier.
    pub fn get_all_contracts(&self) -> (r: Vec<AdaptiveContract>)
        requires
            self.wf(),
        ensures
            r@ == self.contracts@,
    {
        let mut r: Vec<AdaptiveContract> = Vec::new();
        let mut i: usize = 0;
        while i < self.contracts.len()
            invariant
                0 <= i <= self.contracts@.len(),
                r@ == self.contracts@.subrange(0, i as int),
            decreases self.contracts@.len() - i,
        {
            r.push(self.contracts[i].copy());
            i = i + 1;
            assert(r@ == self.contracts@.subrange(0, i as int));
        }
        assert(self.contracts@.subrange(0, i as int) == self.contracts@);
        r
    }

    /// Appends `prediction` to the history of contract `id`, when that
    /// contract exists; returns whether it did. Nothing else changes.
    pub fn add_prediction(&mut self, id: u64, prediction: AIPrediction) -> (added: bool)
        requires
            old(self).wf(),
            prediction.confidence <= 100,
        ensures
            final(self).wf(),
            added == old(self).contract_of(id).is_some(),
            forall|k: u64| #[trigger] final(self).history_of(k) == if added && k == id {
                old(self).history_of(k).push(prediction)
            } else {
                old(self).history_of(k)
            },
            final(self).contract_counter == old(self).contract_counter,
            final(self).contracts == old(self).contracts,
            final(self).authorized_oracles == old(self).authorized_oracles,
            final(self).owner == old(self).owner,
    {
        let idx = match self.slot(id) {
            Some(idx) => idx,
            None => return false,
        };
        let ghost before = self.predictions@;
        self.predictions[idx].push(prediction);
        assert forall|i: int| 0 <= i < self.predictions@.len() implies history_wf(#[trigger] self.predictions@[i]@) by {
            if i != idx {
                assert(self.predictions@[i] == before[i]);
            } else {
                assert(history_wf(before[i]@));
            }
        }
        assert forall|k: u64| #[trigger] self.history_of(k) == if k == id {
            old(self).history_of(k).push(prediction)
        } else {
            old(self).history_of(k)
        } by {
            if 1 <= k && k <= before.len() && k != id {
                assert(self.predictions@[k - 1] == before[k - 1]);
            }
        }
        true
    }

    /// The history of contract `id`, oldest first; empty for an unknown
    /// contract.
    pub fn get_predictions(&self, id: u64) -> (r: Vec<AIPrediction>)
        requires
            self.wf(),
        ensures
            r@ == self.history_of(id),
    {
        let mut r: Vec<AIPrediction> = Vec::new();
        let ps = match self.slot(id) {
            Some(idx) => &self.predictions[idx],
            None => return r,
        };
        let mut i: usize = 0;
        while i < ps.len()
            invariant
                0 <= i <= ps@.len(),
                r@ == ps@.subrange(0, i as int),
            decreases ps@.len() - i,
        {
            r.push(ps[i].copy());
            i = i + 1;
            assert(r@ == ps@.subrange(0, i as int));
        }
        assert(ps@.subrange(0, i as int) == ps@);
        r
    }

    /// The last prediction of contract `id`, or `None` when its history is
    /// empty or the contract unknown.
    pub fn get_latest_prediction(&self, id: u64) -> (r: Option<AIPrediction>)
        requires
            self.wf(),
        ensures
            r == if self.history_of(id).len() == 0 {
                None::<AIPrediction>
            } else {
                Some(self.history_of(id).last())
            },
    {
        let ps = match self.slot(id) {
            Some(idx) => &self.predictions[idx],
            None => return None,
        };
        if ps.len() == 0 {
            None
        } else {
            Some(ps[ps.len() - 1].copy())
        }
    }

    /// The number of predictions recorded for contract `id`.
    pub fn prediction_count(&self, id: u64) -> (r: u64)
        requires
            self.wf(),
        ensures
            r == self.history_of(id).len(),
    {
        match self.slot(id) {
            Some(idx) => self.predictions[idx].len() as u64,
            None => 0,
        }
    }

    /// The last identifier handed out; zero before the first contract.
    pub fn contract_counter(&self) -> (r: u64)
        ensures
            r == self.contract_counter,
    {
        self.contract_counter
    }

    /// The owner identity.
    pub fn owner(&self) -> (r: String)
        ensures
            r == self.owner,
    {
        self.owner.clone()
    }
}

} // verus!
