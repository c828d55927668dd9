//! The engine: the mutating operations, auto-execution and the query surface,
//! over the tables of [`SmartContract2State`].
use vstd::prelude::*;

use crate::evaluator::{
    crosses, evaluate_threshold, executed, execution_reason, magnitude, magnitude_of, refresh,
    refreshed, threshold_reason, triggers,
};
use crate::state::SmartContract2State;
use crate::types::{
    AIPrediction, AdaptiveContract, ContractError, Event, Operation, QueryRequest, QueryResponse,
};

verus! {

/// The engine: its tables and the notifications it has published, oldest
/// first. The caller's verified identity (`None` when there is none) and the
/// current time are handed to each mutating operation.
pub struct SmartContract2 {
    pub state: SmartContract2State,
    pub events: Vec<Event>,
}

/// `e` is the `ContractExecuted` notice of contract `id` for an observation of
/// `value` against `threshold`.
pub open spec fn is_execution_notice(e: Event, id: u64, value: i64, threshold: u64) -> bool {
    match e {
        Event::ContractExecuted { contract_id, reason } => contract_id == id && reason@
            == execution_reason(magnitude_of(value) as u64, threshold),
        _ => false,
    }
}

/// The record of a contract after an accepted prediction of `value` at `now`:
/// its `last_updated` refreshed, then deactivated if the magnitude of `value`
/// reaches its threshold.
pub open spec fn after_prediction(c: AdaptiveContract, value: i64, now: u64) -> AdaptiveContract {
    let touched = AdaptiveContract { last_updated: refreshed(c.last_updated, now), ..c };
    if crosses(c.threshold, value) {
        executed(touched, now)
    } else {
        touched
    }
}

/// The error with which a prediction is refused in `s`, checked in this
/// order: no identity, no oracle authorization, confidence above 100, unknown
/// contract, inactive contract; `None` when it is accepted.
pub open spec fn submit_error(
    s: SmartContract2State,
    signer: Option<String>,
    contract_id: u64,
    confidence: u8,
) -> Option<ContractError> {
    if signer.is_none() {
        Some(ContractError::Unauthorized)
    } else if !s.authorized(signer.unwrap()@) {
        Some(ContractError::OracleNotAuthorized)
    } else if confidence > 100 {
        Some(ContractError::InvalidConfidence)
    } else if s.contract_of(contract_id).is_none() {
        Some(ContractError::ContractNotFound)
    } else if !s.contract_of(contract_id).unwrap().is_active {
        Some(ContractError::ContractNotActive)
    } else {
        None
    }
}

/// `post` is `pre` after the threshold evaluation of an observation of `value`
/// at `now` against contract `contract_id`, with result `r`.
pub open spec fn evaluate_step(
    pre: SmartContract2,
    post: SmartContract2,
    contract_id: u64,
    value: i64,
    now: u64,
    r: Result<(), ContractError>,
) -> bool {
    match pre.state.contract_of(contract_id) {
        None => r == Err::<(), ContractError>(ContractError::ContractNotFound) && post == pre,
        Some(c) => {
            &&& r == Ok::<(), ContractError>(())
            &&& if triggers(c, value) {
                &&& post.state.contracts@ == pre.state.contracts@.update(contract_id - 1, executed(c, now))
                &&& post.state.contract_counter == pre.state.contract_counter
                &&& post.state.predictions == pre.state.predictions
                &&& post.state.authorized_oracles == pre.state.authorized_oracles
                &&& post.state.owner == pre.state.owner
                &&& post.events@.len() == pre.events@.len() + 1
                &&& post.events@.drop_last() == pre.events@
                &&& is_execution_notice(post.events@.last(), contract_id, value, c.threshold)
            } else {
                post == pre
            }
        },
    }
}

/// `post` is `pre` after `CreateAdaptiveContract` by `signer` at `now`, with
/// result `r`.
pub open spec fn create_step(
    pre: SmartContract2,
    post: SmartContract2,
    signer: Option<String>,
    now: u64,
    contract_type: String,
    threshold: u64,
    r: Result<u64, ContractError>,
) -> bool {
    match signer {
        None => r == Err::<u64, ContractError>(ContractError::Unauthorized) && post == pre,
        Some(creator) => {
            let id = (pre.state.contract_counter + 1) as u64;
            &&& r == Ok::<u64, ContractError>(id)
            &&& post.state.contract_counter == id
            &&& post.state.contracts@ == pre.state.contracts@.push(
                AdaptiveContract {
                    id,
                    creator,
                    contract_type,
                    threshold,
                    is_active: true,
                    created_at: now,
                    last_updated: now,
                },
            )
            &&& forall|k: u64| #[trigger]
                post.state.history_of(k) == if k == id {
                    Seq::<AIPrediction>::empty()
                } else {
                    pre.state.history_of(k)
                }
            &&& post.state.authorized_oracles == pre.state.authorized_oracles
            &&& post.state.owner == pre.state.owner
            &&& post.events@ == pre.events@.push(
                Event::ContractCreated { contract_id: id, creator, contract_type },
            )
        },
    }
}

/// `post` is `pre` after `SubmitAIPrediction` by `signer` at `now`, with
/// result `r`.
pub open spec fn submit_step(
    pre: SmartContract2,
    post: SmartContract2,
    signer: Option<String>,
    now: u64,
    contract_id: u64,
    prediction_type: String,
    value: i64,
    confidence: u8,
    r: Result<(), ContractError>,
) -> bool {
    match submit_error(pre.state, signer, contract_id, confidence) {
        Some(e) => r == Err::<(), ContractError>(e) && post == pre,
        None => {
            let c = pre.state.contract_of(contract_id).unwrap();
            let prediction = AIPrediction {
                timestamp: now,
                prediction_type,
                value,
                confidence,
                oracle: signer.unwrap(),
            };
            let received = Event::PredictionReceived {
                contract_id,
                prediction_type,
                value,
                confidence,
            };
            &&& r == Ok::<(), ContractError>(())
            &&& post.state.contract_counter == pre.state.contract_counter
            &&& post.state.contracts@ == pre.state.contracts@.update(
                contract_id - 1,
                after_prediction(c, value, now),
            )
            &&& forall|k: u64| #[trigger]
                post.state.history_of(k) == if k == contract_id {
                    pre.state.history_of(k).push(prediction)
                } else {
                    pre.state.history_of(k)
                }
            &&& post.state.authorized_oracles == pre.state.authorized_oracles
            &&& post.state.owner == pre.state.owner
            &&& if crosses(c.threshold, value) {
                &&& post.events@.len() == pre.events@.len() + 2
                &&& post.events@.drop_last() == pre.events@.push(received)
                &&& is_execution_notice(post.events@.last(), contract_id, value, c.threshold)
            } else {
                post.events@ == pre.events@.push(received)
            }
        },
    }
}

/// `post` is `pre` after `AuthorizeOracle` of `oracle` by `signer`, with
/// result `r`.
pub open spec fn authorize_step(
    pre: SmartContract2,
    post: SmartContract2,
    signer: Option<String>,
    oracle: String,
    r: Result<(), ContractError>,
) -> bool {
    if signer.is_none() || signer.unwrap()@ != pre.state.owner@ {
        r == Err::<(), ContractError>(ContractError::Unauthorized) && post == pre
    } else {
        &&& r == Ok::<(), ContractError>(())
        &&& forall|o: Seq<char>| #[trigger]
            post.state.authorized(o) == (pre.state.authorized(o) || o == oracle@)
        &&& post.state.contract_counter == pre.state.contract_counter
        &&& post.state.contracts == pre.state.contracts
        &&& post.state.predictions == pre.state.predictions
        &&& post.state.owner == pre.state.owner
        &&& post.events@ == pre.events@.push(Event::OracleAuthorized { oracle })
    }
}

impl SmartContract2 {
    /// The engine's invariant.
    pub open spec fn wf(&self) -> bool {
        self.state.wf()
    }

    /// A new engine owned by `owner`, with empty tables and no notification.
    pub fn instantiate(owner: String) -> (r: Self)
        ensures
            r.wf(),
            r.state.is_initial(owner@),
            r.events@.len() == 0,
    {
        SmartContract2 { state: SmartContract2State::new(owner), events: Vec::new() }
    }

    /// Creates an active contract owned by the caller under the next
    /// identifier, which it returns; any verified identity may create one.
    pub fn create_adaptive_contract(
        &mut self,
        signer: Option<String>,
        now: u64,
        contract_type: String,
        threshold: u64,
    ) -> (r: Result<u64, ContractError>)
        requires
            old(self).wf(),
            old(self).state.contract_counter < u64::MAX,
        ensures
            final(self).wf(),
            create_step(*old(self), *final(self), signer, now, contract_type, threshold, r),
    {
        let creator = match signer {
            Some(s) => s,
            None => return Err(ContractError::Unauthorized),
        };
        let id = self.state.next_contract_id(creator.clone(), contract_type.clone(), threshold, now);
        self.events.push(Event::ContractCreated { contract_id: id, creator, contract_type });
        Ok(id)
    }

    /// Evaluates an observation of `value` at `now` against contract
    /// `contract_id`. An active contract whose threshold the magnitude
    /// reaches is deactivated and a `ContractExecuted` notice is published;
    /// otherwise, an inactive contract included, nothing changes.
    pub fn check_and_execute(&mut self, contract_id: u64, value: i64, now: u64) -> (r: Result<(), ContractError>)
        requires
            old(self).wf(),
        ensures
            final(self).wf(),
            evaluate_step(*old(self), *final(self), contract_id, value, now, r),
    {
        let mut contract = match self.state.get_contract(contract_id) {
            Some(c) => c,
            None => return Err(ContractError::ContractNotFound),
        };
        let threshold = contract.threshold;
        if evaluate_threshold(&mut contract, value, now) {
            self.state.put_contract(contract);
            let reason = threshold_reason(magnitude(value), threshold);
            self.events.push(Event::ContractExecuted { contract_id, reason });
            assert(self.events@.drop_last() == old(self).events@);
        }
        Ok(())
    }

    /// Records a prediction of the caller, an authorized oracle, against an
    /// active contract, refreshes the contract's `last_updated`, publishes a
    /// `PredictionReceived` notice, then auto-executes the contract if the
    /// magnitude of `value` reaches its threshold. A refused prediction
    /// changes nothing.
    pub fn submit_ai_prediction(
        &mut self,
        signer: Option<String>,
        now: u64,
        contract_id: u64,
        prediction_type: String,
        value: i64,
        confidence: u8,
    ) -> (r: Result<(), ContractError>)
        requires
            old(self).wf(),
        ensures
            final(self).wf(),
            submit_step(*old(self), *final(self), signer, now, contract_id, prediction_type, value, confidence, r),
    {
        let oracle = match signer {
            Some(s) => s,
            None => return Err(ContractError::Unauthorized),
        };
        if !self.state.is_oracle_authorized(&oracle) {
            return Err(ContractError::OracleNotAuthorized);
        }
        if confidence > 100 {
            return Err(ContractError::InvalidConfidence);
        }
        let mut contract = match self.state.get_contract(contract_id) {
            Some(c) => c,
            None => return Err(ContractError::ContractNotFound),
        };
        if !contract.is_active {
            return Err(ContractError::ContractNotActive);
        }
        let prediction = AIPrediction {
            timestamp: now,
            prediction_type: prediction_type.clone(),
            value,
            confidence,
            oracle,
        };
        let ghost p = prediction;
        self.state.add_prediction(contract_id, prediction);
        let ghost added = self.state;
        contract.last_updated = refresh(contract.last_updated, now);
        self.state.put_contract(contract);
        self.events.push(Event::PredictionReceived { contract_id, prediction_type, value, confidence });
        let ghost mid = *self;
        assert forall|k: u64| #[trigger] mid.state.history_of(k) == added.history_of(k) by {}
        let _ = self.check_and_execute(contract_id, value, now);
        proof {
            let c = old(self).state.contract_of(contract_id).unwrap();
            assert forall|k: u64| #[trigger] self.state.history_of(k) == mid.state.history_of(k) by {}
            if crosses(c.threshold, value) {
                assert(self.state.contracts@ =~= old(self).state.contracts@.update(
                    contract_id - 1,
                    after_prediction(c, value, now),
                ));
                assert(self.events@.drop_last() == mid.events@);
            }
            assert(forall|k: u64| #[trigger] self.state.history_of(k) == if k == contract_id {
                old(self).state.history_of(k).push(p)
            } else {
                old(self).state.history_of(k)
            });
        }
        Ok(())
    }

    /// Sets the flag of `oracle_address` to `true` and publishes an
    /// `OracleAuthorized` notice; only the owner may.
    pub fn authorize_oracle(&mut self, signer: Option<String>, oracle_address: String) -> (r: Result<(), ContractError>)
        requires
            old(self).wf(),
        ensures
            final(self).wf(),
            authorize_step(*old(self), *final(self), signer, oracle_address, r),
    {
        let caller = match signer {
            Some(s) => s,
            None => return Err(ContractError::Unauthorized),
        };
        if caller != self.state.owner {
            return Err(ContractError::Unauthorized);
        }
        self.state.set_oracle_authorized(oracle_address.clone());
        self.events.push(Event::OracleAuthorized { oracle: oracle_address });
        Ok(())
    }

    /// Runs one mutating operation for `signer` at `now`; each kind behaves
    /// as the method of the same name.
    pub fn execute_operation(&mut self, signer: Option<String>, now: u64, operation: Operation) -> (r: Result<(), ContractError>)
        requires
            old(self).wf(),
            operation is CreateAdaptiveContract ==> old(self).state.contract_counter < u64::MAX,
        ensures
            final(self).wf(),
            match operation {
                Operation::CreateAdaptiveContract { contract_type, threshold } => {
                    let created = if signer.is_none() {
                        Err::<u64, ContractError>(ContractError::Unauthorized)
                    } else {
                        Ok::<u64, ContractError>((old(self).state.contract_counter + 1) as u64)
                    };
                    &&& create_step(*old(self), *final(self), signer, now, contract_type, threshold, created)
                    &&& r == if signer.is_none() {
                        Err::<(), ContractError>(ContractError::Unauthorized)
                    } else {
                        Ok::<(), ContractError>(())
                    }
                },
                Operation::SubmitAIPrediction { contract_id, prediction_type, value, confidence } =>
                    submit_step(*old(self), *final(self), signer, now, contract_id, prediction_type, value, confidence, r),
                Operation::AuthorizeOracle { oracle_address } =>
                    authorize_step(*old(self), *final(self), signer, oracle_address, r),
            },
    {
        match operation {
            Operation::CreateAdaptiveContract { contract_type, threshold } => {
                match self.create_adaptive_contract(signer, now, contract_type, threshold) {
                    Ok(_) => Ok(()),
                    Err(e) => Err(e),
                }
            },
            Operation::SubmitAIPrediction { contract_id, prediction_type, value, confidence } => {
                self.submit_ai_prediction(signer, now, contract_id, prediction_type, value, confidence)
            },
            Operation::AuthorizeOracle { oracle_address } => {
                self.authorize_oracle(signer, oracle_address)
            },
        }
    }

    /// Answers a read query; a missing entity yields an empty answer.
    pub fn handle_query(&self, request: QueryRequest) -> (r: QueryResponse)
        requires
            self.wf(),
        ensures
            match request {
                QueryRequest::GetContract { id } => r == QueryResponse::Contract(self.state.contract_of(id)),
                QueryRequest::GetAllContracts => match r {
                    QueryResponse::Contracts(v) => v@ == self.state.contracts@,
                    _ => false,
                },
                QueryRequest::GetPredictions { contract_id } => match r {
                    QueryResponse::Predictions(v) => v@ == self.state.history_of(contract_id),
                    _ => false,
                },
            },
    {
        match request {
            QueryRequest::GetContract { id } => QueryResponse::Contract(self.state.get_contract(id)),
            QueryRequest::GetAllContracts => QueryResponse::Contracts(self.state.get_all_contracts()),
            QueryRequest::GetPredictions { contract_id } => {
                QueryResponse::Predictions(self.state.get_predictions(contract_id))
            },
        }
    }
}

} // verus!
