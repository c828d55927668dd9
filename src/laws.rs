//! Properties of the engine that relate several calls or hold for all inputs,
//! stated over the step relations that the operations' contracts use.
use vstd::prelude::*;

use crate::engine::{authorize_step, create_step, evaluate_step, submit_step, SmartContract2};
use crate::evaluator::{executed, triggers};
use crate::types::ContractError;

verus! {

/// Identifiers handed out by successive creations from freshly initialized
/// tables are 1, 2, 3, ...: they start at 1, strictly increase and never
/// repeat. `runs[i + 1]` is the engine after the `i`-th call, made by the
/// verified identity `creators[i]`, which returned `Ok(ids[i])`.
pub proof fn lemma_creation_ids_increase(
    runs: Seq<SmartContract2>,
    creators: Seq<String>,
    nows: Seq<u64>,
    types: Seq<String>,
    thresholds: Seq<u64>,
    ids: Seq<u64>,
)
    requires
        runs.len() == ids.len() + 1,
        creators.len() == ids.len(),
        nows.len() == ids.len(),
        types.len() == ids.len(),
        thresholds.len() == ids.len(),
        runs[0].state.contract_counter == 0,
        forall|i: int| 0 <= i < runs.len() ==> (#[trigger] runs[i]).wf(),
        forall|i: int|
            0 <= i < ids.len() ==> create_step(
                #[trigger] runs[i],
                runs[i + 1],
                Some(creators[i]),
                nows[i],
                types[i],
                thresholds[i],
                Ok::<u64, ContractError>(ids[i]),
            ),
    ensures
        forall|i: int| 0 <= i < ids.len() ==> #[trigger] ids[i] == i + 1,
        forall|i: int, j: int| 0 <= i < j < ids.len() ==> ids[i] < ids[j],
{
    assert forall|i: int| 0 <= i < ids.len() implies #[trigger] ids[i] == i + 1 by {
        lemma_counter_after_creations(runs, creators, nows, types, thresholds, ids, i);
    }
    assert forall|i: int, j: int| 0 <= i < j < ids.len() implies ids[i] < ids[j] by {
        assert(ids[i] == i + 1);
        assert(ids[j] == j + 1);
    }
}

/// After `k` creations from a zero counter, the counter is `k` and the `k`-th
/// call returned `k + 1`.
proof fn lemma_counter_after_creations(
    runs: Seq<SmartContract2>,
    creators: Seq<String>,
    nows: Seq<u64>,
    types: Seq<String>,
    thresholds: Seq<u64>,
    ids: Seq<u64>,
    k: int,
)
    requires
        0 <= k < ids.len(),
        runs.len() == ids.len() + 1,
        creators.len() == ids.len(),
        nows.len() == ids.len(),
        types.len() == ids.len(),
        thresholds.len() == ids.len(),
        runs[0].state.contract_counter == 0,
        forall|i: int| 0 <= i < runs.len() ==> (#[trigger] runs[i]).wf(),
        forall|i: int|
            0 <= i < ids.len() ==> create_step(
                #[trigger] runs[i],
                runs[i + 1],
                Some(creators[i]),
                nows[i],
                types[i],
                thresholds[i],
                Ok::<u64, ContractError>(ids[i]),
            ),
    ensures
        runs[k].state.contract_counter == k,
        ids[k] == k + 1,
    decreases k,
{
    if k > 0 {
        lemma_counter_after_creations(runs, creators, nows, types, thresholds, ids, k - 1);
        assert(create_step(runs[k - 1], runs[k], Some(creators[k - 1]), nows[k - 1], types[k - 1], thresholds[k - 1], Ok::<u64, ContractError>(ids[k - 1])));
        assert(runs[k].wf());
        assert(runs[k].state.contracts@.len() == runs[k - 1].state.contracts@.len() + 1);
    }
    assert(create_step(runs[k], runs[k + 1], Some(creators[k]), nows[k], types[k], thresholds[k], Ok::<u64, ContractError>(ids[k])));
    assert(runs[k + 1].wf());
    assert(runs[k + 1].state.contracts@.len() == runs[k].state.contracts@.len() + 1);
}

/// An authorized oracle's prediction with a confidence above 100 is refused
/// with `InvalidConfidence`, and the engine is left unchanged.
pub proof fn lemma_confidence_out_of_range_rejected(
    pre: SmartContract2,
    post: SmartContract2,
    oracle: String,
    now: u64,
    contract_id: u64,
    prediction_type: String,
    value: i64,
    confidence: u8,
    r: Result<(), ContractError>,
)
    requires
        pre.state.authorized(oracle@),
        confidence > 100,
        submit_step(pre, post, Some(oracle), now, contract_id, prediction_type, value, confidence, r),
    ensures
        r == Err::<(), ContractError>(ContractError::InvalidConfidence),
        post == pre,
{
}

/// A prediction from an identity without an oracle authorization is refused
/// with `OracleNotAuthorized`, whatever its confidence, value and contract,
/// and the engine is left unchanged.
pub proof fn lemma_unauthorized_oracle_rejected(
    pre: SmartContract2,
    post: SmartContract2,
    oracle: String,
    now: u64,
    contract_id: u64,
    prediction_type: String,
    value: i64,
    confidence: u8,
    r: Result<(), ContractError>,
)
    requires
        !pre.state.authorized(oracle@),
        submit_step(pre, post, Some(oracle), now, contract_id, prediction_type, value, confidence, r),
    ensures
        r == Err::<(), ContractError>(ContractError::OracleNotAuthorized),
        post == pre,
{
}

/// Authorizing an oracle as anyone but the owner fails with `Unauthorized`
/// and leaves the authorization set unchanged; as the owner it authorizes the
/// oracle.
pub proof fn lemma_only_owner_authorizes(
    pre: SmartContract2,
    post: SmartContract2,
    caller: String,
    oracle: String,
    r: Result<(), ContractError>,
)
    requires
        authorize_step(pre, post, Some(caller), oracle, r),
    ensures
        caller@ != pre.state.owner@ ==> r == Err::<(), ContractError>(ContractError::Unauthorized)
            && post.state.authorized_oracles == pre.state.authorized_oracles,
        caller@ == pre.state.owner@ ==> r == Ok::<(), ContractError>(()) && post.state.authorized(oracle@),
{
}

/// Once a contract is inactive, whether before a first evaluation or by it, a
/// further evaluation changes nothing: no second refresh of `last_updated`
/// and no second `ContractExecuted` notice.
pub proof fn lemma_evaluation_idempotent(
    s0: SmartContract2,
    s1: SmartContract2,
    s2: SmartContract2,
    contract_id: u64,
    v1: i64,
    t1: u64,
    r1: Result<(), ContractError>,
    v2: i64,
    t2: u64,
    r2: Result<(), ContractError>,
)
    requires
        s0.state.contract_of(contract_id) is Some,
        !s0.state.contract_of(contract_id).unwrap().is_active || triggers(s0.state.contract_of(contract_id).unwrap(), v1),
        evaluate_step(s0, s1, contract_id, v1, t1, r1),
        evaluate_step(s1, s2, contract_id, v2, t2, r2),
    ensures
        !s1.state.contract_of(contract_id).unwrap().is_active,
        s2 == s1,
{
    let c = s0.state.contract_of(contract_id).unwrap();
    if triggers(c, v1) {
        assert(s1.state.contract_of(contract_id) == Some(executed(c, t1)));
    }
}

} // verus!
