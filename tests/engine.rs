use adaptive_contract::engine::SmartContract2;
use adaptive_contract::evaluator::{evaluate_threshold, magnitude, refresh};
use adaptive_contract::state::SmartContract2State;
use adaptive_contract::types::{
    AdaptiveContract, ContractError, Event, Operation, QueryRequest, QueryResponse,
};

const OWNER: &str = "owner";
const ORACLE: &str = "oracle-1";

fn who(s: &str) -> Option<String> {
    Some(s.to_string())
}

/// An engine with one authorized oracle and one contract of threshold 100.
fn engine_with_contract() -> SmartContract2 {
    let mut e = SmartContract2::instantiate(OWNER.to_string());
    e.authorize_oracle(who(OWNER), ORACLE.to_string()).unwrap();
    let id = e
        .create_adaptive_contract(who("alice"), 10, "insurance".to_string(), 100)
        .unwrap();
    assert_eq!(id, 1);
    e
}

fn contract(e: &SmartContract2, id: u64) -> AdaptiveContract {
    e.state.get_contract(id).expect("contract exists")
}

#[test]
fn creation_ids_start_at_one_and_increase() {
    let mut e = SmartContract2::instantiate(OWNER.to_string());
    let mut last = 0u64;
    for k in 1..=5u64 {
        let id = e
            .create_adaptive_contract(who("alice"), k, "t".to_string(), 7)
            .unwrap();
        assert_eq!(id, k);
        assert!(id > last);
        last = id;
    }
    assert_eq!(e.state.contract_counter(), 5);
}

#[test]
fn creation_without_identity_is_unauthorized() {
    let mut e = SmartContract2::instantiate(OWNER.to_string());
    let r = e.create_adaptive_contract(None, 1, "t".to_string(), 7);
    assert_eq!(r, Err(ContractError::Unauthorized));
    assert_eq!(e.state.contract_counter(), 0);
    assert!(e.events.is_empty());
}

#[test]
fn created_contract_record_and_notice() {
    let e = engine_with_contract();
    let c = contract(&e, 1);
    assert_eq!(c.id, 1);
    assert_eq!(c.creator, "alice");
    assert_eq!(c.contract_type, "insurance");
    assert_eq!(c.threshold, 100);
    assert!(c.is_active);
    assert_eq!(c.created_at, 10);
    assert_eq!(c.last_updated, 10);
    match e.events.last() {
        Some(Event::ContractCreated { contract_id, creator, contract_type }) => {
            assert_eq!(*contract_id, 1);
            assert_eq!(creator, "alice");
            assert_eq!(contract_type, "insurance");
        }
        other => panic!("unexpected notice {:?}", other),
    }
}

#[test]
fn confidence_above_hundred_is_rejected() {
    let mut e = engine_with_contract();
    let events_before = e.events.len();
    let r = e.submit_ai_prediction(who(ORACLE), 20, 1, "price".to_string(), 50, 101);
    assert_eq!(r, Err(ContractError::InvalidConfidence));
    assert_eq!(e.state.prediction_count(1), 0);
    assert_eq!(contract(&e, 1).last_updated, 10);
    assert!(contract(&e, 1).is_active);
    assert_eq!(e.events.len(), events_before);
}

#[test]
fn confidence_of_hundred_is_accepted() {
    let mut e = engine_with_contract();
    let r = e.submit_ai_prediction(who(ORACLE), 20, 1, "price".to_string(), 50, 100);
    assert_eq!(r, Ok(()));
    assert_eq!(e.state.prediction_count(1), 1);
}

#[test]
fn unauthorized_oracle_is_rejected() {
    let mut e = engine_with_contract();
    // Invalid confidence too: the oracle check comes first.
    let r = e.submit_ai_prediction(who("stranger"), 20, 1, "price".to_string(), 500, 101);
    assert_eq!(r, Err(ContractError::OracleNotAuthorized));
    let r = e.submit_ai_prediction(who("stranger"), 20, 1, "price".to_string(), 50, 50);
    assert_eq!(r, Err(ContractError::OracleNotAuthorized));
    assert_eq!(e.state.prediction_count(1), 0);
    assert!(contract(&e, 1).is_active);
}

#[test]
fn prediction_without_identity_is_unauthorized() {
    let mut e = engine_with_contract();
    let r = e.submit_ai_prediction(None, 20, 1, "price".to_string(), 50, 50);
    assert_eq!(r, Err(ContractError::Unauthorized));
}

#[test]
fn prediction_for_unknown_contract_is_not_found() {
    let mut e = engine_with_contract();
    let r = e.submit_ai_prediction(who(ORACLE), 20, 2, "price".to_string(), 50, 50);
    assert_eq!(r, Err(ContractError::ContractNotFound));
    let r = e.submit_ai_prediction(who(ORACLE), 20, 0, "price".to_string(), 50, 50);
    assert_eq!(r, Err(ContractError::ContractNotFound));
    assert_eq!(e.state.prediction_count(2), 0);
}

#[test]
fn crossing_threshold_deactivates_then_rejects() {
    let mut e = engine_with_contract();
    let r = e.submit_ai_prediction(who(ORACLE), 20, 1, "price".to_string(), -150, 50);
    assert_eq!(r, Ok(()));
    let c = contract(&e, 1);
    assert!(!c.is_active);
    assert_eq!(c.last_updated, 20);
    match e.events.last() {
        Some(Event::ContractExecuted { contract_id, reason }) => {
            assert_eq!(*contract_id, 1);
            assert_eq!(reason, "Threshold reached: 150 >= 100");
        }
        other => panic!("unexpected notice {:?}", other),
    }
    let n = e.events.len();
    let r = e.submit_ai_prediction(who(ORACLE), 30, 1, "price".to_string(), 200, 50);
    assert_eq!(r, Err(ContractError::ContractNotActive));
    assert_eq!(e.events.len(), n);
    assert_eq!(e.state.prediction_count(1), 1);
    assert_eq!(contract(&e, 1).last_updated, 20);
}

#[test]
fn value_equal_to_threshold_deactivates() {
    let mut e = engine_with_contract();
    e.submit_ai_prediction(who(ORACLE), 20, 1, "price".to_string(), 100, 50)
        .unwrap();
    assert!(!contract(&e, 1).is_active);
}

#[test]
fn value_below_threshold_keeps_contract_active() {
    let mut e = engine_with_contract();
    let r = e.submit_ai_prediction(who(ORACLE), 25, 1, "price".to_string(), 99, 80);
    assert_eq!(r, Ok(()));
    let c = contract(&e, 1);
    assert!(c.is_active);
    assert_eq!(c.last_updated, 25);
    assert_eq!(e.state.prediction_count(1), 1);
    let p = e.state.get_latest_prediction(1).expect("a prediction");
    assert_eq!(p.timestamp, 25);
    assert_eq!(p.prediction_type, "price");
    assert_eq!(p.value, 99);
    assert_eq!(p.confidence, 80);
    assert_eq!(p.oracle, ORACLE);
    match e.events.last() {
        Some(Event::PredictionReceived { contract_id, prediction_type, value, confidence }) => {
            assert_eq!(*contract_id, 1);
            assert_eq!(prediction_type, "price");
            assert_eq!(*value, 99);
            assert_eq!(*confidence, 80);
        }
        other => panic!("unexpected notice {:?}", other),
    }
}

#[test]
fn predictions_keep_submission_order() {
    let mut e = engine_with_contract();
    for (t, v) in [(11u64, 1i64), (12, -2), (13, 3)] {
        e.submit_ai_prediction(who(ORACLE), t, 1, "p".to_string(), v, 10)
            .unwrap();
    }
    let ps = e.state.get_predictions(1);
    let values: Vec<i64> = ps.iter().map(|p| p.value).collect();
    assert_eq!(values, vec![1, -2, 3]);
    assert_eq!(e.state.get_latest_prediction(1).unwrap().value, 3);
    assert_eq!(e.state.prediction_count(1), 3);
}

#[test]
fn absent_entities_give_empty_answers() {
    let e = engine_with_contract();
    assert!(e.state.get_contract(0).is_none());
    assert!(e.state.get_contract(9).is_none());
    assert!(e.state.get_predictions(9).is_empty());
    assert!(e.state.get_latest_prediction(1).is_none());
    assert!(e.state.get_latest_prediction(9).is_none());
    assert_eq!(e.state.prediction_count(9), 0);
    assert!(!e.state.is_oracle_authorized(&"nobody".to_string()));
}

#[test]
fn only_owner_authorizes_oracles() {
    let mut e = SmartContract2::instantiate(OWNER.to_string());
    let r = e.authorize_oracle(who("mallory"), ORACLE.to_string());
    assert_eq!(r, Err(ContractError::Unauthorized));
    assert!(!e.state.is_oracle_authorized(&ORACLE.to_string()));
    assert!(e.state.authorized_oracles.is_empty());
    let r = e.authorize_oracle(None, ORACLE.to_string());
    assert_eq!(r, Err(ContractError::Unauthorized));
    let r = e.authorize_oracle(who(OWNER), ORACLE.to_string());
    assert_eq!(r, Ok(()));
    assert!(e.state.is_oracle_authorized(&ORACLE.to_string()));
    match e.events.last() {
        Some(Event::OracleAuthorized { oracle }) => assert_eq!(oracle, ORACLE),
        other => panic!("unexpected notice {:?}", other),
    }
    // Authorizing twice keeps a single entry.
    e.authorize_oracle(who(OWNER), ORACLE.to_string()).unwrap();
    assert_eq!(e.state.authorized_oracles.len(), 1);
    assert_eq!(e.state.owner(), OWNER);
}

#[test]
fn all_contracts_after_three_creations() {
    let mut e = SmartContract2::instantiate(OWNER.to_string());
    for t in ["a", "b", "c"] {
        e.create_adaptive_contract(who("alice"), 1, t.to_string(), 5)
            .unwrap();
    }
    let all = e.state.get_all_contracts();
    let ids: Vec<u64> = all.iter().map(|c| c.id).collect();
    assert_eq!(ids, vec![1, 2, 3]);
    let types: Vec<&str> = all.iter().map(|c| c.contract_type.as_str()).collect();
    assert_eq!(types, vec!["a", "b", "c"]);
}

#[test]
fn evaluating_inactive_contract_changes_nothing() {
    let mut e = engine_with_contract();
    e.submit_ai_prediction(who(ORACLE), 20, 1, "price".to_string(), 150, 50)
        .unwrap();
    let n = e.events.len();
    assert_eq!(e.check_and_execute(1, 1_000, 99), Ok(()));
    assert_eq!(e.events.len(), n);
    assert_eq!(contract(&e, 1).last_updated, 20);
    assert_eq!(e.check_and_execute(7, 1_000, 99), Err(ContractError::ContractNotFound));
}

#[test]
fn check_and_execute_on_active_contract() {
    let mut e = engine_with_contract();
    assert_eq!(e.check_and_execute(1, 5, 40), Ok(()));
    assert!(contract(&e, 1).is_active);
    assert_eq!(contract(&e, 1).last_updated, 10);
    assert_eq!(e.check_and_execute(1, -100, 40), Ok(()));
    assert!(!contract(&e, 1).is_active);
    assert_eq!(contract(&e, 1).last_updated, 40);
}

#[test]
fn magnitude_is_exact() {
    assert_eq!(magnitude(0), 0);
    assert_eq!(magnitude(-150), 150);
    assert_eq!(magnitude(99), 99);
    assert_eq!(magnitude(i64::MAX), i64::MAX as u64);
    assert_eq!(magnitude(i64::MIN), 1u64 << 63);
}

#[test]
fn refresh_never_goes_back() {
    assert_eq!(refresh(10, 20), 20);
    assert_eq!(refresh(20, 10), 20);
    assert_eq!(refresh(5, 5), 5);
}

#[test]
fn evaluate_threshold_decides() {
    let mut c = AdaptiveContract {
        id: 1,
        creator: "a".to_string(),
        contract_type: "t".to_string(),
        threshold: 100,
        is_active: true,
        created_at: 1,
        last_updated: 2,
    };
    assert!(!evaluate_threshold(&mut c, -99, 5));
    assert!(c.is_active);
    assert_eq!(c.last_updated, 2);
    assert!(evaluate_threshold(&mut c, i64::MIN, 5));
    assert!(!c.is_active);
    assert_eq!(c.last_updated, 5);
    assert!(!evaluate_threshold(&mut c, 1_000, 9));
    assert_eq!(c.last_updated, 5);
}

#[test]
fn zero_threshold_fires_on_any_value() {
    let mut e = SmartContract2::instantiate(OWNER.to_string());
    e.authorize_oracle(who(OWNER), ORACLE.to_string()).unwrap();
    e.create_adaptive_contract(who("bob"), 1, "t".to_string(), 0)
        .unwrap();
    e.submit_ai_prediction(who(ORACLE), 2, 1, "p".to_string(), 0, 0)
        .unwrap();
    assert!(!contract(&e, 1).is_active);
}

#[test]
fn operations_dispatch() {
    let mut e = SmartContract2::instantiate(OWNER.to_string());
    let op = Operation::AuthorizeOracle { oracle_address: ORACLE.to_string() };
    assert_eq!(e.execute_operation(who(OWNER), 1, op), Ok(()));
    let op = Operation::CreateAdaptiveContract { contract_type: "x".to_string(), threshold: 10 };
    assert_eq!(e.execute_operation(who("carol"), 2, op), Ok(()));
    let op = Operation::CreateAdaptiveContract { contract_type: "x".to_string(), threshold: 10 };
    assert_eq!(e.execute_operation(None, 2, op), Err(ContractError::Unauthorized));
    let op = Operation::SubmitAIPrediction {
        contract_id: 1,
        prediction_type: "p".to_string(),
        value: 11,
        confidence: 3,
    };
    assert_eq!(e.execute_operation(who(ORACLE), 3, op), Ok(()));
    assert!(!contract(&e, 1).is_active);
    assert_eq!(e.state.contract_counter(), 1);
}

#[test]
fn queries_answer_from_state() {
    let mut e = engine_with_contract();
    e.submit_ai_prediction(who(ORACLE), 20, 1, "p".to_string(), 7, 9)
        .unwrap();
    match e.handle_query(QueryRequest::GetContract { id: 1 }) {
        QueryResponse::Contract(Some(c)) => assert_eq!(c.id, 1),
        other => panic!("unexpected answer {:?}", other),
    }
    match e.handle_query(QueryRequest::GetContract { id: 2 }) {
        QueryResponse::Contract(None) => {}
        other => panic!("unexpected answer {:?}", other),
    }
    match e.handle_query(QueryRequest::GetAllContracts) {
        QueryResponse::Contracts(v) => assert_eq!(v.len(), 1),
        other => panic!("unexpected answer {:?}", other),
    }
    match e.handle_query(QueryRequest::GetPredictions { contract_id: 1 }) {
        QueryResponse::Predictions(v) => {
            assert_eq!(v.len(), 1);
            assert_eq!(v[0].value, 7);
        }
        other => panic!("unexpected answer {:?}", other),
    }
}

#[test]
fn initialize_resets_tables() {
    let mut s = SmartContract2State::new("first".to_string());
    s.next_contract_id("a".to_string(), "t".to_string(), 3, 1);
    s.set_oracle_authorized(ORACLE.to_string());
    s.initialize("second".to_string());
    assert_eq!(s.contract_counter(), 0);
    assert_eq!(s.owner(), "second");
    assert!(s.get_all_contracts().is_empty());
    assert!(!s.is_oracle_authorized(&ORACLE.to_string()));
}

#[test]
fn ledger_appends_only_to_existing_contracts() {
    let mut s = SmartContract2State::new(OWNER.to_string());
    let id = s.next_contract_id("a".to_string(), "t".to_string(), 3, 1);
    let p = adaptive_contract::types::AIPrediction {
        timestamp: 4,
        prediction_type: "p".to_string(),
        value: -1,
        confidence: 0,
        oracle: ORACLE.to_string(),
    };
    assert!(!s.add_prediction(id + 1, p.copy()));
    assert!(s.add_prediction(id, p));
    assert_eq!(s.prediction_count(id), 1);
    assert_eq!(s.prediction_count(id + 1), 0);
}
