//! Records, operations, queries, notifications and errors of the engine.
use vstd::prelude::*;

verus! {

/// A single timestamped observation submitted by an oracle.
#[derive(Debug)]
pub struct AIPrediction {
    pub timestamp: u64,
    pub prediction_type: String,
    pub value: i64,
    pub confidence: u8,
    pub oracle: String,
}

impl AIPrediction {
    /// A field-by-field copy.
    pub fn copy(&self) -> (r: Self)
        ensures
            r == *self,
    {
        AIPrediction {
            timestamp: self.timestamp,
            prediction_type: self.prediction_type.clone(),
            value: self.value,
            confidence: self.confidence,
            oracle: self.oracle.clone(),
        }
    }
}

/// A contract record of the registry.
#[derive(Debug)]
pub struct AdaptiveContract {
    pub id: u64,
    pub creator: String,
    pub contract_type: String,
    pub threshold: u64,
    pub is_active: bool,
    pub created_at: u64,
    pub last_updated: u64,
}

impl AdaptiveContract {
    /// A field-by-field copy.
    pub fn copy(&self) -> (r: Self)
        ensures
            r == *self,
    {
        AdaptiveContract {
            id: self.id,
            creator: self.creator.clone(),
            contract_type: self.contract_type.clone(),
            threshold: self.threshold,
            is_active: self.is_active,
            created_at: self.created_at,
            last_updated: self.last_updated,
        }
    }
}

/// Why a mutating operation was refused.
#[derive(Debug, PartialEq, Eq, Structural, Clone, Copy)]
pub enum ContractError {
    /// No verified caller identity, or the caller is not the required identity.
    Unauthorized,
    /// The caller holds no authorization as an oracle.
    OracleNotAuthorized,
    /// No contract has the given identifier.
    ContractNotFound,
    /// The contract exists but has been deactivated.
    ContractNotActive,
    /// The confidence lies outside `0..=100`.
    InvalidConfidence,
}

/// A notification published to outside listeners.
#[derive(Debug)]
pub enum Event {
    ContractCreated { contract_id: u64, creator: String, contract_type: String },
    PredictionReceived { contract_id: u64, prediction_type: String, value: i64, confidence: u8 },
    ContractExecuted { contract_id: u64, reason: String },
    OracleAuthorized { oracle: String },
}

/// The mutating operations of the engine.
#[derive(Debug)]
pub enum Operation {
    CreateAdaptiveContract { contract_type: String, threshold: u64 },
    SubmitAIPrediction { contract_id: u64, prediction_type: String, value: i64, confidence: u8 },
    AuthorizeOracle { oracle_address: String },
}

/// The read queries of the engine.
#[derive(Debug)]
pub enum QueryRequest {
    GetContract { id: u64 },
    GetAllContracts,
    GetPredictions { contract_id: u64 },
}

/// The answers to [`QueryRequest`]s.
#[derive(Debug)]
pub enum QueryResponse {
    Contract(Option<AdaptiveContract>),
    Contracts(Vec<AdaptiveContract>),
    Predictions(Vec<AIPrediction>),
}

/// Names the operation, query and response types of the engine.
pub struct SmartContract2Abi;

} // verus!
