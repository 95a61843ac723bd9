use vstd::prelude::*;

verus! {

/// The contract that an eligibility record refers to.
#[derive(Clone, Debug, PartialEq, Eq)]
pub struct ContractRow {
    pub contract_address: String,
    pub contract_type: String,
}

/// One eligibility row joined with its contract, as the store returns it.
/// `contract` is `None` where the referenced contract row is missing.
#[derive(Clone, Debug, PartialEq, Eq)]
pub struct EligibleRow {
    /// The row's internal identifier in the store.
    pub id: i64,
    pub identity: String,
    pub amount: String,
    pub merkle_index: String,
    pub contract: Option<ContractRow>,
}

/// One segment of an inclusion-proof path and its place in that path.
#[derive(Clone, Debug, PartialEq, Eq)]
pub struct ProofFragment {
    pub position: i64,
    pub path: String,
}

/// What a successful lookup answers with.
#[derive(Clone, Debug, PartialEq, Eq)]
pub struct EligibleResponse {
    pub identity: String,
    pub amount: String,
    pub merkle_index: String,
    pub contract_address: String,
    pub contract_type: String,
    pub merkle_path: Vec<String>,
    pub merkle_path_len: usize,
}

/// A failed read, as the store layer reports it.
#[derive(Clone, Copy, Debug, PartialEq, Eq, Structural)]
pub enum StoreError {
    /// No connection to the store could be had.
    Unavailable,
    /// A statement could not be prepared or run.
    QueryFailed,
}

/// Why a lookup gave no record.
#[derive(Clone, Copy, Debug, PartialEq, Eq, Structural)]
pub enum LookupError {
    /// The identity is empty or longer than the store accepts.
    InvalidInput,
    StoreUnavailable,
    QueryFailed,
    /// The record refers to a contract that is not in the store.
    MissingContract,
}

/// How a lookup ends.
#[derive(Clone, Debug, PartialEq, Eq)]
pub enum LookupOutcome {
    Found(EligibleResponse),
    NotFound,
    Failed(LookupError),
}

/// The lookup error that a store error stands for.
pub open spec fn error_of(e: StoreError) -> LookupError {
    match e {
        StoreError::Unavailable => LookupError::StoreUnavailable,
        StoreError::QueryFailed => LookupError::QueryFailed,
    }
}

impl StoreError {
    pub fn to_lookup_error(self) -> (r: LookupError)
        ensures
            r == error_of(self),
    {
        match self {
            StoreError::Unavailable => LookupError::StoreUnavailable,
            StoreError::QueryFailed => LookupError::QueryFailed,
        }
    }
}

/// The HTTP status that an outcome is answered with.
pub open spec fn status_of(o: LookupOutcome) -> u16 {
    match o {
        LookupOutcome::Found(_) => 200,
        LookupOutcome::NotFound => 404,
        LookupOutcome::Failed(LookupError::InvalidInput) => 400,
        LookupOutcome::Failed(_) => 500,
    }
}

impl LookupOutcome {
    pub fn status(&self) -> (r: u16)
        ensures
            r == status_of(*self),
    {
        match self {
            LookupOutcome::Found(_) => 200,
            LookupOutcome::NotFound => 404,
            LookupOutcome::Failed(LookupError::InvalidInput) => 400,
            LookupOutcome::Failed(_) => 500,
        }
    }

    /// The plain-text body of an outcome that carries no record. A store
    /// fault is answered with one fixed text, whatever its cause.
    pub fn plain_body(&self) -> (r: Option<&'static str>)
        ensures
            r is None <==> self is Found,
            *self is NotFound ==> r->0@ == "Identity not found"@,
            *self == LookupOutcome::Failed(LookupError::InvalidInput) ==> r->0@
                == "Invalid identity"@,
            status_of(*self) == 500 ==> r->0@ == "Internal server error"@,
    {
        match self {
            LookupOutcome::Found(_) => None,
            LookupOutcome::NotFound => Some("Identity not found"),
            LookupOutcome::Failed(LookupError::InvalidInput) => Some("Invalid identity"),
            LookupOutcome::Failed(_) => Some("Internal server error"),
        }
    }
}

} // verus!
