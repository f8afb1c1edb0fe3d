//! The configuration that the contract keeps in storage.
use vstd::prelude::*;

verus! {

/// What the contract stores: the transaction fee (a percentage of each
/// transfer), the three parties that share the fee with their percentages of
/// it, and the owner who may change all of this. A configuration that was
/// written before the contract was instantiated has no owner, and anyone may
/// change it.
#[derive(Clone, Debug, PartialEq)]
pub struct State {
    pub fee: u128,
    pub from_bank_addr: String,
    pub from_bank_fee: u128,
    pub to_bank_addr: String,
    pub to_bank_fee: u128,
    pub service_addr: String,
    pub service_fee: u128,
    pub owner: Option<String>,
}

/// Whether `sender` may change `state`: it is the owner, or there is none.
pub open spec fn authorized(state: State, sender: String) -> bool {
    match state.owner {
        None => true,
        Some(owner) => sender@ == owner@,
    }
}

/// `state` with its transaction fee replaced by `fee`.
pub open spec fn with_fee(state: State, fee: u128) -> State {
    State { fee, ..state }
}

/// `state` with every configurable field replaced; the owner stays.
pub open spec fn with_config(
    state: State,
    fee: u128,
    from_bank_addr: String,
    from_bank_fee: u128,
    to_bank_addr: String,
    to_bank_fee: u128,
    service_addr: String,
    service_fee: u128,
) -> State {
    State {
        fee,
        from_bank_addr,
        from_bank_fee,
        to_bank_addr,
        to_bank_fee,
        service_addr,
        service_fee,
        owner: state.owner,
    }
}

/// A configuration without an owner, made of the given fields.
pub open spec fn unowned_config(
    fee: u128,
    from_bank_addr: String,
    from_bank_fee: u128,
    to_bank_addr: String,
    to_bank_fee: u128,
    service_addr: String,
    service_fee: u128,
) -> State {
    State {
        fee,
        from_bank_addr,
        from_bank_fee,
        to_bank_addr,
        to_bank_fee,
        service_addr,
        service_fee,
        owner: None,
    }
}

/// What reading the configuration from storage gave.
pub enum StoredState {
    /// Nothing is stored; loading failed with this not-found error.
    Missing(cosmwasm_std::StdError),
    /// Something is stored; this is what loading it gave.
    Present(Result<State, cosmwasm_std::StdError>),
}

/// What loading the configuration gave, whether or not anything was stored.
pub open spec fn load_result(stored: StoredState) -> Result<State, cosmwasm_std::StdError> {
    match stored {
        StoredState::Missing(e) => Err(e),
        StoredState::Present(r) => r,
    }
}

impl StoredState {
    /// What loading the configuration gave.
    pub fn into_load_result(self) -> (r: Result<State, cosmwasm_std::StdError>)
        ensures
            r == load_result(self),
    {
        match self {
            StoredState::Missing(e) => Err(e),
            StoredState::Present(r) => r,
        }
    }
}

} // verus!
