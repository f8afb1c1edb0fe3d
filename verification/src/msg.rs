//! Messages that the contract receives and the answers to its queries.
use vstd::prelude::*;

use crate::state::State;

verus! {

/// An amount of one token.
#[derive(Clone, Debug, PartialEq)]
pub struct Coin {
    pub denom: String,
    pub amount: u128,
}

/// Who sent a message and the funds that came with it.
#[derive(Clone, Debug, PartialEq)]
pub struct MessageInfo {
    pub sender: String,
    pub funds: Vec<Coin>,
}

/// The configuration that the contract starts with.
#[derive(Clone, Debug, PartialEq)]
pub struct InstantiateMsg {
    pub fee: u128,
    pub from_bank_addr: String,
    pub from_bank_fee: u128,
    pub to_bank_addr: String,
    pub to_bank_fee: u128,
    pub service_addr: String,
    pub service_fee: u128,
}

/// The requests that change the contract's state or move funds.
#[derive(Clone, Debug, PartialEq)]
pub enum ExecuteMsg {
    UpdateOnlyFee { fee: u128 },
    UpdateConfig {
        fee: u128,
        from_bank_addr: String,
        from_bank_fee: u128,
        to_bank_addr: String,
        to_bank_fee: u128,
        service_addr: String,
        service_fee: u128,
    },
    Transfer { to: String },
}

/// The read-only requests.
#[derive(Clone, Copy, Debug, PartialEq, Eq)]
pub enum QueryMsg {
    GetCurrentFeeState {},
    GetConfigState {},
}

/// The answer to `GetCurrentFeeState`.
#[derive(Clone, Copy, Debug, PartialEq, Eq)]
pub struct GetCurrentFeeStateResponse {
    pub fee: u128,
}

/// The answer to `GetConfigState`: the whole stored configuration; `owner`
/// is `None` for a configuration written before instantiation.
#[derive(Clone, Debug, PartialEq)]
pub struct GetConfigStateResponse {
    pub fee: u128,
    pub from_bank_addr: String,
    pub from_bank_fee: u128,
    pub to_bank_addr: String,
    pub to_bank_fee: u128,
    pub service_addr: String,
    pub service_fee: u128,
    pub owner: Option<String>,
}

/// Native funds held as a list of coins.
#[derive(Clone, Debug, PartialEq)]
pub enum Balance {
    Native(Vec<Coin>),
}

/// The answer to any query.
#[derive(Clone, Debug, PartialEq)]
pub enum QueryResponse {
    CurrentFeeState(GetCurrentFeeStateResponse),
    ConfigState(GetConfigStateResponse),
}

/// The state the contract stores after being instantiated by `sender` with `msg`.
pub open spec fn initial_state(sender: String, msg: InstantiateMsg) -> State {
    State {
        fee: msg.fee,
        from_bank_addr: msg.from_bank_addr,
        from_bank_fee: msg.from_bank_fee,
        to_bank_addr: msg.to_bank_addr,
        to_bank_fee: msg.to_bank_fee,
        service_addr: msg.service_addr,
        service_fee: msg.service_fee,
        owner: Some(sender),
    }
}

/// The answer to `GetConfigState` on `state`.
pub open spec fn config_response(state: State) -> GetConfigStateResponse {
    GetConfigStateResponse {
        fee: state.fee,
        from_bank_addr: state.from_bank_addr,
        from_bank_fee: state.from_bank_fee,
        to_bank_addr: state.to_bank_addr,
        to_bank_fee: state.to_bank_fee,
        service_addr: state.service_addr,
        service_fee: state.service_fee,
        owner: state.owner,
    }
}

} // verus!
