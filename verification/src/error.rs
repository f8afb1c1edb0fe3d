//! Errors of the contract.
use vstd::prelude::*;

verus! {

/// The error type of the host library, carried through unchanged: a failed
/// load from contract storage or a refused address ends up here.
#[verifier::external_type_specification]
#[verifier::external_body]
pub struct ExStdError(cosmwasm_std::StdError);

/// Why an execute message was refused.
#[derive(Debug)]
pub enum ContractError {
    /// A failure reported by the host library (storage or address validation).
    Std(cosmwasm_std::StdError),
    /// The sender is not the owner recorded in the state.
    Unauthorized {},
    /// A transfer that carries no funds.
    InvalidZeroAmount {},
}

} // verus!
