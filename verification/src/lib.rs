//! A fee-splitting payment contract: an owner configures a transaction fee and
//! how that fee is shared between two banks and a service; every transfer sends
//! the net amount to the recipient and the shares of the fee to those parties.

pub mod decimal;
pub mod error;
pub mod msg;
pub mod response;
pub mod state;
pub mod contract;
pub mod laws;
