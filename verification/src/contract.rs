//! The contract's entry points, as functions from what storage held and what
//! the message carried to what storage must hold afterwards and the response.
use vstd::prelude::*;

use cosmwasm_std::StdError;

use crate::decimal::{decimal, decimal_string};
use crate::error::ContractError;
use crate::msg::{
    config_response, initial_state, ExecuteMsg, GetConfigStateResponse,
    GetCurrentFeeStateResponse, InstantiateMsg, MessageInfo, QueryMsg, QueryResponse,
};
use crate::response::{attribute, attribute_is, new_response, sends, BankSend, Response};
use crate::state::{
    authorized, load_result, unowned_config, with_config, with_fee, State, StoredState,
};

verus! {

/// Percentages are taken out of this.
pub const PERCENT_BASE: u128 = 100;

/// A handled message: the state to store in place of the old one, if any,
/// and the response.
#[derive(Clone, Debug, PartialEq)]
pub struct Handled {
    pub save: Option<State>,
    pub response: Response,
}

// ---------------------------------------------------------------------------
// The arithmetic of a transfer.

/// The fee taken from a transfer of `amount` at `fee` percent.
pub open spec fn fee_amount(amount: u128, fee: u128) -> int {
    (amount * fee) / 100
}

/// What the recipient of a transfer of `amount` at `fee` percent receives.
pub open spec fn net_amount(amount: u128, fee: u128) -> int {
    amount - fee_amount(amount, fee)
}

/// The part of a collected fee that a party with `percent` percent receives.
pub open spec fn share(collected: int, percent: u128) -> int {
    (collected * percent) / 100
}

/// A transfer of `amount` under `state` stays within the machine's integers:
/// no product overflows and the fee does not exceed the amount.
pub open spec fn transfer_in_range(state: State, amount: u128) -> bool {
    let collected = fee_amount(amount, state.fee);
    &&& amount * state.fee <= u128::MAX
    &&& collected <= amount
    &&& collected * state.from_bank_fee <= u128::MAX
    &&& collected * state.to_bank_fee <= u128::MAX
    &&& collected * state.service_fee <= u128::MAX
}

/// A transfer computes its amounts only when funds were sent, the state was
/// loaded and the recipient was accepted; then those amounts must be in range.
pub open spec fn transfer_guard(
    stored: Result<State, StdError>,
    amount: u128,
    recipient_check: Result<(), StdError>,
) -> bool {
    (amount != 0 && stored is Ok && recipient_check is Ok) ==> transfer_in_range(
        stored->Ok_0,
        amount,
    )
}

/// Whether a transfer of `amount` under `state` computes without overflow;
/// a caller tests this before handing a transfer over.
pub fn transfer_fits(state: &State, amount: u128) -> (b: bool)
    ensures
        b == transfer_in_range(*state, amount),
{
    let collected = match amount.checked_mul(state.fee) {
        Some(product) => product / PERCENT_BASE,
        None => return false,
    };
    collected <= amount && collected.checked_mul(state.from_bank_fee).is_some()
        && collected.checked_mul(state.to_bank_fee).is_some()
        && collected.checked_mul(state.service_fee).is_some()
}

// ---------------------------------------------------------------------------
// What each operation answers.

/// The response to a fee update to `fee`.
pub open spec fn fee_update_response(r: Response, fee: u128) -> bool {
    &&& r.messages@.len() == 0
    &&& r.attributes@.len() == 2
    &&& attribute_is(r.attributes@[0], "method"@, "update_transaction_fee"@)
    &&& attribute_is(r.attributes@[1], "new_transaction_fee"@, decimal(fee as nat))
}

/// The answer to a fee update by `sender` to `fee`, given what loading the
/// configuration gave; with nothing stored, that is the not-found error.
pub open spec fn fee_update_result(
    stored: Result<State, StdError>,
    sender: String,
    fee: u128,
    res: Result<Handled, ContractError>,
) -> bool {
    match stored {
        Err(e) => res == Err::<Handled, ContractError>(ContractError::Std(e)),
        Ok(s) => if !authorized(s, sender) {
            res == Err::<Handled, ContractError>(ContractError::Unauthorized {  })
        } else {
            &&& res is Ok
            &&& res->Ok_0.save == Some(with_fee(s, fee))
            &&& fee_update_response(res->Ok_0.response, fee)
        },
    }
}

/// The response to a configuration update.
pub open spec fn config_update_response(
    r: Response,
    from: String,
    from_fee: u128,
    to: String,
    to_fee: u128,
    service: String,
    service_fee: u128,
) -> bool {
    &&& r.messages@.len() == 0
    &&& r.attributes@.len() == 7
    &&& attribute_is(r.attributes@[0], "method"@, "updated config"@)
    &&& attribute_is(r.attributes@[1], "from_bank_address"@, from@)
    &&& attribute_is(r.attributes@[2], "from_bank_percentage"@, decimal(from_fee as nat))
    &&& attribute_is(r.attributes@[3], "to_bank_address"@, to@)
    &&& attribute_is(r.attributes@[4], "to_bank_fee_percentage"@, decimal(to_fee as nat))
    &&& attribute_is(r.attributes@[5], "service_fee_address"@, service@)
    &&& attribute_is(r.attributes@[6], "service_fee"@, decimal(service_fee as nat))
}

/// The answer to a configuration update by `sender`, given what reading the
/// configuration from storage gave. With nothing stored, the new
/// configuration is written without an owner.
pub open spec fn config_update_result(
    stored: StoredState,
    sender: String,
    fee: u128,
    from: String,
    from_fee: u128,
    to: String,
    to_fee: u128,
    service: String,
    service_fee: u128,
    res: Result<Handled, ContractError>,
) -> bool {
    if stored is Missing {
        &&& res is Ok
        &&& res->Ok_0.save == Some(
            unowned_config(fee, from, from_fee, to, to_fee, service, service_fee),
        )
        &&& config_update_response(
            res->Ok_0.response,
            from,
            from_fee,
            to,
            to_fee,
            service,
            service_fee,
        )
    } else {
        match load_result(stored) {
            Err(e) => res == Err::<Handled, ContractError>(ContractError::Std(e)),
            Ok(s) => if !authorized(s, sender) {
                res == Err::<Handled, ContractError>(ContractError::Unauthorized {  })
            } else {
                &&& res is Ok
                &&& res->Ok_0.save == Some(
                    with_config(s, fee, from, from_fee, to, to_fee, service, service_fee),
                )
                &&& config_update_response(
                    res->Ok_0.response,
                    from,
                    from_fee,
                    to,
                    to_fee,
                    service,
                    service_fee,
                )
            },
        }
    }
}

/// The response to a transfer of `amount` of `denom` to `to` under `state`:
/// the service, the sending bank and the receiving bank get their shares of
/// the fee, in that order, then the recipient gets the rest.
pub open spec fn transfer_response(
    r: Response,
    state: State,
    to: Seq<char>,
    denom: Seq<char>,
    amount: u128,
) -> bool {
    let collected = fee_amount(amount, state.fee);
    &&& r.messages@.len() == 4
    &&& sends(r.messages@[0], state.service_addr@, share(collected, state.service_fee), denom)
    &&& sends(r.messages@[1], state.from_bank_addr@, share(collected, state.from_bank_fee), denom)
    &&& sends(r.messages@[2], state.to_bank_addr@, share(collected, state.to_bank_fee), denom)
    &&& sends(r.messages@[3], to, net_amount(amount, state.fee), denom)
    &&& r.attributes@.len() == 1
    &&& attribute_is(r.attributes@[0], "action"@, "transfer"@)
}

/// The answer to a transfer of the first coin in `info.funds` to `recipient`,
/// given what loading the configuration gave and the host's verdict on the
/// recipient's address. A transfer never changes the stored state.
pub open spec fn transfer_result(
    stored: Result<State, StdError>,
    info: MessageInfo,
    recipient: String,
    recipient_check: Result<(), StdError>,
    res: Result<Handled, ContractError>,
) -> bool {
    let coin = info.funds@[0];
    if coin.amount == 0 {
        res == Err::<Handled, ContractError>(ContractError::InvalidZeroAmount {  })
    } else {
        match stored {
            Err(e) => res == Err::<Handled, ContractError>(ContractError::Std(e)),
            Ok(s) => match recipient_check {
                Err(e) => res == Err::<Handled, ContractError>(ContractError::Std(e)),
                Ok(_) => {
                    &&& res is Ok
                    &&& res->Ok_0.save is None
                    &&& transfer_response(
                        res->Ok_0.response,
                        s,
                        recipient@,
                        coin.denom@,
                        coin.amount,
                    )
                },
            },
        }
    }
}

/// The answer to the execute message `msg`.
pub open spec fn execute_result(
    stored: StoredState,
    info: MessageInfo,
    msg: ExecuteMsg,
    recipient_check: Result<(), StdError>,
    res: Result<Handled, ContractError>,
) -> bool {
    match msg {
        ExecuteMsg::UpdateOnlyFee { fee } => fee_update_result(
            load_result(stored),
            info.sender,
            fee,
            res,
        ),
        ExecuteMsg::UpdateConfig {
            fee,
            from_bank_addr,
            from_bank_fee,
            to_bank_addr,
            to_bank_fee,
            service_addr,
            service_fee,
        } => config_update_result(
            stored,
            info.sender,
            fee,
            from_bank_addr,
            from_bank_fee,
            to_bank_addr,
            to_bank_fee,
            service_addr,
            service_fee,
            res,
        ),
        ExecuteMsg::Transfer { to } => transfer_result(
            load_result(stored),
            info,
            to,
            recipient_check,
            res,
        ),
    }
}

/// The answer to the query `msg`, given what loading the configuration gave.
pub open spec fn query_result(
    stored: Result<State, StdError>,
    msg: QueryMsg,
    res: Result<QueryResponse, StdError>,
) -> bool {
    match stored {
        Err(e) => res == Err::<QueryResponse, StdError>(e),
        Ok(s) => match msg {
            QueryMsg::GetCurrentFeeState {  } => res == Ok::<QueryResponse, StdError>(
                QueryResponse::CurrentFeeState(GetCurrentFeeStateResponse { fee: s.fee }),
            ),
            QueryMsg::GetConfigState {  } => res == Ok::<QueryResponse, StdError>(
                QueryResponse::ConfigState(config_response(s)),
            ),
        },
    }
}

// ---------------------------------------------------------------------------
// Entry points.

/// Sets up the contract: `info.sender` becomes the owner and `msg` the
/// configuration. Nothing is sent.
pub fn instantiate(info: MessageInfo, msg: InstantiateMsg) -> (res: Handled)
    ensures
        res.save == Some(initial_state(info.sender, msg)),
        res.response.messages@.len() == 0,
        res.response.attributes@.len() == 3,
        attribute_is(res.response.attributes@[0], "method"@, "instantiate"@),
        attribute_is(res.response.attributes@[1], "owner"@, info.sender@),
        attribute_is(res.response.attributes@[2], "fee"@, decimal(msg.fee as nat)),
{
    let owner_text = info.sender.clone();
    let fee_text = decimal_string(msg.fee);
    let state = State {
        fee: msg.fee,
        owner: Some(info.sender),
        from_bank_addr: msg.from_bank_addr,
        from_bank_fee: msg.from_bank_fee,
        to_bank_addr: msg.to_bank_addr,
        to_bank_fee: msg.to_bank_fee,
        service_addr: msg.service_addr,
        service_fee: msg.service_fee,
    };
    let mut response = new_response();
    response.attributes.push(attribute("method", String::from_str("instantiate")));
    response.attributes.push(attribute("owner", owner_text));
    response.attributes.push(attribute("fee", fee_text));
    Handled { save: Some(state), response }
}

/// Handles an execute message. `stored` is what reading the configuration
/// from storage gave, and `recipient_check` the host's verdict on the
/// recipient address of a `Transfer` (the other messages do not look at it).
pub fn execute(
    stored: StoredState,
    info: MessageInfo,
    msg: ExecuteMsg,
    recipient_check: Result<(), StdError>,
) -> (res: Result<Handled, ContractError>)
    requires
        msg is Transfer ==> info.funds@.len() > 0 && transfer_guard(
            load_result(stored),
            info.funds@[0].amount,
            recipient_check,
        ),
    ensures
        execute_result(stored, info, msg, recipient_check, res),
{
    match msg {
        ExecuteMsg::UpdateOnlyFee { fee } => try_update_transaction_fee(
            stored.into_load_result(),
            info,
            fee,
        ),
        ExecuteMsg::UpdateConfig {
            fee,
            from_bank_addr,
            from_bank_fee,
            to_bank_addr,
            to_bank_fee,
            service_addr,
            service_fee,
        } => try_update_config(
            stored,
            info,
            fee,
            from_bank_addr,
            from_bank_fee,
            to_bank_addr,
            to_bank_fee,
            service_addr,
            service_fee,
        ),
        ExecuteMsg::Transfer { to } => execute_transfer(
            stored.into_load_result(),
            info,
            to,
            recipient_check,
        ),
    }
}

/// Whether `sender` may change `state`.
fn may_change(state: &State, sender: &String) -> (b: bool)
    ensures
        b == authorized(*state, *sender),
        state.owner is None ==> b,
        state.owner is Some ==> (b <==> sender@ == state.owner->Some_0@),
{
    match &state.owner {
        None => true,
        Some(owner) => *sender == *owner,
    }
}

/// The owner (anyone, while there is none) sets a new transaction fee.
/// `stored` is what loading the configuration gave.
pub fn try_update_transaction_fee(
    stored: Result<State, StdError>,
    info: MessageInfo,
    fee: u128,
) -> (res: Result<Handled, ContractError>)
    ensures
        fee_update_result(stored, info.sender, fee, res),
{
    let mut state = match stored {
        Ok(s) => s,
        Err(e) => return Err(ContractError::Std(e)),
    };
    if !may_change(&state, &info.sender) {
        return Err(ContractError::Unauthorized {  });
    }
    state.fee = fee;
    let mut response = new_response();
    response.attributes.push(attribute("method", String::from_str("update_transaction_fee")));
    response.attributes.push(attribute("new_transaction_fee", decimal_string(fee)));
    Ok(Handled { save: Some(state), response })
}

/// The owner replaces the whole configuration; the owner stays. With nothing
/// stored anyone may, and the configuration written has no owner.
pub fn try_update_config(
    stored: StoredState,
    info: MessageInfo,
    fee: u128,
    from: String,
    from_fee: u128,
    to: String,
    to_fee: u128,
    serviss: String,
    serviss_fee: u128,
) -> (res: Result<Handled, ContractError>)
    ensures
        config_update_result(
            stored,
            info.sender,
            fee,
            from,
            from_fee,
            to,
            to_fee,
            serviss,
            serviss_fee,
            res,
        ),
{
    let owner = if let StoredState::Missing(_) = stored {
        None
    } else {
        let state = match stored.into_load_result() {
            Ok(s) => s,
            Err(e) => return Err(ContractError::Std(e)),
        };
        if !may_change(&state, &info.sender) {
            return Err(ContractError::Unauthorized {  });
        }
        state.owner
    };
    let state = State {
        fee,
        from_bank_addr: from.clone(),
        from_bank_fee: from_fee,
        to_bank_addr: to.clone(),
        to_bank_fee: to_fee,
        service_addr: serviss.clone(),
        service_fee: serviss_fee,
        owner,
    };
    let mut response = new_response();
    response.attributes.push(attribute("method", String::from_str("updated config")));
    response.attributes.push(attribute("from_bank_address", from));
    response.attributes.push(attribute("from_bank_percentage", decimal_string(from_fee)));
    response.attributes.push(attribute("to_bank_address", to));
    response.attributes.push(attribute("to_bank_fee_percentage", decimal_string(to_fee)));
    response.attributes.push(attribute("service_fee_address", serviss));
    response.attributes.push(attribute("service_fee", decimal_string(serviss_fee)));
    Ok(Handled { save: Some(state), response })
}

/// Sends the first coin of `info.funds` to `recipient`: the fee goes out in
/// shares to the service and the two banks, the rest to the recipient.
/// `recipient_check` is the host's verdict on the recipient's address.
pub fn execute_transfer(
    stored: Result<State, StdError>,
    info: MessageInfo,
    recipient: String,
    recipient_check: Result<(), StdError>,
) -> (res: Result<Handled, ContractError>)
    requires
        info.funds@.len() > 0,
        transfer_guard(stored, info.funds@[0].amount, recipient_check),
    ensures
        transfer_result(stored, info, recipient, recipient_check, res),
{
    let amount = info.funds[0].amount;
    if amount == 0 {
        return Err(ContractError::InvalidZeroAmount {  });
    }
    let state = match stored {
        Ok(s) => s,
        Err(e) => return Err(ContractError::Std(e)),
    };
    let coin_name = info.funds[0].denom.clone();
    let to = match recipient_check {
        Ok(()) => recipient,
        Err(e) => return Err(ContractError::Std(e)),
    };
    let fee_amount = amount * state.fee / PERCENT_BASE;
    let to_amount = amount - fee_amount;
    let to_transaction = create_transaction(to, to_amount, coin_name.clone());
    let from_bank_amount = fee_amount * state.from_bank_fee / PERCENT_BASE;
    let from_bank_transaction = create_transaction(
        state.from_bank_addr,
        from_bank_amount,
        coin_name.clone(),
    );
    let to_bank_amount = fee_amount * state.to_bank_fee / PERCENT_BASE;
    let to_bank_transaction = create_transaction(
        state.to_bank_addr,
        to_bank_amount,
        coin_name.clone(),
    );
    let service_amount = fee_amount * state.service_fee / PERCENT_BASE;
    let service_transaction = create_transaction(
        state.service_addr,
        service_amount,
        coin_name,
    );
    if fee_amount == 0 && to_amount == 0 {
        return Err(ContractError::InvalidZeroAmount {  });
    }
    let mut response = new_response();
    response.messages.push(service_transaction);
    response.messages.push(from_bank_transaction);
    response.messages.push(to_bank_transaction);
    response.messages.push(to_transaction);
    response.attributes.push(attribute("action", String::from_str("transfer")));
    Ok(Handled { save: None, response })
}

/// A transfer of `amount` of `denom` to `to_address`.
fn create_transaction(to_address: String, amount: u128, denom: String) -> (m: BankSend)
    ensures
        m.to_address == to_address,
        m.amount == amount,
        m.denom == denom,
{
    BankSend { to_address, denom, amount }
}

/// Answers a query from what loading the configuration gave.
pub fn query(stored: Result<State, StdError>, msg: QueryMsg) -> (res: Result<
    QueryResponse,
    StdError,
>)
    ensures
        query_result(stored, msg, res),
{
    match msg {
        QueryMsg::GetCurrentFeeState {  } => match query_fee_state(stored) {
            Ok(r) => Ok(QueryResponse::CurrentFeeState(r)),
            Err(e) => Err(e),
        },
        QueryMsg::GetConfigState {  } => match query_config_state(stored) {
            Ok(r) => Ok(QueryResponse::ConfigState(r)),
            Err(e) => Err(e),
        },
    }
}

/// The current transaction fee.
fn query_fee_state(stored: Result<State, StdError>) -> (res: Result<
    GetCurrentFeeStateResponse,
    StdError,
>)
    ensures
        match stored {
            Err(e) => res == Err::<GetCurrentFeeStateResponse, StdError>(e),
            Ok(s) => res == Ok::<GetCurrentFeeStateResponse, StdError>(
                GetCurrentFeeStateResponse { fee: s.fee },
            ),
        },
{
    let state = match stored {
        Ok(s) => s,
        Err(e) => return Err(e),
    };
    Ok(GetCurrentFeeStateResponse { fee: state.fee })
}

/// The whole stored configuration.
fn query_config_state(stored: Result<State, StdError>) -> (res: Result<
    GetConfigStateResponse,
    StdError,
>)
    ensures
        match stored {
            Err(e) => res == Err::<GetConfigStateResponse, StdError>(e),
            Ok(s) => res == Ok::<GetConfigStateResponse, StdError>(config_response(s)),
        },
{
    let state = match stored {
        Ok(s) => s,
        Err(e) => return Err(e),
    };
    Ok(
        GetConfigStateResponse {
            fee: state.fee,
            from_bank_addr: state.from_bank_addr,
            from_bank_fee: state.from_bank_fee,
            to_bank_addr: state.to_bank_addr,
            to_bank_fee: state.to_bank_fee,
            service_addr: state.service_addr,
            service_fee: state.service_fee,
            owner: state.owner,
        },
    )
}

} // verus!
