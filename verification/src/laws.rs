//! Properties of the contract that span its operations.
use vstd::prelude::*;

use cosmwasm_std::StdError;

use crate::contract::{
    config_update_result, execute_result, fee_amount, fee_update_result, net_amount,
    query_result, share, transfer_in_range, transfer_result, Handled,
};
use crate::error::ContractError;
use crate::msg::{
    initial_state, ExecuteMsg, GetConfigStateResponse,
    GetCurrentFeeStateResponse, InstantiateMsg, MessageInfo, QueryMsg, QueryResponse,
};
use crate::state::{
    authorized, load_result, unowned_config, with_config, with_fee, State, StoredState,
};

verus! {

/// What a query reads right after instantiation is what instantiation wrote:
/// the configuration of the message, owned by the sender.
pub proof fn instantiate_then_query(
    sender: String,
    msg: InstantiateMsg,
    fee_res: Result<QueryResponse, StdError>,
    config_res: Result<QueryResponse, StdError>,
)
    requires
        query_result(Ok(initial_state(sender, msg)), QueryMsg::GetCurrentFeeState {  }, fee_res),
        query_result(Ok(initial_state(sender, msg)), QueryMsg::GetConfigState {  }, config_res),
    ensures
        fee_res == Ok::<QueryResponse, StdError>(
            QueryResponse::CurrentFeeState(GetCurrentFeeStateResponse { fee: msg.fee }),
        ),
        config_res == Ok::<QueryResponse, StdError>(
            QueryResponse::ConfigState(
                GetConfigStateResponse {
                    fee: msg.fee,
                    from_bank_addr: msg.from_bank_addr,
                    from_bank_fee: msg.from_bank_fee,
                    to_bank_addr: msg.to_bank_addr,
                    to_bank_fee: msg.to_bank_fee,
                    service_addr: msg.service_addr,
                    service_fee: msg.service_fee,
                    owner: Some(sender),
                },
            ),
        ),
{
}

/// Once there is an owner, nobody else changes the state: whatever `sender`
/// asks, an update is refused as unauthorized and a transfer stores nothing.
pub proof fn stranger_never_changes_state(
    state: State,
    info: MessageInfo,
    msg: ExecuteMsg,
    recipient_check: Result<(), StdError>,
    res: Result<Handled, ContractError>,
)
    requires
        !authorized(state, info.sender),
        execute_result(StoredState::Present(Ok(state)), info, msg, recipient_check, res),
    ensures
        !(msg is Transfer) ==> res == Err::<Handled, ContractError>(
            ContractError::Unauthorized {  },
        ),
        res is Ok ==> res->Ok_0.save is None,
{
}

/// An accepted update was sent by the owner, or there was no owner.
pub proof fn accepted_update_was_authorized(
    state: State,
    sender: String,
    fee: u128,
    from: String,
    from_fee: u128,
    to: String,
    to_fee: u128,
    service: String,
    service_fee: u128,
    fee_res: Result<Handled, ContractError>,
    config_res: Result<Handled, ContractError>,
)
    requires
        fee_update_result(Ok(state), sender, fee, fee_res),
        config_update_result(
            StoredState::Present(Ok(state)),
            sender,
            fee,
            from,
            from_fee,
            to,
            to_fee,
            service,
            service_fee,
            config_res,
        ),
    ensures
        fee_res is Ok ==> authorized(state, sender),
        config_res is Ok ==> authorized(state, sender),
{
}

/// After an accepted fee update, the fee query reads the new fee, and
/// nothing else of the state changed.
pub proof fn fee_update_then_query(
    state: State,
    sender: String,
    fee: u128,
    res: Result<Handled, ContractError>,
    answer: Result<QueryResponse, StdError>,
)
    requires
        fee_update_result(Ok(state), sender, fee, res),
        res is Ok,
        res->Ok_0.save is Some,
        query_result(Ok(res->Ok_0.save->Some_0), QueryMsg::GetCurrentFeeState {  }, answer),
    ensures
        res->Ok_0.save->Some_0 == (State { fee, ..state }),
        answer == Ok::<QueryResponse, StdError>(
            QueryResponse::CurrentFeeState(GetCurrentFeeStateResponse { fee }),
        ),
{
}

/// After an accepted configuration update, the configuration query reads
/// back the new configuration, with the owner that was there before.
pub proof fn config_update_then_query(
    state: State,
    sender: String,
    fee: u128,
    from: String,
    from_fee: u128,
    to: String,
    to_fee: u128,
    service: String,
    service_fee: u128,
    res: Result<Handled, ContractError>,
    answer: Result<QueryResponse, StdError>,
)
    requires
        config_update_result(
            StoredState::Present(Ok(state)),
            sender,
            fee,
            from,
            from_fee,
            to,
            to_fee,
            service,
            service_fee,
            res,
        ),
        res is Ok,
        res->Ok_0.save is Some,
        query_result(Ok(res->Ok_0.save->Some_0), QueryMsg::GetConfigState {  }, answer),
    ensures
        answer == Ok::<QueryResponse, StdError>(
            QueryResponse::ConfigState(
                GetConfigStateResponse {
                    fee,
                    from_bank_addr: from,
                    from_bank_fee: from_fee,
                    to_bank_addr: to,
                    to_bank_fee: to_fee,
                    service_addr: service,
                    service_fee,
                    owner: state.owner,
                },
            ),
        ),
{
}

/// With nothing stored, a fee update is refused with the error that loading
/// gave, and nothing is written.
pub proof fn fee_update_needs_configuration(
    missing: StdError,
    sender: String,
    fee: u128,
    res: Result<Handled, ContractError>,
)
    requires
        fee_update_result(load_result(StoredState::Missing(missing)), sender, fee, res),
    ensures
        res == Err::<Handled, ContractError>(ContractError::Std(missing)),
{
}

/// Before instantiation, a configuration update by anyone is accepted and
/// writes a configuration without an owner; after it anyone may change the
/// fee, and the fee query reads the latest fee.
pub proof fn configure_before_instantiation(
    missing: StdError,
    first: String,
    second: String,
    fee: u128,
    from: String,
    from_fee: u128,
    to: String,
    to_fee: u128,
    service: String,
    service_fee: u128,
    new_fee: u128,
    config_res: Result<Handled, ContractError>,
    fee_res: Result<Handled, ContractError>,
    answer: Result<QueryResponse, StdError>,
)
    requires
        config_update_result(
            StoredState::Missing(missing),
            first,
            fee,
            from,
            from_fee,
            to,
            to_fee,
            service,
            service_fee,
            config_res,
        ),
        config_res is Ok ==> config_res->Ok_0.save is Some && fee_update_result(
            Ok(config_res->Ok_0.save->Some_0),
            second,
            new_fee,
            fee_res,
        ),
        fee_res is Ok && fee_res->Ok_0.save is Some ==> query_result(
            Ok(fee_res->Ok_0.save->Some_0),
            QueryMsg::GetCurrentFeeState {  },
            answer,
        ),
    ensures
        config_res is Ok,
        config_res->Ok_0.save == Some(
            unowned_config(fee, from, from_fee, to, to_fee, service, service_fee),
        ),
        fee_res is Ok,
        fee_res->Ok_0.save is Some,
        answer == Ok::<QueryResponse, StdError>(
            QueryResponse::CurrentFeeState(GetCurrentFeeStateResponse { fee: new_fee }),
        ),
{
}

/// Of two fee updates, the later one wins.
pub proof fn later_fee_update_wins(state: State, first: u128, second: u128)
    ensures
        with_fee(with_fee(state, first), second) == with_fee(state, second),
{
}

/// A configuration update replaces every earlier update of the fee.
pub proof fn config_update_overrides_fee_update(
    state: State,
    first: u128,
    fee: u128,
    from: String,
    from_fee: u128,
    to: String,
    to_fee: u128,
    service: String,
    service_fee: u128,
)
    ensures
        with_config(with_fee(state, first), fee, from, from_fee, to, to_fee, service, service_fee)
            == with_config(state, fee, from, from_fee, to, to_fee, service, service_fee),
{
}

/// The recipient's part and the fee add up to the amount sent.
pub proof fn transfer_conserves_amount(amount: u128, fee: u128)
    ensures
        net_amount(amount, fee) + fee_amount(amount, fee) == amount,
{
}

/// With a fee of at most one hundred percent, the fee never exceeds the
/// amount sent, so the recipient's part is never negative.
pub proof fn fee_within_amount(amount: u128, fee: u128)
    requires
        fee <= 100,
    ensures
        0 <= fee_amount(amount, fee) <= amount,
        0 <= net_amount(amount, fee) <= amount,
{
    assert(0 <= amount * fee <= amount * 100) by (nonlinear_arith)
        requires
            fee <= 100,
    ;
}

/// When the three shares add up to at most one hundred percent, together
/// they never exceed the fee they are taken from.
pub proof fn shares_within_fee(collected: int, p1: u128, p2: u128, p3: u128)
    requires
        collected >= 0,
        p1 + p2 + p3 <= 100,
    ensures
        share(collected, p1) + share(collected, p2) + share(collected, p3) <= collected,
        share(collected, p1) >= 0,
        share(collected, p2) >= 0,
        share(collected, p3) >= 0,
{
    share_scaled(collected, p1);
    share_scaled(collected, p2);
    share_scaled(collected, p3);
    assert(collected * p1 + collected * p2 + collected * p3 <= collected * 100) by (
    nonlinear_arith)
        requires
            collected >= 0,
            p1 + p2 + p3 <= 100,
    ;
}

proof fn share_scaled(collected: int, p: u128)
    requires
        collected >= 0,
    ensures
        0 <= share(collected, p),
        100 * share(collected, p) <= collected * p,
{
    assert(collected * p >= 0) by (nonlinear_arith)
        requires
            collected >= 0,
    ;
    let q = (collected * p) / 100;
    assert(100 * q <= collected * p) by (nonlinear_arith)
        requires
            q == (collected * p) / 100,
            collected * p >= 0,
    ;
}

/// Percentages keep a transfer in range: with a fee and shares of at most one
/// hundred percent each, a transfer computes without overflow as soon as
/// `amount * fee` fits.
pub proof fn percentages_keep_transfer_in_range(state: State, amount: u128)
    requires
        state.fee <= 100,
        state.from_bank_fee <= 100,
        state.to_bank_fee <= 100,
        state.service_fee <= 100,
        amount * state.fee <= u128::MAX,
    ensures
        transfer_in_range(state, amount),
{
    fee_within_amount(amount, state.fee);
    let c = fee_amount(amount, state.fee);
    assert(100 * c <= amount * state.fee) by (nonlinear_arith)
        requires
            c == (amount * state.fee) / 100,
            amount * state.fee >= 0,
    ;
    assert(c * state.from_bank_fee <= c * 100) by (nonlinear_arith)
        requires
            c >= 0,
            state.from_bank_fee <= 100,
    ;
    assert(c * state.to_bank_fee <= c * 100) by (nonlinear_arith)
        requires
            c >= 0,
            state.to_bank_fee <= 100,
    ;
    assert(c * state.service_fee <= c * 100) by (nonlinear_arith)
        requires
            c >= 0,
            state.service_fee <= 100,
    ;
}

/// A transfer never pays out more than it received, as long as the three
/// shares of the fee add up to at most one hundred percent; the recipient's
/// part and the fee add up to exactly what was sent; and the stored state
/// stays as it was.
pub proof fn transfer_pays_out_at_most_amount(
    stored: Result<State, StdError>,
    info: MessageInfo,
    recipient: String,
    recipient_check: Result<(), StdError>,
    res: Result<Handled, ContractError>,
)
    requires
        info.funds@.len() > 0,
        transfer_result(stored, info, recipient, recipient_check, res),
        res is Ok,
        stored is Ok ==> transfer_in_range(stored->Ok_0, info.funds@[0].amount),
        stored is Ok ==> stored->Ok_0.from_bank_fee + stored->Ok_0.to_bank_fee
            + stored->Ok_0.service_fee <= 100,
    ensures
        stored is Ok,
        res->Ok_0.save is None,
        res->Ok_0.response.messages@.len() == 4,
        res->Ok_0.response.messages@[3].amount + fee_amount(
            info.funds@[0].amount,
            stored->Ok_0.fee,
        ) == info.funds@[0].amount,
        res->Ok_0.response.messages@[0].amount + res->Ok_0.response.messages@[1].amount
            + res->Ok_0.response.messages@[2].amount + res->Ok_0.response.messages@[3].amount
            <= info.funds@[0].amount,
{
    let s = stored->Ok_0;
    let amount = info.funds@[0].amount;
    let c = fee_amount(amount, s.fee);
    assert(c >= 0) by (nonlinear_arith)
        requires
            c == (amount * s.fee) / 100,
    ;
    shares_within_fee(c, s.service_fee, s.from_bank_fee, s.to_bank_fee);
}

/// Who sends a transfer does not matter: the answer admitted for a transfer
/// is the same whoever the sender is.
pub proof fn transfer_ignores_sender(
    stored: Result<State, StdError>,
    info: MessageInfo,
    other: MessageInfo,
    recipient: String,
    recipient_check: Result<(), StdError>,
    res: Result<Handled, ContractError>,
)
    requires
        other.funds == info.funds,
    ensures
        transfer_result(stored, info, recipient, recipient_check, res) <==> transfer_result(
            stored,
            other,
            recipient,
            recipient_check,
            res,
        ),
{
}

/// Only the first coin of a transfer counts: coins after it are neither
/// checked nor sent.
pub proof fn transfer_reads_first_coin_only(
    stored: Result<State, StdError>,
    info: MessageInfo,
    other: MessageInfo,
    recipient: String,
    recipient_check: Result<(), StdError>,
    res: Result<Handled, ContractError>,
)
    requires
        info.funds@.len() > 0,
        other.funds@.len() > 0,
        other.funds@[0] == info.funds@[0],
    ensures
        transfer_result(stored, info, recipient, recipient_check, res) <==> transfer_result(
            stored,
            other,
            recipient,
            recipient_check,
            res,
        ),
{
}

/// A transfer is refused as empty exactly when it carries no funds; the
/// second emptiness check of a transfer never fires.
pub proof fn empty_transfer_refused(
    stored: Result<State, StdError>,
    info: MessageInfo,
    recipient: String,
    recipient_check: Result<(), StdError>,
    res: Result<Handled, ContractError>,
)
    requires
        info.funds@.len() > 0,
        transfer_result(stored, info, recipient, recipient_check, res),
    ensures
        (res == Err::<Handled, ContractError>(ContractError::InvalidZeroAmount {  }))
            <==> info.funds@[0].amount == 0,
{
}

/// Once there is an owner, an update is accepted exactly when its sender's
/// address is the owner's: every other address is refused as unauthorized,
/// for the fee and for the whole configuration alike.
pub proof fn updates_accepted_exactly_from_owner_address(
    state: State,
    owner: String,
    sender: String,
    fee: u128,
    from: String,
    from_fee: u128,
    to: String,
    to_fee: u128,
    service: String,
    service_fee: u128,
    fee_res: Result<Handled, ContractError>,
    config_res: Result<Handled, ContractError>,
)
    requires
        state.owner == Some(owner),
        fee_update_result(Ok(state), sender, fee, fee_res),
        config_update_result(
            StoredState::Present(Ok(state)),
            sender,
            fee,
            from,
            from_fee,
            to,
            to_fee,
            service,
            service_fee,
            config_res,
        ),
    ensures
        sender@ != owner@ ==> fee_res == Err::<Handled, ContractError>(
            ContractError::Unauthorized {  },
        ),
        sender@ != owner@ ==> config_res == Err::<Handled, ContractError>(
            ContractError::Unauthorized {  },
        ),
        sender@ == owner@ ==> fee_res is Ok && fee_res->Ok_0.save is Some
            && fee_res->Ok_0.save->Some_0.fee == fee && fee_res->Ok_0.save->Some_0.owner == Some(
            owner,
        ),
        sender@ == owner@ ==> config_res is Ok && config_res->Ok_0.save is Some
            && config_res->Ok_0.save->Some_0.owner == Some(owner),
        fee_res is Ok ==> sender@ == owner@,
        config_res is Ok ==> sender@ == owner@,
{
}

/// Dividing a non-negative number by one hundred rounds down.
proof fn hundredth_rounds_down(x: int)
    requires
        x >= 0,
    ensures
        100 * (x / 100) <= x < 100 * (x / 100) + 100,
{
}

/// The amounts of an accepted transfer are its percentages rounded down.
/// With `amount` the first coin sent and `collected` what the recipient does
/// not get: `collected` is `amount * fee / 100` rounded down, and each party
/// gets its percentage of `collected`, rounded down.
pub proof fn transfer_amounts_are_rounded_percentages(
    stored: Result<State, StdError>,
    info: MessageInfo,
    recipient: String,
    recipient_check: Result<(), StdError>,
    res: Result<Handled, ContractError>,
)
    requires
        info.funds@.len() > 0,
        transfer_result(stored, info, recipient, recipient_check, res),
        res is Ok,
    ensures
        stored is Ok,
        res->Ok_0.response.messages@.len() == 4,
        0 <= info.funds@[0].amount - res->Ok_0.response.messages@[3].amount,
        100 * (info.funds@[0].amount - res->Ok_0.response.messages@[3].amount)
            <= info.funds@[0].amount * stored->Ok_0.fee,
        info.funds@[0].amount * stored->Ok_0.fee < 100 * (info.funds@[0].amount
            - res->Ok_0.response.messages@[3].amount + 1),
        100 * res->Ok_0.response.messages@[0].amount <= (info.funds@[0].amount
            - res->Ok_0.response.messages@[3].amount) * stored->Ok_0.service_fee,
        (info.funds@[0].amount - res->Ok_0.response.messages@[3].amount)
            * stored->Ok_0.service_fee < 100 * (res->Ok_0.response.messages@[0].amount + 1),
        100 * res->Ok_0.response.messages@[1].amount <= (info.funds@[0].amount
            - res->Ok_0.response.messages@[3].amount) * stored->Ok_0.from_bank_fee,
        (info.funds@[0].amount - res->Ok_0.response.messages@[3].amount)
            * stored->Ok_0.from_bank_fee < 100 * (res->Ok_0.response.messages@[1].amount + 1),
        100 * res->Ok_0.response.messages@[2].amount <= (info.funds@[0].amount
            - res->Ok_0.response.messages@[3].amount) * stored->Ok_0.to_bank_fee,
        (info.funds@[0].amount - res->Ok_0.response.messages@[3].amount)
            * stored->Ok_0.to_bank_fee < 100 * (res->Ok_0.response.messages@[2].amount + 1),
{
    let s = stored->Ok_0;
    let a = info.funds@[0].amount;
    let c = fee_amount(a, s.fee);
    assert(a * s.fee >= 0) by (nonlinear_arith);
    hundredth_rounds_down(a * s.fee);
    assert(c >= 0);
    assert(c * s.service_fee >= 0) by (nonlinear_arith)
        requires
            c >= 0,
    ;
    assert(c * s.from_bank_fee >= 0) by (nonlinear_arith)
        requires
            c >= 0,
    ;
    assert(c * s.to_bank_fee >= 0) by (nonlinear_arith)
        requires
            c >= 0,
    ;
    hundredth_rounds_down(c * s.service_fee);
    hundredth_rounds_down(c * s.from_bank_fee);
    hundredth_rounds_down(c * s.to_bank_fee);
}

/// When the three percentages add up to one hundred, the parties together get
/// the whole collected fee but for less than three units lost to rounding.
pub proof fn full_split_loses_less_than_three_units(
    stored: Result<State, StdError>,
    info: MessageInfo,
    recipient: String,
    recipient_check: Result<(), StdError>,
    res: Result<Handled, ContractError>,
)
    requires
        info.funds@.len() > 0,
        transfer_result(stored, info, recipient, recipient_check, res),
        res is Ok,
        stored is Ok ==> stored->Ok_0.service_fee + stored->Ok_0.from_bank_fee
            + stored->Ok_0.to_bank_fee == 100,
    ensures
        res->Ok_0.response.messages@[0].amount + res->Ok_0.response.messages@[1].amount
            + res->Ok_0.response.messages@[2].amount <= info.funds@[0].amount
            - res->Ok_0.response.messages@[3].amount,
        info.funds@[0].amount - res->Ok_0.response.messages@[3].amount - 3
            < res->Ok_0.response.messages@[0].amount + res->Ok_0.response.messages@[1].amount
            + res->Ok_0.response.messages@[2].amount,
{
    transfer_amounts_are_rounded_percentages(stored, info, recipient, recipient_check, res);
    let s = stored->Ok_0;
    let c = info.funds@[0].amount - res->Ok_0.response.messages@[3].amount;
    assert(c * s.service_fee + c * s.from_bank_fee + c * s.to_bank_fee == c * 100) by (
    nonlinear_arith)
        requires
            s.service_fee + s.from_bank_fee + s.to_bank_fee == 100,
    ;
}

/// A larger transfer under the same configuration never collects a smaller
/// fee, and a transfer collects something as soon as `amount * fee`
/// reaches one hundred.
pub proof fn collected_fee_grows_with_amount(
    state: State,
    small: MessageInfo,
    large: MessageInfo,
    recipient: String,
    small_res: Result<Handled, ContractError>,
    large_res: Result<Handled, ContractError>,
)
    requires
        small.funds@.len() > 0,
        large.funds@.len() > 0,
        small.funds@[0].amount <= large.funds@[0].amount,
        transfer_result(Ok(state), small, recipient, Ok(()), small_res),
        transfer_result(Ok(state), large, recipient, Ok(()), large_res),
        small_res is Ok,
        large_res is Ok,
    ensures
        small.funds@[0].amount - small_res->Ok_0.response.messages@[3].amount
            <= large.funds@[0].amount - large_res->Ok_0.response.messages@[3].amount,
        small.funds@[0].amount * state.fee >= 100 ==> small.funds@[0].amount
            - small_res->Ok_0.response.messages@[3].amount >= 1,
{
    transfer_amounts_are_rounded_percentages(Ok(state), small, recipient, Ok(()), small_res);
    transfer_amounts_are_rounded_percentages(Ok(state), large, recipient, Ok(()), large_res);
    let a1 = small.funds@[0].amount;
    let a2 = large.funds@[0].amount;
    assert(a1 * state.fee <= a2 * state.fee) by (nonlinear_arith)
        requires
            a1 <= a2,
    ;
}

/// An accepted transfer pays the service, the sending bank and the receiving
/// bank named in the stored configuration, in that order, then the recipient
/// named in the message, all in the token that was sent.
pub proof fn transfer_pays_the_named_parties(
    stored: Result<State, StdError>,
    info: MessageInfo,
    recipient: String,
    recipient_check: Result<(), StdError>,
    res: Result<Handled, ContractError>,
)
    requires
        info.funds@.len() > 0,
        transfer_result(stored, info, recipient, recipient_check, res),
        res is Ok,
    ensures
        stored is Ok,
        recipient_check is Ok,
        info.funds@[0].amount != 0,
        res->Ok_0.response.messages@.len() == 4,
        res->Ok_0.response.messages@[0].to_address@ == stored->Ok_0.service_addr@,
        res->Ok_0.response.messages@[1].to_address@ == stored->Ok_0.from_bank_addr@,
        res->Ok_0.response.messages@[2].to_address@ == stored->Ok_0.to_bank_addr@,
        res->Ok_0.response.messages@[3].to_address@ == recipient@,
        forall|i: int|
            0 <= i < 4 ==> #[trigger] res->Ok_0.response.messages@[i].denom@
                == info.funds@[0].denom@,
{
}

/// An accepted configuration update stores exactly the configuration it
/// carries and keeps the owner; an accepted fee update stores the new fee and
/// keeps everything else.
pub proof fn accepted_updates_store_what_they_carry(
    state: State,
    sender: String,
    fee: u128,
    from: String,
    from_fee: u128,
    to: String,
    to_fee: u128,
    service: String,
    service_fee: u128,
    fee_res: Result<Handled, ContractError>,
    config_res: Result<Handled, ContractError>,
)
    requires
        fee_update_result(Ok(state), sender, fee, fee_res),
        config_update_result(
            StoredState::Present(Ok(state)),
            sender,
            fee,
            from,
            from_fee,
            to,
            to_fee,
            service,
            service_fee,
            config_res,
        ),
    ensures
        fee_res is Ok ==> fee_res->Ok_0.save == Some(State { fee, ..state }),
        config_res is Ok ==> config_res->Ok_0.save == Some(
            State {
                fee,
                from_bank_addr: from,
                from_bank_fee: from_fee,
                to_bank_addr: to,
                to_bank_fee: to_fee,
                service_addr: service,
                service_fee,
                owner: state.owner,
            },
        ),
{
}

} // verus!
