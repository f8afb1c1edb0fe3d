use cosmwasm_std::StdError;
use smart_contract_pro::contract::{
    execute, execute_transfer, instantiate, query, transfer_fits, try_update_config,
    try_update_transaction_fee, Handled,
};
use smart_contract_pro::error::ContractError;
use smart_contract_pro::msg::{
    Coin, ExecuteMsg, GetConfigStateResponse, InstantiateMsg, MessageInfo, QueryMsg, QueryResponse,
};
use smart_contract_pro::response::{Attribute, BankSend};
use smart_contract_pro::state::{State, StoredState};

const FROM_BANK: &str = "from_bank";
const TO_BANK: &str = "to_bank";
const SERVICE_ADDR: &str = "service_addr";
const ADMIN: &str = "ADMIN";
const NATIVE_DENOM: &str = "stake";

fn coins(amount: u128, denom: &str) -> Vec<Coin> {
    vec![Coin { denom: denom.to_string(), amount }]
}

fn mock_info(sender: &str, funds: &[Coin]) -> MessageInfo {
    MessageInfo { sender: sender.to_string(), funds: funds.to_vec() }
}

fn instantiate_msg(fee: u128, from_fee: u128, to_fee: u128, service_fee: u128) -> InstantiateMsg {
    InstantiateMsg {
        fee,
        from_bank_addr: FROM_BANK.to_string(),
        from_bank_fee: from_fee,
        to_bank_addr: TO_BANK.to_string(),
        to_bank_fee: to_fee,
        service_addr: SERVICE_ADDR.to_string(),
        service_fee,
    }
}

/// Storage as the host keeps it: what was last saved, if anything.
struct Storage(Option<State>);

impl Storage {
    fn load(&self) -> Result<State, StdError> {
        match &self.0 {
            Some(s) => Ok(s.clone()),
            None => Err(StdError::not_found("state")),
        }
    }

    fn stored(&self) -> StoredState {
        match &self.0 {
            Some(s) => StoredState::Present(Ok(s.clone())),
            None => StoredState::Missing(StdError::not_found("state")),
        }
    }

    fn apply(&mut self, handled: &Handled) {
        if let Some(s) = &handled.save {
            self.0 = Some(s.clone());
        }
    }
}

fn attr(key: &str, value: &str) -> Attribute {
    Attribute { key: key.to_string(), value: value.to_string() }
}

fn send(to: &str, amount: u128, denom: &str) -> BankSend {
    BankSend { to_address: to.to_string(), denom: denom.to_string(), amount }
}

fn accepted() -> Result<(), StdError> {
    Ok(())
}

fn fee_of(res: Result<QueryResponse, StdError>) -> u128 {
    match res.unwrap() {
        QueryResponse::CurrentFeeState(v) => v.fee,
        other => panic!("unexpected answer {:?}", other),
    }
}

fn config_of(res: Result<QueryResponse, StdError>) -> GetConfigStateResponse {
    match res.unwrap() {
        QueryResponse::ConfigState(v) => v,
        other => panic!("unexpected answer {:?}", other),
    }
}

fn instantiated(fee: u128, from_fee: u128, to_fee: u128, service_fee: u128) -> Storage {
    let mut storage = Storage(None);
    let handled = instantiate(mock_info(ADMIN, &coins(2, NATIVE_DENOM)), instantiate_msg(fee, from_fee, to_fee, service_fee));
    storage.apply(&handled);
    storage
}

#[test]
fn proper_initialization() {
    let mut storage = Storage(None);
    let msg = instantiate_msg(1u128, 20u128, 40u128, 40u128);
    let info = mock_info(ADMIN, &coins(1000, "stake"));

    let res = instantiate(info, msg);
    assert_eq!(0, res.response.messages.len());
    storage.apply(&res);

    let res = query(storage.load(), QueryMsg::GetCurrentFeeState {});
    assert_eq!(1u128, fee_of(res));
}

#[test]
fn reset() {
    let mut storage = Storage(None);
    let msg = instantiate_msg(10u128, 30u128, 35u128, 35u128);
    let info = mock_info(ADMIN, &coins(2, "token"));
    let res = instantiate(info, msg);
    storage.apply(&res);

    let unauth_info = mock_info("anyone", &coins(2, "token"));
    let msg = ExecuteMsg::UpdateConfig {
        fee: 10u128,
        from_bank_addr: FROM_BANK.to_string(),
        from_bank_fee: 30u128,
        to_bank_addr: TO_BANK.to_string(),
        to_bank_fee: 35u128,
        service_addr: SERVICE_ADDR.to_string(),
        service_fee: 35u128,
    };
    let res = execute(storage.stored(), unauth_info, msg, accepted());
    match res {
        Err(ContractError::Unauthorized {}) => {}
        _ => panic!("Must return unauthorized error"),
    }

    let value = config_of(query(storage.load(), QueryMsg::GetConfigState {}));
    assert_eq!(FROM_BANK.to_string(), value.from_bank_addr);
}

#[test]
fn update_fee() {
    let mut storage = instantiated(1u128, 20u128, 40u128, 40u128);
    let msg = ExecuteMsg::UpdateOnlyFee { fee: 7u128 };
    let res = execute(storage.stored(), mock_info(ADMIN, &[]), msg, accepted()).unwrap();
    storage.apply(&res);
}

#[test]
fn instantiate_records_configuration_and_owner() {
    let handled = instantiate(mock_info("creator", &coins(5, "x")), instantiate_msg(12, 30, 35, 35));
    let state = handled.save.clone().unwrap();
    assert_eq!(state.fee, 12);
    assert_eq!(state.owner, Some("creator".to_string()));
    assert_eq!(state.from_bank_addr, FROM_BANK);
    assert_eq!(state.from_bank_fee, 30);
    assert_eq!(state.to_bank_addr, TO_BANK);
    assert_eq!(state.to_bank_fee, 35);
    assert_eq!(state.service_addr, SERVICE_ADDR);
    assert_eq!(state.service_fee, 35);
    assert_eq!(
        handled.response.attributes,
        vec![attr("method", "instantiate"), attr("owner", "creator"), attr("fee", "12")]
    );
}

#[test]
fn instantiate_then_query_config_reads_back() {
    let storage = instantiated(9, 10, 20, 30);
    let value = config_of(query(storage.load(), QueryMsg::GetConfigState {}));
    assert_eq!(
        value,
        GetConfigStateResponse {
            fee: 9,
            from_bank_addr: FROM_BANK.to_string(),
            from_bank_fee: 10,
            to_bank_addr: TO_BANK.to_string(),
            to_bank_fee: 20,
            service_addr: SERVICE_ADDR.to_string(),
            service_fee: 30,
            owner: Some(ADMIN.to_string()),
        }
    );
}

#[test]
fn query_before_instantiation_fails_with_storage_error() {
    let storage = Storage(None);
    let res = query(storage.load(), QueryMsg::GetCurrentFeeState {});
    assert!(matches!(res, Err(StdError::NotFound { .. })));
    let res = query(storage.load(), QueryMsg::GetConfigState {});
    assert!(matches!(res, Err(StdError::NotFound { .. })));
}

#[test]
fn owner_updates_fee_and_query_reads_it() {
    let mut storage = instantiated(1, 20, 40, 40);
    let before = storage.load().unwrap();
    let handled = try_update_transaction_fee(storage.load(), mock_info(ADMIN, &[]), 24).unwrap();
    assert!(handled.response.messages.is_empty());
    assert_eq!(
        handled.response.attributes,
        vec![attr("method", "update_transaction_fee"), attr("new_transaction_fee", "24")]
    );
    storage.apply(&handled);
    assert_eq!(fee_of(query(storage.load(), QueryMsg::GetCurrentFeeState {})), 24);
    let after = storage.load().unwrap();
    assert_eq!(after, State { fee: 24, ..before });
}

#[test]
fn stranger_cannot_update_fee() {
    let storage = instantiated(1, 20, 40, 40);
    let res = try_update_transaction_fee(storage.load(), mock_info("anyone", &[]), 24);
    assert!(matches!(res, Err(ContractError::Unauthorized {})));
    assert_eq!(fee_of(query(storage.load(), QueryMsg::GetCurrentFeeState {})), 1);
}

#[test]
fn update_config() {
    let mut storage = Storage(None);

    let msg = ExecuteMsg::UpdateConfig {
        fee: 10u128,
        from_bank_addr: FROM_BANK.to_string(),
        from_bank_fee: 30u128,
        to_bank_addr: TO_BANK.to_string(),
        to_bank_fee: 35u128,
        service_addr: SERVICE_ADDR.to_string(),
        service_fee: 35u128,
    };
    let info = mock_info(ADMIN, &coins(2, NATIVE_DENOM));
    let res = execute(storage.stored(), info, msg, accepted()).unwrap();
    storage.apply(&res);

    // beneficiary can release it
    let info = mock_info("anyone", &coins(2, "stake"));
    let msg = ExecuteMsg::UpdateOnlyFee { fee: 24u128 };
    let res = execute(storage.stored(), info, msg, accepted()).unwrap();
    storage.apply(&res);

    // should increase counter by 1
    let res = query(storage.load(), QueryMsg::GetCurrentFeeState {});
    assert_eq!(24u128, fee_of(res));
}

#[test]
fn configuration_before_instantiation_has_no_owner() {
    let mut storage = Storage(None);
    let handled = try_update_config(
        storage.stored(),
        mock_info(ADMIN, &[]),
        10,
        "bank_a".to_string(),
        30,
        "bank_b".to_string(),
        35,
        "svc".to_string(),
        35,
    )
    .unwrap();
    assert_eq!(handled.response.attributes.len(), 7);
    storage.apply(&handled);
    let value = config_of(query(storage.load(), QueryMsg::GetConfigState {}));
    assert_eq!(value.owner, None);
    assert_eq!(value.from_bank_addr, "bank_a");
    // anyone may still reconfigure it
    let handled = try_update_config(
        storage.stored(),
        mock_info("anyone", &[]),
        11,
        "x".to_string(),
        1,
        "y".to_string(),
        2,
        "z".to_string(),
        3,
    )
    .unwrap();
    storage.apply(&handled);
    let value = config_of(query(storage.load(), QueryMsg::GetConfigState {}));
    assert_eq!(value.fee, 11);
    assert_eq!(value.owner, None);
}

#[test]
fn fee_update_before_instantiation_is_refused() {
    let storage = Storage(None);
    let res = try_update_transaction_fee(storage.load(), mock_info(ADMIN, &[]), 5);
    assert!(matches!(res, Err(ContractError::Std(StdError::NotFound { .. }))));
    let res = execute(storage.stored(), mock_info("anyone", &[]), ExecuteMsg::UpdateOnlyFee { fee: 5 }, accepted());
    assert!(matches!(res, Err(ContractError::Std(StdError::NotFound { .. }))));
}

#[test]
fn update_with_unreadable_state_reports_storage_error() {
    let broken: Result<State, StdError> = Err(StdError::parse_err("State", "bad json"));
    let res = try_update_transaction_fee(broken, mock_info(ADMIN, &[]), 24);
    assert!(matches!(res, Err(ContractError::Std(StdError::ParseErr { .. }))));
    let broken: Result<State, StdError> = Err(StdError::parse_err("State", "bad json"));
    let res = execute(
        StoredState::Present(broken),
        mock_info(ADMIN, &[]),
        ExecuteMsg::UpdateConfig {
            fee: 1,
            from_bank_addr: "a".to_string(),
            from_bank_fee: 1,
            to_bank_addr: "b".to_string(),
            to_bank_fee: 1,
            service_addr: "c".to_string(),
            service_fee: 1,
        },
        accepted(),
    );
    assert!(matches!(res, Err(ContractError::Std(StdError::ParseErr { .. }))));
}

#[test]
fn transfer_ignores_sender_and_later_coins() {
    let storage = instantiated(10, 40, 40, 20);
    let a = execute_transfer(storage.load(), mock_info("alice", &coins(200, "u")), "bob".to_string(), accepted()).unwrap();
    let mut funds = coins(200, "u");
    funds.push(Coin { denom: "v".to_string(), amount: 7 });
    let b = execute_transfer(storage.load(), mock_info(ADMIN, &funds), "bob".to_string(), accepted()).unwrap();
    assert_eq!(a, b);
}

#[test]
fn owner_updates_config_and_keeps_ownership() {
    let mut storage = instantiated(1, 20, 40, 40);
    let handled = try_update_config(
        storage.stored(),
        mock_info(ADMIN, &[]),
        20,
        "bank_a".to_string(),
        45,
        "bank_b".to_string(),
        45,
        "svc".to_string(),
        10,
    )
    .unwrap();
    assert!(handled.response.messages.is_empty());
    assert_eq!(
        handled.response.attributes,
        vec![
            attr("method", "updated config"),
            attr("from_bank_address", "bank_a"),
            attr("from_bank_percentage", "45"),
            attr("to_bank_address", "bank_b"),
            attr("to_bank_fee_percentage", "45"),
            attr("service_fee_address", "svc"),
            attr("service_fee", "10"),
        ]
    );
    storage.apply(&handled);
    let value = config_of(query(storage.load(), QueryMsg::GetConfigState {}));
    assert_eq!(
        value,
        GetConfigStateResponse {
            fee: 20,
            from_bank_addr: "bank_a".to_string(),
            from_bank_fee: 45,
            to_bank_addr: "bank_b".to_string(),
            to_bank_fee: 45,
            service_addr: "svc".to_string(),
            service_fee: 10,
            owner: Some(ADMIN.to_string()),
        }
    );
}

#[test]
fn stranger_cannot_update_config() {
    let storage = instantiated(1, 20, 40, 40);
    let res = try_update_config(
        storage.stored(),
        mock_info("anyone", &[]),
        20,
        "bank_a".to_string(),
        45,
        "bank_b".to_string(),
        45,
        "svc".to_string(),
        10,
    );
    assert!(matches!(res, Err(ContractError::Unauthorized {})));
}

#[test]
fn transfer_splits_the_fee() {
    let storage = instantiated(10, 40, 40, 20);
    let handled =
        execute_transfer(storage.load(), mock_info("alice", &coins(200, NATIVE_DENOM)), "bob".to_string(), accepted())
            .unwrap();
    assert!(handled.save.is_none());
    assert_eq!(
        handled.response.messages,
        vec![
            send(SERVICE_ADDR, 4, NATIVE_DENOM),
            send(FROM_BANK, 8, NATIVE_DENOM),
            send(TO_BANK, 8, NATIVE_DENOM),
            send("bob", 180, NATIVE_DENOM),
        ]
    );
    assert_eq!(handled.response.attributes, vec![attr("action", "transfer")]);
}

#[test]
fn transfer_rounds_each_part_down() {
    let storage = instantiated(10, 30, 35, 35);
    let handled = execute(
        storage.stored(),
        mock_info("alice", &coins(199, "uatom")),
        ExecuteMsg::Transfer { to: "bob".to_string() },
        accepted(),
    )
    .unwrap();
    // fee: 199 * 10 / 100 = 19; shares: 19 * 35 / 100 = 6, 19 * 30 / 100 = 5
    assert_eq!(
        handled.response.messages,
        vec![
            send(SERVICE_ADDR, 6, "uatom"),
            send(FROM_BANK, 5, "uatom"),
            send(TO_BANK, 6, "uatom"),
            send("bob", 180, "uatom"),
        ]
    );
}

#[test]
fn transfer_of_nothing_is_refused() {
    let storage = instantiated(10, 40, 40, 20);
    let res = execute_transfer(storage.load(), mock_info("alice", &coins(0, NATIVE_DENOM)), "bob".to_string(), accepted());
    assert!(matches!(res, Err(ContractError::InvalidZeroAmount {})));
    // the emptiness check comes before the state is read
    let res = execute_transfer(Storage(None).load(), mock_info("alice", &coins(0, NATIVE_DENOM)), "bob".to_string(), accepted());
    assert!(matches!(res, Err(ContractError::InvalidZeroAmount {})));
}

#[test]
fn transfer_with_refused_recipient_fails() {
    let storage = instantiated(10, 40, 40, 20);
    let res = execute_transfer(
        storage.load(),
        mock_info("alice", &coins(100, NATIVE_DENOM)),
        "b".to_string(),
        Err(StdError::generic_err("Invalid input: human address too short")),
    );
    assert!(matches!(res, Err(ContractError::Std(StdError::GenericErr { .. }))));
}

#[test]
fn transfer_without_state_fails() {
    let res = execute_transfer(Storage(None).load(), mock_info("alice", &coins(100, NATIVE_DENOM)), "bob".to_string(), accepted());
    assert!(matches!(res, Err(ContractError::Std(StdError::NotFound { .. }))));
}

#[test]
fn transfer_with_zero_fee_sends_everything_to_recipient() {
    let storage = instantiated(0, 40, 40, 20);
    let handled =
        execute_transfer(storage.load(), mock_info("alice", &coins(1, NATIVE_DENOM)), "bob".to_string(), accepted()).unwrap();
    assert_eq!(
        handled.response.messages,
        vec![
            send(SERVICE_ADDR, 0, NATIVE_DENOM),
            send(FROM_BANK, 0, NATIVE_DENOM),
            send(TO_BANK, 0, NATIVE_DENOM),
            send("bob", 1, NATIVE_DENOM),
        ]
    );
}

#[test]
fn transfer_uses_only_the_first_coin() {
    let storage = instantiated(50, 100, 0, 0);
    let funds = vec![
        Coin { denom: "a".to_string(), amount: 10 },
        Coin { denom: "b".to_string(), amount: 1000 },
    ];
    let handled = execute_transfer(storage.load(), mock_info("alice", &funds), "bob".to_string(), accepted()).unwrap();
    assert_eq!(
        handled.response.messages,
        vec![send(SERVICE_ADDR, 0, "a"), send(FROM_BANK, 5, "a"), send(TO_BANK, 0, "a"), send("bob", 5, "a")]
    );
}

#[test]
fn transfer_fits_tells_overflow_apart() {
    let state = instantiated(10, 40, 40, 20).load().unwrap();
    assert!(transfer_fits(&state, 200));
    assert!(transfer_fits(&state, u128::MAX / 10));
    assert!(!transfer_fits(&state, u128::MAX / 10 + 1));
    let greedy = State { fee: 101, ..state.clone() };
    assert!(!transfer_fits(&greedy, 100));
    let odd = State { from_bank_fee: u128::MAX, ..state };
    assert!(!transfer_fits(&odd, 200));
    assert!(transfer_fits(&odd, 5));
}

#[test]
fn paid_out_never_exceeds_amount() {
    let storage = instantiated(37, 33, 33, 34);
    for amount in [1u128, 2, 99, 100, 101, 12345, 999_999] {
        let handled =
            execute_transfer(storage.load(), mock_info("alice", &coins(amount, "u")), "bob".to_string(), accepted()).unwrap();
        let m = &handled.response.messages;
        let fee = amount * 37 / 100;
        assert_eq!(m[3].amount + fee, amount);
        assert!(m.iter().map(|s| s.amount).sum::<u128>() <= amount);
    }
}

#[test]
fn later_fee_update_wins() {
    let mut storage = instantiated(1, 20, 40, 40);
    for fee in [5u128, 9] {
        let h = try_update_transaction_fee(storage.load(), mock_info(ADMIN, &[]), fee).unwrap();
        storage.apply(&h);
    }
    assert_eq!(fee_of(query(storage.load(), QueryMsg::GetCurrentFeeState {})), 9);
}

#[test]
fn attributes_render_large_numbers() {
    let h = instantiate(mock_info(ADMIN, &[]), instantiate_msg(u128::MAX, 0, 0, 0));
    assert_eq!(h.response.attributes[2], attr("fee", &u128::MAX.to_string()));
    let h = instantiate(mock_info(ADMIN, &[]), instantiate_msg(0, 0, 0, 0));
    assert_eq!(h.response.attributes[2], attr("fee", "0"));
}
