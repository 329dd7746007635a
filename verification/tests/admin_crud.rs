use cosmwasm_std::testing::{
    mock_dependencies_with_balance, MockApi, MockQuerier, MockStorage,
};
use cosmwasm_std::{coins, Api, OwnedDeps};
use cw_carbonable_sell::coin::Coin;
use cw_carbonable_sell::contract::execute::{_execute, named_addresses};
use cw_carbonable_sell::contract::instantiate::_instantiate;
use cw_carbonable_sell::error::ContractError;
use cw_carbonable_sell::msg::{ExecuteMsg, InitMsg, MessageInfo, Response};
use cw_carbonable_sell::state::Contract;

type MockDeps = OwnedDeps<MockStorage, MockApi, MockQuerier>;

fn mock_info(sender: &str, funds: &[Coin]) -> MessageInfo {
    MessageInfo { sender: sender.to_string(), funds: funds.to_vec() }
}

fn execute(
    deps: &MockDeps,
    contract: &mut Contract,
    info: MessageInfo,
    msg: ExecuteMsg,
) -> Result<Response, ContractError> {
    let verdicts: Vec<bool> = named_addresses(&msg)
        .iter()
        .map(|address| deps.api.addr_validate(address).is_ok())
        .collect();
    _execute(contract, info, msg, &verdicts)
}

fn helper_instantiate(deps: &MockDeps) -> Contract {
    let msg = InitMsg { sell_mode: true, pre_sell_mode: false, max_buy_at_once: 5 };

    let info = mock_info("owner_addr", &[Coin::new(1000, "earth".to_string())]);

    let (mut contract, _) = _instantiate(info.clone(), msg);

    let _ = execute(
        deps,
        &mut contract,
        info.clone(),
        ExecuteMsg::AddAdmin { address: String::from("admin1_addr") },
    );

    let _ = execute(
        deps,
        &mut contract,
        info,
        ExecuteMsg::AddAdmin { address: String::from("admin2_addr") },
    );
    contract
}

#[test]
fn unauthorized_add_admin() {
    let deps = mock_dependencies_with_balance(&coins(2, "token"));

    let mut contract = helper_instantiate(&deps);

    let info = mock_info("test", &[]);
    let res = execute(
        &deps,
        &mut contract,
        info,
        ExecuteMsg::AddAdmin { address: String::from("invalid_admin") },
    );

    assert!(res.is_err());
    match res.err().unwrap() {
        ContractError::Unauthorized {} => {}
        _ => unreachable!(),
    }
}

#[test]
fn owner_add_admin() {
    let deps = mock_dependencies_with_balance(&coins(2, "token"));

    let mut contract = helper_instantiate(&deps);

    let info = mock_info("owner_addr", &[]);
    let res = execute(
        &deps,
        &mut contract,
        info,
        ExecuteMsg::AddAdmin { address: String::from("new_admin") },
    );

    assert!(res.is_ok());
    assert!(contract.admins.contains(&String::from("new_admin")));
}

#[test]
fn admin_add_admin() {
    let deps = mock_dependencies_with_balance(&coins(2, "token"));

    let mut contract = helper_instantiate(&deps);

    let info = mock_info("admin1_addr", &[]);
    let res = execute(
        &deps,
        &mut contract,
        info,
        ExecuteMsg::AddAdmin { address: String::from("new_admin") },
    );

    assert!(res.is_ok());
}

#[test]
fn add_already_existing_wallet() {
    let deps = mock_dependencies_with_balance(&coins(2, "token"));

    let mut contract = helper_instantiate(&deps);

    let info = mock_info("admin1_addr", &[]);
    let res = execute(
        &deps,
        &mut contract,
        info,
        ExecuteMsg::AddAdmin { address: String::from("admin2_addr") },
    );

    assert!(res.is_err());
    match res.err().unwrap() {
        ContractError::AddressAlreadyRegistered { address } => {
            assert_eq!(address.as_str(), "admin2_addr")
        }
        _ => unreachable!(),
    }
}

#[test]
fn unauthorized_remove_admin() {
    let deps = mock_dependencies_with_balance(&coins(2, "token"));

    let mut contract = helper_instantiate(&deps);

    let info = mock_info("test", &[]);
    let res = execute(
        &deps,
        &mut contract,
        info,
        ExecuteMsg::RemoveAdmin { address: String::from("admin2_addr") },
    );

    assert!(res.is_err());
    match res.err().unwrap() {
        ContractError::Unauthorized {} => {}
        _ => unreachable!(),
    }
}

#[test]
fn owner_remove_admin() {
    let deps = mock_dependencies_with_balance(&coins(2, "token"));

    let mut contract = helper_instantiate(&deps);

    let info = mock_info("owner_addr", &[]);
    let res = execute(
        &deps,
        &mut contract,
        info,
        ExecuteMsg::RemoveAdmin { address: String::from("admin2_addr") },
    );

    assert!(res.is_ok());
    assert!(!contract.admins.contains(&String::from("admin2_addr")));
}

#[test]
fn admin_remove_admin() {
    let deps = mock_dependencies_with_balance(&coins(2, "token"));

    let mut contract = helper_instantiate(&deps);

    let info = mock_info("admin1_addr", &[]);
    let res = execute(
        &deps,
        &mut contract,
        info,
        ExecuteMsg::RemoveAdmin { address: String::from("admin2_addr") },
    );

    assert!(res.is_ok());
}

#[test]
fn remove_unexisting_wallet() {
    let deps = mock_dependencies_with_balance(&coins(2, "token"));

    let mut contract = helper_instantiate(&deps);

    let info = mock_info("admin1_addr", &[]);
    let res = execute(
        &deps,
        &mut contract,
        info,
        ExecuteMsg::RemoveAdmin { address: String::from("yolo") },
    );

    assert!(res.is_err());
    match res.err().unwrap() {
        ContractError::AddressNotFound { address } => {
            assert_eq!(address.as_str(), "yolo")
        }
        _ => unreachable!(),
    }
}
