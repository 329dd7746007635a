use cosmwasm_std::testing::{
    mock_dependencies_with_balance, MockApi, MockQuerier, MockStorage,
};
use cosmwasm_std::{coins, Api, OwnedDeps};
use cw_carbonable_sell::coin::Coin;
use cw_carbonable_sell::contract::execute::{_execute, named_addresses};
use cw_carbonable_sell::contract::instantiate::_instantiate_maintenance;
use cw_carbonable_sell::contract::query::_query;
use cw_carbonable_sell::error::ContractError;
use cw_carbonable_sell::metadata::Metadata;
use cw_carbonable_sell::msg::{ExecuteMsg, MaintenanceInitMsg, MessageInfo, QueryMsg, Response};
use cw_carbonable_sell::state::{Contract, State};

type MockDeps = OwnedDeps<MockStorage, MockApi, MockQuerier>;

fn mock_info(sender: &str, funds: &[Coin]) -> MessageInfo {
    MessageInfo { sender: sender.to_string(), funds: funds.to_vec() }
}

fn execute(
    deps: &MockDeps,
    contract: &mut Contract,
    info: MessageInfo,
    msg: ExecuteMsg,
) -> Result<Response, ContractError> {
    let verdicts: Vec<bool> = named_addresses(&msg)
        .iter()
        .map(|address| deps.api.addr_validate(address).is_ok())
        .collect();
    _execute(contract, info, msg, &verdicts)
}

fn helper_instantiate() -> Contract {
    let msg = MaintenanceInitMsg { maintenance_mode: false, max_buy_at_once: 0 };

    let info = mock_info("owner_addr", &[Coin::new(1000, String::from("earth"))]);

    let (contract, _) = _instantiate_maintenance(info, msg);
    contract
}

#[test]
fn update_metadata_unauthorized() {
    let deps = mock_dependencies_with_balance(&coins(2, "token"));

    let mut contract = helper_instantiate();

    let info = mock_info("test", &[]);
    let res = execute(
        &deps,
        &mut contract,
        info,
        ExecuteMsg::UpdateMetadata {
            metadata: Metadata {
                name: Some(String::from("Carbonable")),
                youtube_url: Some(String::from("www.youtube.com")),
                ..Default::default()
            },
        },
    );

    assert!(res.is_err());
    match res.err().unwrap() {
        ContractError::Unauthorized {} => {}
        _ => unreachable!(),
    }
}

#[test]
fn update_metadata_ok() {
    let deps = mock_dependencies_with_balance(&coins(2, "token"));

    let mut contract = helper_instantiate();

    let info = mock_info("owner_addr", &[]);
    let res = execute(
        &deps,
        &mut contract,
        info,
        ExecuteMsg::UpdateMetadata {
            metadata: Metadata {
                name: Some(String::from("Carbonable")),
                youtube_url: Some(String::from("www.youtube.com")),
                ..Default::default()
            },
        },
    );

    assert!(res.is_ok());

    // query state
    let state: State = _query(&contract, QueryMsg::DumpState {});
    assert_eq!(state.metadata.name.unwrap(), "Carbonable".to_string());
    assert_eq!(state.metadata.youtube_url.unwrap(), "www.youtube.com".to_string());
}

#[test]
fn update_metadata_twice() {
    let deps = mock_dependencies_with_balance(&coins(2, "token"));

    let mut contract = helper_instantiate();

    let info = mock_info("owner_addr", &[]);
    let res = execute(
        &deps,
        &mut contract,
        info,
        ExecuteMsg::UpdateMetadata {
            metadata: Metadata {
                name: Some(String::from("Carbonable")),
                youtube_url: Some(String::from("www.youtube.com")),
                ..Default::default()
            },
        },
    );

    assert!(res.is_ok());

    // query state
    let state: State = _query(&contract, QueryMsg::DumpState {});
    assert_eq!(state.metadata.name.unwrap(), "Carbonable".to_string());
    assert_eq!(state.metadata.youtube_url.unwrap(), "www.youtube.com".to_string());

    let info = mock_info("owner_addr", &[]);
    let res = execute(
        &deps,
        &mut contract,
        info,
        ExecuteMsg::UpdateMetadata {
            metadata: Metadata {
                name: Some(String::from("Carbonable 2")),
                youtube_url: Some(String::from("www.dailymotion.com")),
                ..Default::default()
            },
        },
    );

    assert!(res.is_ok());

    // query state
    let state: State = _query(&contract, QueryMsg::DumpState {});
    assert_eq!(state.metadata.name.unwrap(), "Carbonable 2".to_string());
    assert_eq!(state.metadata.youtube_url.unwrap(), "www.dailymotion.com".to_string());
}
