use cosmwasm_std::testing::{
    mock_dependencies_with_balance, MockApi, MockQuerier, MockStorage,
};
use cosmwasm_std::{coins, Api, OwnedDeps};
use cw_carbonable_sell::coin::Coin;
use cw_carbonable_sell::contract::execute::{_execute, named_addresses};
use cw_carbonable_sell::contract::instantiate::_instantiate;
use cw_carbonable_sell::error::ContractError;
use cw_carbonable_sell::msg::{ExecuteMsg, InitMsg, MessageInfo, Response};
use cw_carbonable_sell::state::Contract;
use cw_carbonable_sell::whitelist::WhiteListEntry;

type MockDeps = OwnedDeps<MockStorage, MockApi, MockQuerier>;

fn coin(amount: u128, denom: String) -> Coin {
    Coin::new(amount, denom)
}

fn mock_info(sender: &str, funds: &[Coin]) -> MessageInfo {
    MessageInfo { sender: sender.to_string(), funds: funds.to_vec() }
}

fn execute(
    deps: &MockDeps,
    contract: &mut Contract,
    info: MessageInfo,
    msg: ExecuteMsg,
) -> Result<Response, ContractError> {
    let verdicts: Vec<bool> = named_addresses(&msg)
        .iter()
        .map(|address| deps.api.addr_validate(address).is_ok())
        .collect();
    _execute(contract, info, msg, &verdicts)
}

fn helper_instantiate() -> Contract {
    let msg = InitMsg { pre_sell_mode: false, sell_mode: false, max_buy_at_once: 5 };

    let info = mock_info("owner_addr", &[coin(1000, String::from("earth"))]);

    let (contract, _) = _instantiate(info, msg);
    contract
}

#[test]
fn sell_off() {
    let deps = mock_dependencies_with_balance(&coins(2, "token"));

    let mut contract = helper_instantiate();

    let info = mock_info("test", &[]);
    let res = execute(&deps, &mut contract, info, ExecuteMsg::Buy {});

    assert!(res.is_err());
    match res.err().unwrap() {
        ContractError::SellClose {} => {}
        _ => unreachable!(),
    }
}

#[test]
fn presale_on_not_in_whitelist() {
    let deps = mock_dependencies_with_balance(&coins(2, "token"));

    let mut contract = helper_instantiate();

    let info = mock_info("owner_addr", &[]);
    let res = execute(&deps, &mut contract, info, ExecuteMsg::PreSellMode { enable: true });
    assert!(res.is_ok());

    let info = mock_info("test", &[]);
    let res = execute(&deps, &mut contract, info, ExecuteMsg::Buy {});

    assert!(res.is_err());
    match res.err().unwrap() {
        ContractError::AddressNotWhitelisted {} => {}
        _ => unreachable!(),
    }
}

#[test]
fn presale_ok() {
    let deps = mock_dependencies_with_balance(&coins(2, "token"));

    let mut contract = helper_instantiate();

    let info = mock_info("owner_addr", &[]);
    let res = execute(
        &deps,
        &mut contract,
        info,
        ExecuteMsg::AddToWhitelist {
            entries: vec![WhiteListEntry { address: String::from("test"), nb_slots: 2 }],
        },
    );
    assert!(res.is_ok());

    let info = mock_info("owner_addr", &[]);
    let res = execute(
        &deps,
        &mut contract,
        info,
        ExecuteMsg::UpdateSupply { reserved_supply: 0, market_supply: 10 },
    );
    assert!(res.is_ok());

    let info = mock_info("owner_addr", &[]);
    let res = execute(
        &deps,
        &mut contract,
        info,
        ExecuteMsg::UpdatePrice { price: { coin(4, String::from("juno")) } },
    );
    assert!(res.is_ok());

    let info = mock_info("owner_addr", &[]);
    let res = execute(&deps, &mut contract, info, ExecuteMsg::PreSellMode { enable: true });
    assert!(res.is_ok());

    let info = mock_info("test", &[coin(8, String::from("juno"))]);
    let res = execute(&deps, &mut contract, info, ExecuteMsg::MultiBuy { quantity: 2 });

    println!("{:#?}", res);
    assert!(res.is_ok());
    assert_eq!(contract.whitelist.slots(&String::from("test")), Some(0));
    assert_eq!(contract.state.total_market_minted, 2);
}

#[test]
fn presale_too_many() {
    let deps = mock_dependencies_with_balance(&coins(2, "token"));

    let mut contract = helper_instantiate();

    let info = mock_info("owner_addr", &[]);
    let res = execute(
        &deps,
        &mut contract,
        info,
        ExecuteMsg::AddToWhitelist {
            entries: vec![WhiteListEntry { address: String::from("test"), nb_slots: 1 }],
        },
    );
    assert!(res.is_ok());

    let info = mock_info("owner_addr", &[]);
    let res = execute(
        &deps,
        &mut contract,
        info,
        ExecuteMsg::UpdateSupply { reserved_supply: 0, market_supply: 10 },
    );
    assert!(res.is_ok());

    let info = mock_info("owner_addr", &[]);
    let res = execute(
        &deps,
        &mut contract,
        info,
        ExecuteMsg::UpdatePrice { price: { coin(4, String::from("juno")) } },
    );
    assert!(res.is_ok());

    let info = mock_info("owner_addr", &[]);
    let res = execute(&deps, &mut contract, info, ExecuteMsg::PreSellMode { enable: true });
    assert!(res.is_ok());

    let info = mock_info("test", &[coin(8, String::from("juno"))]);
    let res = execute(&deps, &mut contract, info, ExecuteMsg::MultiBuy { quantity: 2 });

    println!("{:#?}", res);
    assert!(res.is_err());
    match res.err().unwrap() {
        ContractError::NoSlotAvailableLeft {} => {}
        _ => unreachable!(),
    }
    assert_eq!(contract.whitelist.slots(&String::from("test")), Some(1));
}
