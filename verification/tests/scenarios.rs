use cw_carbonable_sell::coin::Coin;
use cw_carbonable_sell::contract::execute::{
    _execute, add_admin, remove_admin, try_buy, try_multi_buy, update_price, update_supply,
};
use cw_carbonable_sell::contract::instantiate::_instantiate;
use cw_carbonable_sell::error::ContractError;
use cw_carbonable_sell::msg::{ExecuteMsg, InitMsg, Instruction, MessageInfo};
use cw_carbonable_sell::state::Contract;
use cw_carbonable_sell::whitelist::WhiteListEntry;

fn ujuno(amount: u128) -> Coin {
    Coin::new(amount, String::from("ujuno"))
}

fn caller(sender: &str) -> MessageInfo {
    MessageInfo { sender: sender.to_string(), funds: vec![] }
}

fn payer(sender: &str, amount: u128) -> MessageInfo {
    MessageInfo { sender: sender.to_string(), funds: vec![ujuno(amount)] }
}

fn open_sale(market: u32, reserved: u32, price: u128) -> Contract {
    let (mut contract, _) = _instantiate(
        caller("owner_addr"),
        InitMsg { sell_mode: true, pre_sell_mode: false, max_buy_at_once: 5 },
    );
    update_supply(&mut contract, caller("owner_addr"), reserved, market).unwrap();
    update_price(&mut contract, caller("owner_addr"), ujuno(price)).unwrap();
    contract
}

#[test]
fn exact_funds_buy_the_last_unit_and_the_next_buy_finds_none() {
    let mut contract = open_sale(1, 0, 20);

    let response = try_buy(&mut contract, payer("buyer", 20)).unwrap();
    assert_eq!(contract.state.total_market_minted, 1);
    assert_eq!(contract.state.last_token_id, 1);
    assert_eq!(response.messages.len(), 1);
    match &response.messages[0] {
        Instruction::Mint { contract_addr, msg } => {
            assert_eq!(contract_addr, "unset");
            assert_eq!(msg.token_id, "1");
            assert_eq!(msg.owner, "buyer");
            assert_eq!(msg.token_uri, Some(String::from("1")));
            assert_eq!(msg.extension, Some(contract.state.metadata.clone()));
        }
        _ => unreachable!(),
    }

    let before = contract.duplicate();
    let res = try_buy(&mut contract, payer("buyer", 20));
    assert_eq!(res, Err(ContractError::NotEnoughNftLeft {}));
    assert_eq!(contract, before);
}

#[test]
fn multi_buy_is_bounded_paid_in_full_and_atomic() {
    let mut contract = open_sale(9, 0, 20);
    let before = contract.duplicate();

    let res = try_multi_buy(&mut contract, payer("anon1", 120), 6);
    assert_eq!(res, Err(ContractError::MultiBuyQuantityTooHigh {}));
    assert_eq!(contract, before);

    let res = try_multi_buy(&mut contract, payer("anon1", 20), 5);
    assert_eq!(res, Err(ContractError::NotEnoughMoneyForNft {}));
    assert_eq!(contract, before);

    let response = try_multi_buy(&mut contract, payer("anon1", 100), 5).unwrap();
    assert_eq!(contract.state.total_market_minted, 5);
    assert_eq!(contract.state.last_token_id, 5);
    assert_eq!(response.messages.len(), 5);
}

#[test]
fn presale_buyer_cannot_exceed_the_slots() {
    let (mut contract, _) = _instantiate(
        caller("owner_addr"),
        InitMsg { sell_mode: false, pre_sell_mode: true, max_buy_at_once: 5 },
    );
    update_supply(&mut contract, caller("owner_addr"), 0, 10).unwrap();
    update_price(&mut contract, caller("owner_addr"), ujuno(4)).unwrap();
    _execute(
        &mut contract,
        caller("owner_addr"),
        ExecuteMsg::AddToWhitelist {
            entries: vec![WhiteListEntry { address: String::from("addrx"), nb_slots: 1 }],
        },
        &vec![true],
    )
    .unwrap();
    let before = contract.duplicate();

    let res = try_multi_buy(&mut contract, payer("addrx", 8), 2);
    assert_eq!(res, Err(ContractError::NoSlotAvailableLeft {}));
    assert_eq!(contract.whitelist.slots(&String::from("addrx")), Some(1));
    assert_eq!(contract, before);
}

#[test]
fn an_admin_appoints_and_a_removed_admin_is_a_stranger() {
    let (mut contract, _) = _instantiate(
        caller("owner_addr"),
        InitMsg { sell_mode: true, pre_sell_mode: false, max_buy_at_once: 5 },
    );

    add_admin(&mut contract, caller("owner_addr"), String::from("addry"), true).unwrap();
    add_admin(&mut contract, caller("addry"), String::from("addrz"), true).unwrap();
    assert!(contract.admins.contains(&String::from("addrz")));

    remove_admin(&mut contract, caller("owner_addr"), String::from("addry"), true).unwrap();
    assert!(!contract.admins.contains(&String::from("addry")));

    let before = contract.duplicate();
    let res = update_supply(&mut contract, caller("addry"), 1, 1);
    assert_eq!(res, Err(ContractError::Unauthorized {}));
    let res = add_admin(&mut contract, caller("addry"), String::from("addrw"), true);
    assert_eq!(res, Err(ContractError::Unauthorized {}));
    assert_eq!(contract, before);

    // the admin whom the removed one appointed keeps the role
    update_supply(&mut contract, caller("addrz"), 1, 1).unwrap();
}
