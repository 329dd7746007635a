//! Creation of an engine.

use crate::coin::Coin;
use crate::metadata::Metadata;
use crate::model;
use crate::msg::{plain, InitMsg, MaintenanceInitMsg, MessageInfo, Method, Response};
use crate::roles::AdminSet;
use crate::state::{AdmissionMode, Contract, State};
use crate::whitelist::Whitelist;
use vstd::prelude::*;
use vstd::string::*;

verus! {

/// The engine that `info.sender` owns, in the given admission mode.
fn create(info: MessageInfo, admission: AdmissionMode, max_buy_at_once: u32) -> (created: (
    Contract,
    Response,
))
    ensures
        created.0@ == model::created(info.sender@, admission, max_buy_at_once),
        created.1@ == plain(Method::Instantiate),
{
    let state = State {
        total_market_supply: 0,
        total_reserved_supply: 0,
        total_market_minted: 0,
        total_reserved_minted: 0,
        max_buy_at_once,
        last_token_id: 0,
        sell_price: Coin::new(0, String::from_str("ujuno")),
        metadata: Metadata::default(),
    };
    let contract = Contract {
        state,
        owner: info.sender,
        admins: AdminSet::new(),
        nft_contract: String::from_str("unset"),
        admission,
        whitelist: Whitelist::new(),
    };
    (contract, Response::new(Method::Instantiate))
}

/// Creates an engine with sale and presale phases, owned by `info.sender`.
pub fn _instantiate(info: MessageInfo, msg: InitMsg) -> (created: (Contract, Response))
    ensures
        created.0@ == model::created(
            info.sender@,
            AdmissionMode::Phased { sell_mode: msg.sell_mode, pre_sell_mode: msg.pre_sell_mode },
            msg.max_buy_at_once,
        ),
        created.1@ == plain(Method::Instantiate),
{
    create(
        info,
        AdmissionMode::Phased { sell_mode: msg.sell_mode, pre_sell_mode: msg.pre_sell_mode },
        msg.max_buy_at_once,
    )
}

/// Creates an engine with a maintenance switch, owned by `info.sender`.
pub fn _instantiate_maintenance(info: MessageInfo, msg: MaintenanceInitMsg) -> (created: (
    Contract,
    Response,
))
    ensures
        created.0@ == model::created(
            info.sender@,
            AdmissionMode::Maintenance { enabled: msg.maintenance_mode },
            msg.max_buy_at_once,
        ),
        created.1@ == plain(Method::Instantiate),
{
    create(
        info,
        AdmissionMode::Maintenance { enabled: msg.maintenance_mode },
        msg.max_buy_at_once,
    )
}

} // verus!
