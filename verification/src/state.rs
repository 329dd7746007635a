//! What the engine keeps between operations.

use crate::coin::{Coin, CoinView};
use crate::metadata::{Metadata, MetadataView};
use crate::roles::AdminSet;
use crate::whitelist::Whitelist;
use vstd::prelude::*;

verus! {

/// The sale itself: both pools, the identifier counter, the price and the catalog record.
#[derive(Debug, Clone, PartialEq, Eq)]
pub struct State {
    pub total_market_supply: u32,
    pub total_reserved_supply: u32,
    pub total_market_minted: u32,
    pub total_reserved_minted: u32,
    pub max_buy_at_once: u32,
    pub last_token_id: u32,
    pub sell_price: Coin,
    pub metadata: Metadata,
}

/// Mathematical value of a [`State`].
pub struct StateView {
    pub total_market_supply: u32,
    pub total_reserved_supply: u32,
    pub total_market_minted: u32,
    pub total_reserved_minted: u32,
    pub max_buy_at_once: u32,
    pub last_token_id: u32,
    pub sell_price: CoinView,
    pub metadata: MetadataView,
}

impl StateView {
    /// Neither pool has handed out more units than its cap allows.
    pub open spec fn within_caps(self) -> bool {
        &&& self.total_market_minted <= self.total_market_supply
        &&& self.total_reserved_minted <= self.total_reserved_supply
    }
}

impl View for State {
    type V = StateView;

    open spec fn view(&self) -> StateView {
        StateView {
            total_market_supply: self.total_market_supply,
            total_reserved_supply: self.total_reserved_supply,
            total_market_minted: self.total_market_minted,
            total_reserved_minted: self.total_reserved_minted,
            max_buy_at_once: self.max_buy_at_once,
            last_token_id: self.last_token_id,
            sell_price: self.sell_price@,
            metadata: self.metadata@,
        }
    }
}

impl State {
    /// A copy with the same value.
    pub fn duplicate(&self) -> (copy: State)
        ensures
            copy@ == self@,
    {
        State {
            total_market_supply: self.total_market_supply,
            total_reserved_supply: self.total_reserved_supply,
            total_market_minted: self.total_market_minted,
            total_reserved_minted: self.total_reserved_minted,
            max_buy_at_once: self.max_buy_at_once,
            last_token_id: self.last_token_id,
            sell_price: self.sell_price.duplicate(),
            metadata: self.metadata.duplicate(),
        }
    }
}

/// Who may buy at the moment. An engine is created in one of the two modes
/// and stays in it.
#[derive(Debug, Clone, Copy, PartialEq, Eq, Structural)]
pub enum AdmissionMode {
    /// Everything but the switch itself and withdrawals stops while `enabled`.
    Maintenance { enabled: bool },
    /// An open sale admits every buyer; a presale alone admits allowlisted
    /// buyers within their slots; with both closed nobody buys.
    Phased { sell_mode: bool, pre_sell_mode: bool },
}

/// The name that stands for "no minting contract configured yet".
pub open spec fn unset_contract() -> Seq<char> {
    "unset"@
}

/// The whole persistent state of one engine.
#[derive(Debug, PartialEq, Eq)]
pub struct Contract {
    pub state: State,
    pub owner: String,
    pub admins: AdminSet,
    pub nft_contract: String,
    pub admission: AdmissionMode,
    pub whitelist: Whitelist,
}

/// Mathematical value of a [`Contract`].
pub struct ContractView {
    pub state: StateView,
    pub owner: Seq<char>,
    pub admins: Set<Seq<char>>,
    pub nft_contract: Seq<char>,
    pub admission: AdmissionMode,
    pub whitelist: Map<Seq<char>, u32>,
}

impl View for Contract {
    type V = ContractView;

    open spec fn view(&self) -> ContractView {
        ContractView {
            state: self.state@,
            owner: self.owner@,
            admins: self.admins@,
            nft_contract: self.nft_contract@,
            admission: self.admission,
            whitelist: self.whitelist@,
        }
    }
}

impl Contract {
    /// A copy with the same value.
    pub fn duplicate(&self) -> (copy: Contract)
        ensures
            copy@ == self@,
    {
        Contract {
            state: self.state.duplicate(),
            owner: self.owner.clone(),
            admins: self.admins.duplicate(),
            nft_contract: self.nft_contract.clone(),
            admission: self.admission,
            whitelist: self.whitelist.duplicate(),
        }
    }
}

} // verus!
