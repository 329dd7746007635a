//! What goes into the engine (caller, messages) and what comes out of it
//! (instructions for the minting contract and the bank).

use crate::coin::{coins_view, Coin, CoinView};
use crate::metadata::{Metadata, MetadataView};
use crate::text::{text_view, texts_view};
use crate::whitelist::{entries_view, WhiteListEntry, WhiteListEntryView};
use vstd::prelude::*;

verus! {

/// Creation of an engine with sale and presale phases.
#[derive(Debug, Clone, Copy, PartialEq, Eq)]
pub struct InitMsg {
    pub sell_mode: bool,
    pub pre_sell_mode: bool,
    pub max_buy_at_once: u32,
}

/// Creation of an engine with a maintenance switch.
#[derive(Debug, Clone, Copy, PartialEq, Eq)]
pub struct MaintenanceInitMsg {
    pub maintenance_mode: bool,
    pub max_buy_at_once: u32,
}

/// Who calls, and with which funds attached.
#[derive(Debug, Clone, PartialEq, Eq)]
pub struct MessageInfo {
    pub sender: String,
    pub funds: Vec<Coin>,
}

/// Mathematical value of a [`MessageInfo`].
pub struct MessageInfoView {
    pub sender: Seq<char>,
    pub funds: Seq<CoinView>,
}

impl View for MessageInfo {
    type V = MessageInfoView;

    open spec fn view(&self) -> MessageInfoView {
        MessageInfoView { sender: self.sender@, funds: coins_view(self.funds@) }
    }
}

/// The operations of the engine.
#[derive(Debug, Clone, PartialEq, Eq)]
pub enum ExecuteMsg {
    UpdateSupply { reserved_supply: u32, market_supply: u32 },
    UpdatePrice { price: Coin },
    UpdateNftContract { address: String },
    UpdateMetadata { metadata: Metadata },
    Buy {},
    MultiBuy { quantity: u32 },
    Airdrop { receivers: Vec<String> },
    Withdraw { wallet: String, coin: Vec<Coin> },
    PreSellMode { enable: bool },
    SellMode { enable: bool },
    MaintenanceMode { enable: bool },
    AddToWhitelist { entries: Vec<WhiteListEntry> },
    RemoveAdmin { address: String },
    AddAdmin { address: String },
}

/// Mathematical value of an [`ExecuteMsg`].
pub enum ExecuteMsgView {
    UpdateSupply { reserved_supply: u32, market_supply: u32 },
    UpdatePrice { price: CoinView },
    UpdateNftContract { address: Seq<char> },
    UpdateMetadata { metadata: MetadataView },
    Buy,
    MultiBuy { quantity: u32 },
    Airdrop { receivers: Seq<Seq<char>> },
    Withdraw { wallet: Seq<char>, coin: Seq<CoinView> },
    PreSellMode { enable: bool },
    SellMode { enable: bool },
    MaintenanceMode { enable: bool },
    AddToWhitelist { entries: Seq<WhiteListEntryView> },
    RemoveAdmin { address: Seq<char> },
    AddAdmin { address: Seq<char> },
}

impl View for ExecuteMsg {
    type V = ExecuteMsgView;

    open spec fn view(&self) -> ExecuteMsgView {
        match *self {
            ExecuteMsg::UpdateSupply {
                reserved_supply,
                market_supply,
            } => ExecuteMsgView::UpdateSupply { reserved_supply, market_supply },
            ExecuteMsg::UpdatePrice { price } => ExecuteMsgView::UpdatePrice { price: price@ },
            ExecuteMsg::UpdateNftContract { address } => ExecuteMsgView::UpdateNftContract {
                address: address@,
            },
            ExecuteMsg::UpdateMetadata { metadata } => ExecuteMsgView::UpdateMetadata {
                metadata: metadata@,
            },
            ExecuteMsg::Buy {  } => ExecuteMsgView::Buy,
            ExecuteMsg::MultiBuy { quantity } => ExecuteMsgView::MultiBuy { quantity },
            ExecuteMsg::Airdrop { receivers } => ExecuteMsgView::Airdrop {
                receivers: texts_view(receivers@),
            },
            ExecuteMsg::Withdraw { wallet, coin } => ExecuteMsgView::Withdraw {
                wallet: wallet@,
                coin: coins_view(coin@),
            },
            ExecuteMsg::PreSellMode { enable } => ExecuteMsgView::PreSellMode { enable },
            ExecuteMsg::SellMode { enable } => ExecuteMsgView::SellMode { enable },
            ExecuteMsg::MaintenanceMode { enable } => ExecuteMsgView::MaintenanceMode { enable },
            ExecuteMsg::AddToWhitelist { entries } => ExecuteMsgView::AddToWhitelist {
                entries: entries_view(entries@),
            },
            ExecuteMsg::RemoveAdmin { address } => ExecuteMsgView::RemoveAdmin {
                address: address@,
            },
            ExecuteMsg::AddAdmin { address } => ExecuteMsgView::AddAdmin { address: address@ },
        }
    }
}

/// The questions that the engine answers.
#[derive(Debug, Clone, Copy, PartialEq, Eq)]
pub enum QueryMsg {
    /// Asks for the sale state.
    DumpState {},
}

/// The request to issue one numbered item.
#[derive(Debug, Clone, PartialEq, Eq)]
pub struct MintMsg {
    pub token_id: String,
    pub owner: String,
    pub token_uri: Option<String>,
    pub extension: Option<Metadata>,
}

/// Mathematical value of a [`MintMsg`].
pub struct MintMsgView {
    pub token_id: Seq<char>,
    pub owner: Seq<char>,
    pub token_uri: Option<Seq<char>>,
    pub extension: Option<MetadataView>,
}

impl View for MintMsg {
    type V = MintMsgView;

    open spec fn view(&self) -> MintMsgView {
        MintMsgView {
            token_id: self.token_id@,
            owner: self.owner@,
            token_uri: text_view(self.token_uri),
            extension: match self.extension {
                Some(m) => Some(m@),
                None => None,
            },
        }
    }
}

/// What a successful operation asks the host to carry out.
#[derive(Debug, Clone, PartialEq, Eq)]
pub enum Instruction {
    /// Hand `msg` to the minting contract at `contract_addr`.
    Mint { contract_addr: String, msg: MintMsg },
    /// Pay `amount` out to `to_address`.
    Send { to_address: String, amount: Vec<Coin> },
}

/// Mathematical value of an [`Instruction`].
pub enum InstructionView {
    Mint { contract_addr: Seq<char>, msg: MintMsgView },
    Send { to_address: Seq<char>, amount: Seq<CoinView> },
}

impl View for Instruction {
    type V = InstructionView;

    open spec fn view(&self) -> InstructionView {
        match *self {
            Instruction::Mint { contract_addr, msg } => InstructionView::Mint {
                contract_addr: contract_addr@,
                msg: msg@,
            },
            Instruction::Send { to_address, amount } => InstructionView::Send {
                to_address: to_address@,
                amount: coins_view(amount@),
            },
        }
    }
}

/// Values of a list of instructions, in order.
pub open spec fn instructions_view(list: Seq<Instruction>) -> Seq<InstructionView> {
    list.map_values(|i: Instruction| i@)
}

/// The operation that produced a response.
#[derive(Debug, Clone, Copy, PartialEq, Eq, Structural)]
pub enum Method {
    Instantiate,
    TryBuy,
    TryMultiBuy,
    UpdateNftContract,
    UpdateMetadata,
    TryAirdrop,
    TryWithdraw,
    TrySellMode,
    TryPreSellMode,
    TryMaintenanceMode,
    TryUpdateWhitelist,
    UpdatePrice,
    UpdateSupply,
    RemoveAdmin,
    AddAdmin,
}

/// The name under which each operation is reported.
pub open spec fn method_name(method: Method) -> Seq<char> {
    match method {
        Method::Instantiate => "instantiate"@,
        Method::TryBuy => "try_buy"@,
        Method::TryMultiBuy => "try_multi_buy"@,
        Method::UpdateNftContract => "update_nft_contract"@,
        Method::UpdateMetadata => "update_metadata"@,
        Method::TryAirdrop => "try_airdrop"@,
        Method::TryWithdraw => "try_withdraw"@,
        Method::TrySellMode => "try_sell_mode"@,
        Method::TryPreSellMode => "try_pre_sell_mode"@,
        Method::TryMaintenanceMode => "try_maintenance_mode"@,
        Method::TryUpdateWhitelist => "try_update_whitelist"@,
        Method::UpdatePrice => "update_price"@,
        Method::UpdateSupply => "update_supply"@,
        Method::RemoveAdmin => "remove_admin"@,
        Method::AddAdmin => "add_admin"@,
    }
}

impl Method {
    /// The name under which the operation is reported.
    pub fn name(self) -> (name: &'static str)
        ensures
            name@ == method_name(self),
    {
        match self {
            Method::Instantiate => "instantiate",
            Method::TryBuy => "try_buy",
            Method::TryMultiBuy => "try_multi_buy",
            Method::UpdateNftContract => "update_nft_contract",
            Method::UpdateMetadata => "update_metadata",
            Method::TryAirdrop => "try_airdrop",
            Method::TryWithdraw => "try_withdraw",
            Method::TrySellMode => "try_sell_mode",
            Method::TryPreSellMode => "try_pre_sell_mode",
            Method::TryMaintenanceMode => "try_maintenance_mode",
            Method::TryUpdateWhitelist => "try_update_whitelist",
            Method::UpdatePrice => "update_price",
            Method::UpdateSupply => "update_supply",
            Method::RemoveAdmin => "remove_admin",
            Method::AddAdmin => "add_admin",
        }
    }
}

/// What a successful operation hands back.
#[derive(Debug, Clone, PartialEq, Eq)]
pub struct Response {
    pub messages: Vec<Instruction>,
    pub method: Method,
}

/// Mathematical value of a [`Response`].
pub struct ResponseView {
    pub messages: Seq<InstructionView>,
    pub method: Method,
}

impl View for Response {
    type V = ResponseView;

    open spec fn view(&self) -> ResponseView {
        ResponseView { messages: instructions_view(self.messages@), method: self.method }
    }
}

/// A response that carries no instruction.
pub open spec fn plain(method: Method) -> ResponseView {
    ResponseView { messages: Seq::empty(), method }
}

impl Response {
    /// The response of `method` without instructions.
    pub fn new(method: Method) -> (r: Response)
        ensures
            r@ == plain(method),
    {
        let r = Response { messages: Vec::new(), method };
        assert(instructions_view(r.messages@) =~= Seq::empty());
        r
    }
}

} // verus!
