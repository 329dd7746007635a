//! The engine as mathematics: for every operation, on which states and
//! arguments it is refused and why, and otherwise the state and the response
//! that it leaves. The executable operations are proved against these
//! functions, and the laws of the engine are proved about them.

use crate::coin::{pays, CoinView};
use crate::error::ErrorView;
use crate::metadata::MetadataView;
use crate::msg::{
    plain, ExecuteMsgView, InstructionView, MessageInfoView, Method, MintMsgView, ResponseView,
};
use crate::state::{AdmissionMode, ContractView, StateView};
use crate::text::decimal;
use crate::whitelist::{addresses, assign_all, WhiteListEntryView};
use vstd::prelude::*;

verus! {

/// What an operation leaves: the next state with the response, or the refusal.
pub type Outcome = Result<(ContractView, ResponseView), ErrorView>;

/// The next state of an engine: that of the outcome, or `c` itself after a refusal.
pub open spec fn state_after(c: ContractView, outcome: Outcome) -> ContractView {
    match outcome {
        Ok((next, _)) => next,
        Err(_) => c,
    }
}

/// The outcome of a call that is refused for `reason`.
pub open spec fn refused(reason: ErrorView) -> Outcome {
    Err(reason)
}

/// `c` unchanged, with a response that carries no instruction.
pub open spec fn done(c: ContractView, method: Method) -> Outcome {
    Ok((c, plain(method)))
}

// ---------------------------------------------------------------- authorization
/// The owner, and every admin, is privileged.
pub open spec fn privileged(c: ContractView, caller: Seq<char>) -> bool {
    caller == c.owner || c.admins.contains(caller)
}

/// The engine has a maintenance switch and it is on.
pub open spec fn in_maintenance(c: ContractView) -> bool {
    c.admission == (AdmissionMode::Maintenance { enabled: true })
}

/// Why an admin operation is refused whatever its arguments: maintenance
/// first, then the caller's role.
pub open spec fn admin_refusal(c: ContractView, caller: Seq<char>) -> Option<ErrorView> {
    if in_maintenance(c) {
        Some(ErrorView::InMaintenance)
    } else if !privileged(c, caller) {
        Some(ErrorView::Unauthorized)
    } else {
        None
    }
}

// -------------------------------------------------------------------- admission
/// Only the presale is open: purchases draw on the allowlist.
pub open spec fn presale_only(admission: AdmissionMode) -> bool {
    admission == (AdmissionMode::Phased { sell_mode: false, pre_sell_mode: true })
}

/// Why `caller` may not buy `units` now, if so.
pub open spec fn admission_refusal(
    admission: AdmissionMode,
    whitelist: Map<Seq<char>, u32>,
    caller: Seq<char>,
    units: u32,
) -> Option<ErrorView> {
    match admission {
        AdmissionMode::Maintenance { enabled } => if enabled {
            Some(ErrorView::InMaintenance)
        } else {
            None
        },
        AdmissionMode::Phased { sell_mode, pre_sell_mode } => if sell_mode {
            None
        } else if !pre_sell_mode {
            Some(ErrorView::SellClose)
        } else if !whitelist.contains_key(caller) {
            Some(ErrorView::AddressNotWhitelisted)
        } else if whitelist[caller] < units {
            Some(ErrorView::NoSlotAvailableLeft)
        } else {
            None
        },
    }
}

/// The allowlist after `caller` was admitted for `units`: during a presale
/// alone the units leave the caller's slots, otherwise nothing changes.
pub open spec fn slots_after(
    admission: AdmissionMode,
    whitelist: Map<Seq<char>, u32>,
    caller: Seq<char>,
    units: u32,
) -> Map<Seq<char>, u32> {
    if presale_only(admission) {
        whitelist.insert(caller, (whitelist[caller] - units) as u32)
    } else {
        whitelist
    }
}

/// The admission gate on its own: refusal, or the state with the slots consumed.
pub open spec fn gate(c: ContractView, caller: Seq<char>, units: u32) -> Result<
    ContractView,
    ErrorView,
> {
    match admission_refusal(c.admission, c.whitelist, caller, units) {
        Some(e) => Err(e),
        None => Ok(
            ContractView { whitelist: slots_after(c.admission, c.whitelist, caller, units), ..c },
        ),
    }
}

// -------------------------------------------------------------------- inventory
/// `count` more units fit under the cap of a pool that has handed out `minted`.
pub open spec fn in_stock(minted: u32, supply: u32, count: nat) -> bool {
    minted + count <= supply
}

/// `count` more identifiers can be issued after `last`.
pub open spec fn ids_left(last: u32, count: nat) -> bool {
    last + count <= u32::MAX
}

// ------------------------------------------------------------------ instructions
/// The display address of item `id`: the catalog's external address, if it
/// has one, followed by the identifier.
pub open spec fn token_uri(metadata: MetadataView, id: nat) -> Seq<char> {
    match metadata.external_url {
        Some(root) => root + decimal(id),
        None => decimal(id),
    }
}

/// The request to issue item `id` to `owner`.
pub open spec fn mint_msg(metadata: MetadataView, id: nat, owner: Seq<char>) -> MintMsgView {
    MintMsgView {
        token_id: decimal(id),
        owner,
        token_uri: Some(token_uri(metadata, id)),
        extension: Some(metadata),
    }
}

/// One mint instruction for each of `owners`, in their order: the first item
/// gets the identifier after `c`'s last one, each later item the next.
pub open spec fn mints(c: ContractView, owners: Seq<Seq<char>>) -> Seq<InstructionView> {
    Seq::new(
        owners.len(),
        |i: int|
            InstructionView::Mint {
                contract_addr: c.nft_contract,
                msg: mint_msg(c.state.metadata, (c.state.last_token_id + 1 + i) as nat, owners[i]),
            },
    )
}

/// `count` times `owner`.
pub open spec fn repeat(owner: Seq<char>, count: nat) -> Seq<Seq<char>> {
    Seq::new(count, |i: int| owner)
}

// --------------------------------------------------------------------- purchases
/// Why a purchase of `quantity` units is refused, if so: admission first, then
/// stock, then funds, then the identifier range.
pub open spec fn purchase_refusal(c: ContractView, info: MessageInfoView, quantity: u32) -> Option<
    ErrorView,
> {
    if admission_refusal(c.admission, c.whitelist, info.sender, quantity) is Some {
        admission_refusal(c.admission, c.whitelist, info.sender, quantity)
    } else if !in_stock(c.state.total_market_minted, c.state.total_market_supply, quantity as nat) {
        Some(ErrorView::NotEnoughNftLeft)
    } else if !pays(info.funds, c.state.sell_price, quantity as nat) {
        Some(ErrorView::NotEnoughMoneyForNft)
    } else if !ids_left(c.state.last_token_id, quantity as nat) {
        Some(ErrorView::NotEnoughNftLeft)
    } else {
        None
    }
}

/// The state after `info.sender` bought `quantity` units.
pub open spec fn purchased(c: ContractView, info: MessageInfoView, quantity: u32) -> ContractView {
    ContractView {
        state: StateView {
            total_market_minted: (c.state.total_market_minted + quantity) as u32,
            last_token_id: (c.state.last_token_id + quantity) as u32,
            ..c.state
        },
        whitelist: slots_after(c.admission, c.whitelist, info.sender, quantity),
        ..c
    }
}

/// A purchase of `quantity` units from the market pool, answered as `method`.
pub open spec fn purchase(c: ContractView, info: MessageInfoView, quantity: u32, method: Method)
    -> Outcome {
    match purchase_refusal(c, info, quantity) {
        Some(e) => Err(e),
        None => Ok(
            (
                purchased(c, info, quantity),
                ResponseView { messages: mints(c, repeat(info.sender, quantity as nat)), method },
            ),
        ),
    }
}

/// Buying one unit.
pub open spec fn buy(c: ContractView, info: MessageInfoView) -> Outcome {
    purchase(c, info, 1, Method::TryBuy)
}

/// Buying `quantity` units in one call: at most `max_buy_at_once`, which is
/// tested before anything else.
pub open spec fn multi_buy(c: ContractView, info: MessageInfoView, quantity: u32) -> Outcome {
    if quantity > c.state.max_buy_at_once {
        Err(ErrorView::MultiBuyQuantityTooHigh)
    } else {
        purchase(c, info, quantity, Method::TryMultiBuy)
    }
}

// ------------------------------------------------------------------- addresses
/// The host found the `i`-th address well formed. An address without a
/// verdict counts as malformed.
pub open spec fn accepted(verdicts: Seq<bool>, i: int) -> bool {
    0 <= i < verdicts.len() && verdicts[i]
}

/// Each of the first `count` addresses was found well formed.
pub open spec fn all_accepted(count: nat, verdicts: Seq<bool>) -> bool {
    forall|i: int| 0 <= i < count ==> accepted(verdicts, i)
}

/// `i` is the first of `count` addresses that is malformed.
pub open spec fn is_first_rejected(count: nat, verdicts: Seq<bool>, i: int) -> bool {
    &&& 0 <= i < count
    &&& !accepted(verdicts, i)
    &&& forall|j: int| 0 <= j < i ==> accepted(verdicts, j)
}

/// The first malformed address among `names`, if one is.
pub open spec fn first_malformed(names: Seq<Seq<char>>, verdicts: Seq<bool>) -> Option<Seq<char>> {
    if all_accepted(names.len(), verdicts) {
        None
    } else {
        Some(names[choose|i: int| is_first_rejected(names.len(), verdicts, i)])
    }
}

/// The first malformed address is the one at the first rejected position.
pub proof fn lemma_first_malformed(names: Seq<Seq<char>>, verdicts: Seq<bool>, i: int)
    requires
        is_first_rejected(names.len(), verdicts, i),
    ensures
        first_malformed(names, verdicts) == Some(names[i]),
{
    let j = choose|j: int| is_first_rejected(names.len(), verdicts, j);
    assert(is_first_rejected(names.len(), verdicts, j));
    if j < i {
        assert(accepted(verdicts, j));
    }
    if i < j {
        assert(accepted(verdicts, i));
    }
}

// ----------------------------------------------------------------------- airdrop
/// Why an airdrop to `receivers` is refused, if so: the caller's standing,
/// then the reserved stock, then the addresses, then the identifier range.
pub open spec fn airdrop_refusal(
    c: ContractView,
    caller: Seq<char>,
    receivers: Seq<Seq<char>>,
    verdicts: Seq<bool>,
) -> Option<ErrorView> {
    if admin_refusal(c, caller) is Some {
        admin_refusal(c, caller)
    } else if !in_stock(
        c.state.total_reserved_minted,
        c.state.total_reserved_supply,
        receivers.len(),
    ) {
        Some(ErrorView::NotEnoughNftLeft)
    } else if first_malformed(receivers, verdicts) is Some {
        Some(ErrorView::InvalidAddress { address: first_malformed(receivers, verdicts)->0 })
    } else if !ids_left(c.state.last_token_id, receivers.len()) {
        Some(ErrorView::NotEnoughNftLeft)
    } else {
        None
    }
}

/// Handing one unit of the reserved pool to each of `receivers`.
pub open spec fn airdrop(
    c: ContractView,
    caller: Seq<char>,
    receivers: Seq<Seq<char>>,
    verdicts: Seq<bool>,
) -> Outcome {
    match airdrop_refusal(c, caller, receivers, verdicts) {
        Some(e) => Err(e),
        None => Ok(
            (
                ContractView {
                    state: StateView {
                        total_reserved_minted: (c.state.total_reserved_minted
                            + receivers.len()) as u32,
                        last_token_id: (c.state.last_token_id + receivers.len()) as u32,
                        ..c.state
                    },
                    ..c
                },
                ResponseView { messages: mints(c, receivers), method: Method::TryAirdrop },
            ),
        ),
    }
}

// ----------------------------------------------------------------- configuration
/// Paying `amount` out to `wallet`. Maintenance does not stop it.
pub open spec fn withdraw(
    c: ContractView,
    caller: Seq<char>,
    wallet: Seq<char>,
    amount: Seq<CoinView>,
) -> Outcome {
    if !privileged(c, caller) {
        Err(ErrorView::Unauthorized)
    } else {
        Ok(
            (
                c,
                ResponseView {
                    messages: seq![InstructionView::Send { to_address: wallet, amount }],
                    method: Method::TryWithdraw,
                },
            ),
        )
    }
}

/// Opening or closing the sale.
pub open spec fn sell_mode(c: ContractView, caller: Seq<char>, enable: bool) -> Outcome {
    if admin_refusal(c, caller) is Some {
        Err(admin_refusal(c, caller)->0)
    } else {
        match c.admission {
            AdmissionMode::Phased { sell_mode, pre_sell_mode } => done(
                ContractView {
                    admission: AdmissionMode::Phased { sell_mode: enable, pre_sell_mode },
                    ..c
                },
                Method::TrySellMode,
            ),
            AdmissionMode::Maintenance { .. } => Err(ErrorView::ModeUnavailable),
        }
    }
}

/// Opening or closing the presale.
pub open spec fn pre_sell_mode(c: ContractView, caller: Seq<char>, enable: bool) -> Outcome {
    if admin_refusal(c, caller) is Some {
        Err(admin_refusal(c, caller)->0)
    } else {
        match c.admission {
            AdmissionMode::Phased { sell_mode, pre_sell_mode } => done(
                ContractView {
                    admission: AdmissionMode::Phased { sell_mode, pre_sell_mode: enable },
                    ..c
                },
                Method::TryPreSellMode,
            ),
            AdmissionMode::Maintenance { .. } => Err(ErrorView::ModeUnavailable),
        }
    }
}

/// Entering or leaving maintenance. Maintenance itself does not stop it.
pub open spec fn maintenance_mode(c: ContractView, caller: Seq<char>, enable: bool) -> Outcome {
    if !privileged(c, caller) {
        Err(ErrorView::Unauthorized)
    } else {
        match c.admission {
            AdmissionMode::Maintenance { .. } => done(
                ContractView { admission: AdmissionMode::Maintenance { enabled: enable }, ..c },
                Method::TryMaintenanceMode,
            ),
            AdmissionMode::Phased { .. } => Err(ErrorView::ModeUnavailable),
        }
    }
}

/// Applying allowlist assignments, all or none.
pub open spec fn update_whitelist(
    c: ContractView,
    caller: Seq<char>,
    entries: Seq<WhiteListEntryView>,
    verdicts: Seq<bool>,
) -> Outcome {
    if admin_refusal(c, caller) is Some {
        Err(admin_refusal(c, caller)->0)
    } else if first_malformed(addresses(entries), verdicts) is Some {
        Err(ErrorView::InvalidAddress { address: first_malformed(addresses(entries), verdicts)->0 })
    } else {
        done(
            ContractView { whitelist: assign_all(c.whitelist, entries), ..c },
            Method::TryUpdateWhitelist,
        )
    }
}

/// Setting the unit price.
pub open spec fn update_price(c: ContractView, caller: Seq<char>, price: CoinView) -> Outcome {
    if admin_refusal(c, caller) is Some {
        Err(admin_refusal(c, caller)->0)
    } else {
        done(
            ContractView { state: StateView { sell_price: price, ..c.state }, ..c },
            Method::UpdatePrice,
        )
    }
}

/// Setting both caps. Caps below what a pool has handed out are refused.
pub open spec fn update_supply(
    c: ContractView,
    caller: Seq<char>,
    reserved_supply: u32,
    market_supply: u32,
) -> Outcome {
    if admin_refusal(c, caller) is Some {
        Err(admin_refusal(c, caller)->0)
    } else if c.state.total_market_minted > market_supply || c.state.total_reserved_minted
        > reserved_supply {
        Err(ErrorView::NotEnoughNftLeft)
    } else {
        done(
            ContractView {
                state: StateView {
                    total_market_supply: market_supply,
                    total_reserved_supply: reserved_supply,
                    ..c.state
                },
                ..c
            },
            Method::UpdateSupply,
        )
    }
}

/// Replacing the catalog record.
pub open spec fn update_metadata(c: ContractView, caller: Seq<char>, metadata: MetadataView)
    -> Outcome {
    if admin_refusal(c, caller) is Some {
        Err(admin_refusal(c, caller)->0)
    } else {
        done(
            ContractView { state: StateView { metadata, ..c.state }, ..c },
            Method::UpdateMetadata,
        )
    }
}

/// Naming the minting contract.
pub open spec fn update_nft_contract(
    c: ContractView,
    caller: Seq<char>,
    address: Seq<char>,
    well_formed: bool,
) -> Outcome {
    if admin_refusal(c, caller) is Some {
        Err(admin_refusal(c, caller)->0)
    } else if !well_formed {
        Err(ErrorView::InvalidAddress { address })
    } else {
        done(ContractView { nft_contract: address, ..c }, Method::UpdateNftContract)
    }
}

/// Making `address` an admin.
pub open spec fn add_admin(
    c: ContractView,
    caller: Seq<char>,
    address: Seq<char>,
    well_formed: bool,
) -> Outcome {
    if admin_refusal(c, caller) is Some {
        Err(admin_refusal(c, caller)->0)
    } else if !well_formed {
        Err(ErrorView::InvalidAddress { address })
    } else if c.admins.contains(address) {
        Err(ErrorView::AddressAlreadyRegistered { address })
    } else {
        done(ContractView { admins: c.admins.insert(address), ..c }, Method::AddAdmin)
    }
}

/// Taking the admin role from `address`.
pub open spec fn remove_admin(
    c: ContractView,
    caller: Seq<char>,
    address: Seq<char>,
    well_formed: bool,
) -> Outcome {
    if admin_refusal(c, caller) is Some {
        Err(admin_refusal(c, caller)->0)
    } else if !well_formed {
        Err(ErrorView::InvalidAddress { address })
    } else if !c.admins.contains(address) {
        Err(ErrorView::AddressNotFound { address })
    } else {
        done(ContractView { admins: c.admins.remove(address), ..c }, Method::RemoveAdmin)
    }
}

// ---------------------------------------------------------------------- creation
/// The engine as it is created for `owner`: nothing in stock, nothing issued,
/// a price of zero, no admin, no allowlist entry, no minting contract.
pub open spec fn created(owner: Seq<char>, admission: AdmissionMode, max_buy_at_once: u32)
    -> ContractView {
    ContractView {
        state: StateView {
            total_market_supply: 0,
            total_reserved_supply: 0,
            total_market_minted: 0,
            total_reserved_minted: 0,
            max_buy_at_once,
            last_token_id: 0,
            sell_price: CoinView { denom: "ujuno"@, amount: 0 },
            metadata: crate::metadata::empty_metadata(),
        },
        owner,
        admins: Set::empty(),
        nft_contract: crate::state::unset_contract(),
        admission,
        whitelist: Map::empty(),
    }
}

// ---------------------------------------------------------------------- dispatch
/// The addresses in `msg` on which the host's finding is wanted, in the order
/// in which `execute` reads the verdicts.
pub open spec fn named_addresses(msg: ExecuteMsgView) -> Seq<Seq<char>> {
    match msg {
        ExecuteMsgView::Airdrop { receivers } => receivers,
        ExecuteMsgView::AddToWhitelist { entries } => addresses(entries),
        ExecuteMsgView::UpdateNftContract { address } => seq![address],
        ExecuteMsgView::RemoveAdmin { address } => seq![address],
        ExecuteMsgView::AddAdmin { address } => seq![address],
        _ => Seq::empty(),
    }
}

/// What `msg` from `info.sender` does to `c`. `verdicts` holds the host's
/// findings on the addresses that `msg` names, in their order.
pub open spec fn execute(
    c: ContractView,
    info: MessageInfoView,
    msg: ExecuteMsgView,
    verdicts: Seq<bool>,
) -> Outcome {
    match msg {
        ExecuteMsgView::Buy => buy(c, info),
        ExecuteMsgView::MultiBuy { quantity } => multi_buy(c, info, quantity),
        ExecuteMsgView::Airdrop { receivers } => airdrop(c, info.sender, receivers, verdicts),
        ExecuteMsgView::Withdraw { wallet, coin } => withdraw(c, info.sender, wallet, coin),
        ExecuteMsgView::PreSellMode { enable } => pre_sell_mode(c, info.sender, enable),
        ExecuteMsgView::SellMode { enable } => sell_mode(c, info.sender, enable),
        ExecuteMsgView::MaintenanceMode { enable } => maintenance_mode(c, info.sender, enable),
        ExecuteMsgView::AddToWhitelist { entries } => update_whitelist(
            c,
            info.sender,
            entries,
            verdicts,
        ),
        ExecuteMsgView::UpdatePrice { price } => update_price(c, info.sender, price),
        ExecuteMsgView::UpdateSupply { reserved_supply, market_supply } => update_supply(
            c,
            info.sender,
            reserved_supply,
            market_supply,
        ),
        ExecuteMsgView::UpdateMetadata { metadata } => update_metadata(c, info.sender, metadata),
        ExecuteMsgView::UpdateNftContract { address } => update_nft_contract(
            c,
            info.sender,
            address,
            accepted(verdicts, 0),
        ),
        ExecuteMsgView::RemoveAdmin { address } => remove_admin(
            c,
            info.sender,
            address,
            accepted(verdicts, 0),
        ),
        ExecuteMsgView::AddAdmin { address } => add_admin(
            c,
            info.sender,
            address,
            accepted(verdicts, 0),
        ),
    }
}

// --------------------------------------------------------------------- histories
/// One call of the engine.
pub struct Call {
    pub info: MessageInfoView,
    pub msg: ExecuteMsgView,
    pub verdicts: Seq<bool>,
}

/// The state that `call` leaves of `c`.
pub open spec fn step(c: ContractView, call: Call) -> ContractView {
    state_after(c, execute(c, call.info, call.msg, call.verdicts))
}

/// The state after `calls`, one after the other, from `c`.
pub open spec fn run(c: ContractView, calls: Seq<Call>) -> ContractView
    decreases calls.len(),
{
    if calls.len() == 0 {
        c
    } else {
        step(run(c, calls.drop_last()), calls.last())
    }
}

/// The identifiers that lie after the counter of `c` and up to that of
/// `next`, in increasing order: those that a step from `c` to `next` issued.
pub open spec fn issued(c: ContractView, next: ContractView) -> Seq<nat> {
    Seq::new(
        if next.state.last_token_id >= c.state.last_token_id {
            (next.state.last_token_id - c.state.last_token_id) as nat
        } else {
            0
        },
        |i: int| (c.state.last_token_id + 1 + i) as nat,
    )
}

/// The identifiers that the `k`-th of `calls` issued, in a history that starts from `c`.
pub open spec fn issued_at(c: ContractView, calls: Seq<Call>, k: int) -> Seq<nat> {
    issued(run(c, calls.take(k)), run(c, calls.take(k + 1)))
}

} // verus!
