//! The operations that change an engine, each proved against its outcome in
//! [`crate::model`]. A refused operation leaves the engine exactly as it was.

use crate::coin::{funds_pay, Coin};
use crate::error::{ContractError, ErrorView};
use crate::metadata::Metadata;
use crate::model;
use crate::model::Outcome;
use crate::msg::{
    instructions_view, ExecuteMsg, Instruction, InstructionView, MessageInfo, Method, MintMsg,
    Response,
};
use crate::state::{AdmissionMode, Contract, ContractView, State};
use crate::text::{decimal_string, join, texts_view};
use crate::whitelist::{addresses, entries_view, WhiteListEntry};
use vstd::prelude::*;

verus! {

/// The outcome that a caller observes: the engine after the call with the
/// response, or the refusal.
pub open spec fn observed(after: ContractView, res: Result<Response, ContractError>) -> Outcome {
    match res {
        Ok(r) => Ok((after, r@)),
        Err(e) => Err(e@),
    }
}

/// What a caller of the admission gate observes: the engine after the call,
/// or the refusal.
pub open spec fn passed(after: ContractView, res: Result<(), ContractError>) -> Result<
    ContractView,
    ErrorView,
> {
    match res {
        Ok(_) => Ok(after),
        Err(e) => Err(e@),
    }
}

/// The refusal that a result carries, if it is one.
pub open spec fn refusal<T>(res: Result<T, ContractError>) -> Option<ErrorView> {
    match res {
        Ok(_) => None,
        Err(e) => Some(e@),
    }
}

// ---------------------------------------------------------------------- guards
/// Passes the owner and every admin; anyone else is `Unauthorized`.
pub fn is_admin_or_owner(contract: &Contract, info: MessageInfo) -> (res: Result<
    (),
    ContractError,
>)
    ensures
        refusal(res) == (if model::privileged(contract@, info.sender@) {
            None
        } else {
            Some(ErrorView::Unauthorized)
        }),
{
    if contract.owner != info.sender {
        if !contract.admins.contains(&info.sender) {
            return Err(ContractError::Unauthorized {  });
        }
    }
    Ok(())
}

/// Stops with `InMaintenance` while the maintenance switch is on.
pub fn is_in_maintenance(contract: &Contract) -> (res: Result<(), ContractError>)
    ensures
        refusal(res) == (if model::in_maintenance(contract@) {
            Some(ErrorView::InMaintenance)
        } else {
            None
        }),
{
    match contract.admission {
        AdmissionMode::Maintenance { enabled } => {
            if enabled {
                return Err(ContractError::InMaintenance {  });
            }
        },
        AdmissionMode::Phased { .. } => {},
    }
    Ok(())
}

/// The guard of every admin operation: maintenance first, then the caller's role.
fn admin_gate(contract: &Contract, info: MessageInfo) -> (res: Result<(), ContractError>)
    ensures
        refusal(res) == model::admin_refusal(contract@, info.sender@),
{
    match is_in_maintenance(contract) {
        Ok(()) => is_admin_or_owner(contract, info),
        Err(e) => Err(e),
    }
}

/// Passes while the market pool is within its cap.
pub fn is_market_nft_available(state: &State) -> (res: Result<(), ContractError>)
    ensures
        refusal(res) == (if state.total_market_minted > state.total_market_supply {
            Some(ErrorView::NotEnoughNftLeft)
        } else {
            None
        }),
{
    if state.total_market_minted > state.total_market_supply {
        return Err(ContractError::NotEnoughNftLeft {  });
    }
    Ok(())
}

/// Passes while the reserved pool is within its cap.
pub fn is_reserved_nft_available(state: &State) -> (res: Result<(), ContractError>)
    ensures
        refusal(res) == (if state.total_reserved_minted > state.total_reserved_supply {
            Some(ErrorView::NotEnoughNftLeft)
        } else {
            None
        }),
{
    if state.total_reserved_minted > state.total_reserved_supply {
        return Err(ContractError::NotEnoughNftLeft {  });
    }
    Ok(())
}

/// Passes a quantity that one call may buy.
pub fn is_multi_buy_quantity_too_big(quantity: u32, state: &State) -> (res: Result<
    (),
    ContractError,
>)
    ensures
        refusal(res) == (if quantity > state.max_buy_at_once {
            Some(ErrorView::MultiBuyQuantityTooHigh)
        } else {
            None
        }),
{
    if quantity > state.max_buy_at_once {
        return Err(ContractError::MultiBuyQuantityTooHigh {  });
    }
    Ok(())
}

/// The minted count of a pool after `count` more units, if they fit under its cap.
pub fn reserve_units(minted: u32, supply: u32, count: usize) -> (res: Result<u32, ContractError>)
    ensures
        match res {
            Ok(m) => model::in_stock(minted, supply, count as nat) && m == minted + count,
            Err(e) => !model::in_stock(minted, supply, count as nat) && e@
                == ErrorView::NotEnoughNftLeft,
        },
{
    if minted <= supply && count <= (supply - minted) as usize {
        Ok(minted + count as u32)
    } else {
        Err(ContractError::NotEnoughNftLeft {  })
    }
}

/// The identifier counter after `count` more items, if the range holds them.
pub fn issue_ids(last: u32, count: usize) -> (res: Result<u32, ContractError>)
    ensures
        match res {
            Ok(l) => model::ids_left(last, count as nat) && l == last + count,
            Err(e) => !model::ids_left(last, count as nat) && e@ == ErrorView::NotEnoughNftLeft,
        },
{
    if count <= (u32::MAX - last) as usize {
        Ok(last + count as u32)
    } else {
        Err(ContractError::NotEnoughNftLeft {  })
    }
}

// ------------------------------------------------------------------- admission
/// The admission gate without its effect: on admission, the slots that the
/// caller keeps if the purchase draws on the allowlist.
fn admission_check(contract: &Contract, sender: &String, units: u32) -> (res: Result<
    Option<u32>,
    ContractError,
>)
    ensures
        refusal(res) == model::admission_refusal(
            contract.admission,
            contract.whitelist@,
            sender@,
            units,
        ),
        res matches Ok(left) ==> left == (if model::presale_only(contract.admission) {
            Some((contract.whitelist@[sender@] - units) as u32)
        } else {
            None
        }),
{
    match contract.admission {
        AdmissionMode::Maintenance { enabled } => {
            if enabled {
                Err(ContractError::InMaintenance {  })
            } else {
                Ok(None)
            }
        },
        AdmissionMode::Phased { sell_mode, pre_sell_mode } => {
            if sell_mode {
                Ok(None)
            } else if !pre_sell_mode {
                Err(ContractError::SellClose {  })
            } else {
                match contract.whitelist.slots(sender) {
                    None => Err(ContractError::AddressNotWhitelisted {  }),
                    Some(nb_slot) => {
                        if nb_slot < units {
                            Err(ContractError::NoSlotAvailableLeft {  })
                        } else {
                            Ok(Some(nb_slot - units))
                        }
                    },
                }
            }
        },
    }
}

/// The admission gate: decides whether `info.sender` may buy `nb_to_buy`
/// units now and, during a presale alone, takes them from the sender's slots.
pub fn is_sell_available(contract: &mut Contract, info: &MessageInfo, nb_to_buy: u32) -> (res:
    Result<(), ContractError>)
    ensures
        passed(final(contract)@, res) == model::gate(old(contract)@, info.sender@, nb_to_buy),
        res is Err ==> *final(contract) == *old(contract),
{
    match admission_check(contract, &info.sender, nb_to_buy) {
        Err(e) => Err(e),
        Ok(left) => {
            match left {
                Some(nb_slot) => {
                    contract.whitelist.set(info.sender.clone(), nb_slot);
                },
                None => {},
            }
            Ok(())
        },
    }
}

// ----------------------------------------------------------------- instructions
/// The request to issue item `nft_id` to `addr` with the catalog record of `state`.
pub fn mint_helper(nft_id: u32, addr: String, state: &State) -> (msg: MintMsg)
    ensures
        msg@ == model::mint_msg(state.metadata@, nft_id as nat, addr@),
{
    let token_id = decimal_string(nft_id);
    let token_uri = match &state.metadata.external_url {
        Some(root) => join(root.as_str(), token_id.as_str()),
        None => token_id.clone(),
    };
    MintMsg {
        token_id,
        owner: addr,
        token_uri: Some(token_uri),
        extension: Some(state.metadata.duplicate()),
    }
}

/// Mint instructions for `owners`, in their order, with the identifiers that
/// follow the engine's last one.
fn mint_all(contract: &Contract, owners: &Vec<String>) -> (messages: Vec<Instruction>)
    requires
        model::ids_left(contract.state.last_token_id, owners@.len()),
    ensures
        instructions_view(messages@) == model::mints(contract@, texts_view(owners@)),
{
    let mut messages: Vec<Instruction> = Vec::new();
    let mut i: usize = 0;
    while i < owners.len()
        invariant
            i <= owners@.len(),
            messages@.len() == i,
            model::ids_left(contract.state.last_token_id, owners@.len()),
            forall|k: int|
                0 <= k < i ==> (#[trigger] messages@[k])@ == model::mints(
                    contract@,
                    texts_view(owners@),
                )[k],
        decreases owners@.len() - i,
    {
        let id: u32 = contract.state.last_token_id + 1 + i as u32;
        let msg = mint_helper(id, owners[i].clone(), &contract.state);
        messages.push(Instruction::Mint { contract_addr: contract.nft_contract.clone(), msg });
        i += 1;
    }
    assert(instructions_view(messages@) =~= model::mints(contract@, texts_view(owners@)));
    messages
}

/// `count` copies of `owner`.
fn repeated(owner: &String, count: u32) -> (owners: Vec<String>)
    ensures
        texts_view(owners@) == model::repeat(owner@, count as nat),
{
    let mut owners: Vec<String> = Vec::new();
    let mut i: u32 = 0;
    while i < count
        invariant
            i <= count,
            owners@.len() == i,
            forall|k: int| 0 <= k < i ==> (#[trigger] owners@[k])@ == owner@,
        decreases count - i,
    {
        owners.push(owner.clone());
        i += 1;
    }
    assert(texts_view(owners@) =~= model::repeat(owner@, count as nat));
    owners
}

// -------------------------------------------------------------------- purchases
/// A purchase of `quantity` units from the market pool.
fn purchase(contract: &mut Contract, info: MessageInfo, quantity: u32, method: Method) -> (res:
    Result<Response, ContractError>)
    ensures
        observed(final(contract)@, res) == model::purchase(
            old(contract)@,
            info@,
            quantity,
            method,
        ),
        res is Err ==> *final(contract) == *old(contract),
{
    let left = match admission_check(contract, &info.sender, quantity) {
        Ok(left) => left,
        Err(e) => {
            return Err(e);
        },
    };
    let minted = match reserve_units(
        contract.state.total_market_minted,
        contract.state.total_market_supply,
        quantity as usize,
    ) {
        Ok(minted) => minted,
        Err(e) => {
            return Err(e);
        },
    };
    if !funds_pay(&info.funds, &contract.state.sell_price, quantity) {
        return Err(ContractError::NotEnoughMoneyForNft {  });
    }
    let last = match issue_ids(contract.state.last_token_id, quantity as usize) {
        Ok(last) => last,
        Err(e) => {
            return Err(e);
        },
    };
    let owners = repeated(&info.sender, quantity);
    let messages = mint_all(contract, &owners);
    contract.state.total_market_minted = minted;
    contract.state.last_token_id = last;
    match left {
        Some(nb_slot) => {
            contract.whitelist.set(info.sender, nb_slot);
        },
        None => {},
    }
    Ok(Response { messages, method })
}

/// Buys one unit for `info.sender`.
pub fn try_buy(contract: &mut Contract, info: MessageInfo) -> (res: Result<Response, ContractError>)
    ensures
        observed(final(contract)@, res) == model::buy(old(contract)@, info@),
        res is Err ==> *final(contract) == *old(contract),
{
    purchase(contract, info, 1, Method::TryBuy)
}

/// Buys `quantity` units for `info.sender` in one call.
pub fn try_multi_buy(contract: &mut Contract, info: MessageInfo, quantity: u32) -> (res: Result<
    Response,
    ContractError,
>)
    ensures
        observed(final(contract)@, res) == model::multi_buy(old(contract)@, info@, quantity),
        res is Err ==> *final(contract) == *old(contract),
{
    match is_multi_buy_quantity_too_big(quantity, &contract.state) {
        Ok(()) => purchase(contract, info, quantity, Method::TryMultiBuy),
        Err(e) => Err(e),
    }
}

// ------------------------------------------------------------------- addresses
/// Whether the host found the `i`-th address well formed.
fn verdict_at(verdicts: &Vec<bool>, i: usize) -> (found: bool)
    ensures
        found == model::accepted(verdicts@, i as int),
{
    i < verdicts.len() && verdicts[i]
}

/// The position of the first malformed address among `count`, if one is.
fn first_rejected(count: usize, verdicts: &Vec<bool>) -> (at: Option<usize>)
    ensures
        match at {
            Some(i) => model::is_first_rejected(count as nat, verdicts@, i as int),
            None => model::all_accepted(count as nat, verdicts@),
        },
{
    let mut i: usize = 0;
    while i < count
        invariant
            i <= count,
            forall|j: int| 0 <= j < i ==> model::accepted(verdicts@, j),
        decreases count - i,
    {
        if !verdict_at(verdicts, i) {
            return Some(i);
        }
        i += 1;
    }
    None
}

/// Passes a list of addresses that the host found well formed, each of them;
/// otherwise names the first that is not. `verdicts` holds the host's
/// findings in the order of `receiver`.
pub fn is_addresses_valid(receiver: &Vec<String>, verdicts: &Vec<bool>) -> (res: Result<
    (),
    ContractError,
>)
    ensures
        refusal(res) == (match model::first_malformed(texts_view(receiver@), verdicts@) {
            Some(address) => Some(ErrorView::InvalidAddress { address }),
            None => None,
        }),
{
    match first_rejected(receiver.len(), verdicts) {
        Some(i) => {
            proof {
                model::lemma_first_malformed(texts_view(receiver@), verdicts@, i as int);
            }
            Err(ContractError::InvalidAddress { address: receiver[i].clone() })
        },
        None => Ok(()),
    }
}

// ---------------------------------------------------------------------- airdrop
/// Hands one unit of the reserved pool to each of `receiver`, in their order.
pub fn try_airdrop(
    contract: &mut Contract,
    info: MessageInfo,
    receiver: Vec<String>,
    verdicts: &Vec<bool>,
) -> (res: Result<Response, ContractError>)
    ensures
        observed(final(contract)@, res) == model::airdrop(
            old(contract)@,
            info.sender@,
            texts_view(receiver@),
            verdicts@,
        ),
        res is Err ==> *final(contract) == *old(contract),
{
    match admin_gate(contract, info) {
        Ok(()) => {},
        Err(e) => {
            return Err(e);
        },
    }
    let minted = match reserve_units(
        contract.state.total_reserved_minted,
        contract.state.total_reserved_supply,
        receiver.len(),
    ) {
        Ok(minted) => minted,
        Err(e) => {
            return Err(e);
        },
    };
    match is_addresses_valid(&receiver, verdicts) {
        Ok(()) => {},
        Err(e) => {
            return Err(e);
        },
    }
    let last = match issue_ids(contract.state.last_token_id, receiver.len()) {
        Ok(last) => last,
        Err(e) => {
            return Err(e);
        },
    };
    let messages = mint_all(contract, &receiver);
    contract.state.total_reserved_minted = minted;
    contract.state.last_token_id = last;
    Ok(Response { messages, method: Method::TryAirdrop })
}

// ---------------------------------------------------------------- configuration
/// Pays `coin` out to `wallet`.
pub fn try_withdraw(contract: &Contract, info: MessageInfo, wallet: String, coin: Vec<Coin>) -> (res:
    Result<Response, ContractError>)
    ensures
        observed(contract@, res) == model::withdraw(
            contract@,
            info.sender@,
            wallet@,
            crate::coin::coins_view(coin@),
        ),
{
    match is_admin_or_owner(contract, info) {
        Ok(()) => {},
        Err(e) => {
            return Err(e);
        },
    }
    let mut messages: Vec<Instruction> = Vec::new();
    messages.push(Instruction::Send { to_address: wallet, amount: coin });
    let response = Response { messages, method: Method::TryWithdraw };
    assert(response@.messages =~= seq![
        InstructionView::Send { to_address: wallet@, amount: crate::coin::coins_view(coin@) },
    ]);
    Ok(response)
}

/// Opens or closes the sale.
pub fn try_sell_mode(contract: &mut Contract, info: MessageInfo, enable: bool) -> (res: Result<
    Response,
    ContractError,
>)
    ensures
        observed(final(contract)@, res) == model::sell_mode(old(contract)@, info.sender@, enable),
        res is Err ==> *final(contract) == *old(contract),
{
    match admin_gate(contract, info) {
        Ok(()) => {},
        Err(e) => {
            return Err(e);
        },
    }
    match contract.admission {
        AdmissionMode::Phased { sell_mode: _, pre_sell_mode } => {
            contract.admission = AdmissionMode::Phased { sell_mode: enable, pre_sell_mode };
            Ok(Response::new(Method::TrySellMode))
        },
        AdmissionMode::Maintenance { .. } => Err(ContractError::ModeUnavailable {  }),
    }
}

/// Opens or closes the presale.
pub fn try_pre_sell_mode(contract: &mut Contract, info: MessageInfo, enable: bool) -> (res: Result<
    Response,
    ContractError,
>)
    ensures
        observed(final(contract)@, res) == model::pre_sell_mode(
            old(contract)@,
            info.sender@,
            enable,
        ),
        res is Err ==> *final(contract) == *old(contract),
{
    match admin_gate(contract, info) {
        Ok(()) => {},
        Err(e) => {
            return Err(e);
        },
    }
    match contract.admission {
        AdmissionMode::Phased { sell_mode, pre_sell_mode: _ } => {
            contract.admission = AdmissionMode::Phased { sell_mode, pre_sell_mode: enable };
            Ok(Response::new(Method::TryPreSellMode))
        },
        AdmissionMode::Maintenance { .. } => Err(ContractError::ModeUnavailable {  }),
    }
}

/// Enters or leaves maintenance.
pub fn try_maintenance_mode(contract: &mut Contract, info: MessageInfo, enable: bool) -> (res:
    Result<Response, ContractError>)
    ensures
        observed(final(contract)@, res) == model::maintenance_mode(
            old(contract)@,
            info.sender@,
            enable,
        ),
        res is Err ==> *final(contract) == *old(contract),
{
    match is_admin_or_owner(contract, info) {
        Ok(()) => {},
        Err(e) => {
            return Err(e);
        },
    }
    match contract.admission {
        AdmissionMode::Maintenance { .. } => {
            contract.admission = AdmissionMode::Maintenance { enabled: enable };
            Ok(Response::new(Method::TryMaintenanceMode))
        },
        AdmissionMode::Phased { .. } => Err(ContractError::ModeUnavailable {  }),
    }
}

/// Applies the allowlist assignments of `entries` in order, all or none.
/// `verdicts` holds the host's findings on their addresses, in the same order.
pub fn try_update_whitelist(
    contract: &mut Contract,
    info: MessageInfo,
    entries: Vec<WhiteListEntry>,
    verdicts: &Vec<bool>,
) -> (res: Result<Response, ContractError>)
    ensures
        observed(final(contract)@, res) == model::update_whitelist(
            old(contract)@,
            info.sender@,
            entries_view(entries@),
            verdicts@,
        ),
        res is Err ==> *final(contract) == *old(contract),
{
    match admin_gate(contract, info) {
        Ok(()) => {},
        Err(e) => {
            return Err(e);
        },
    }
    let ghost names = addresses(entries_view(entries@));
    match first_rejected(entries.len(), verdicts) {
        Some(i) => {
            proof {
                model::lemma_first_malformed(names, verdicts@, i as int);
            }
            return Err(ContractError::InvalidAddress { address: entries[i].address.clone() });
        },
        None => {},
    }
    let ghost before = contract@;
    let mut i: usize = 0;
    while i < entries.len()
        invariant
            i <= entries@.len(),
            contract@ == (ContractView {
                whitelist: crate::whitelist::assign_all(
                    before.whitelist,
                    entries_view(entries@).take(i as int),
                ),
                ..before
            }),
        decreases entries@.len() - i,
    {
        contract.whitelist.set(entries[i].address.clone(), entries[i].nb_slots);
        proof {
            let all = entries_view(entries@);
            assert(all.take(i + 1).drop_last() =~= all.take(i as int));
        }
        i += 1;
    }
    assert(entries_view(entries@).take(i as int) =~= entries_view(entries@));
    Ok(Response::new(Method::TryUpdateWhitelist))
}

/// Sets the unit price.
pub fn update_price(contract: &mut Contract, info: MessageInfo, price: Coin) -> (res: Result<
    Response,
    ContractError,
>)
    ensures
        observed(final(contract)@, res) == model::update_price(
            old(contract)@,
            info.sender@,
            price@,
        ),
        res is Err ==> *final(contract) == *old(contract),
{
    match admin_gate(contract, info) {
        Ok(()) => {},
        Err(e) => {
            return Err(e);
        },
    }
    contract.state.sell_price = price;
    Ok(Response::new(Method::UpdatePrice))
}

/// Sets the caps of both pools, unless a pool has handed out more already.
pub fn update_supply(
    contract: &mut Contract,
    info: MessageInfo,
    reserved_supply: u32,
    market_supply: u32,
) -> (res: Result<Response, ContractError>)
    ensures
        observed(final(contract)@, res) == model::update_supply(
            old(contract)@,
            info.sender@,
            reserved_supply,
            market_supply,
        ),
        res is Err ==> *final(contract) == *old(contract),
{
    match admin_gate(contract, info) {
        Ok(()) => {},
        Err(e) => {
            return Err(e);
        },
    }
    let previous_market = contract.state.total_market_supply;
    let previous_reserved = contract.state.total_reserved_supply;
    contract.state.total_market_supply = market_supply;
    contract.state.total_reserved_supply = reserved_supply;
    let fits = match is_market_nft_available(&contract.state) {
        Ok(()) => is_reserved_nft_available(&contract.state),
        Err(e) => Err(e),
    };
    match fits {
        Ok(()) => Ok(Response::new(Method::UpdateSupply)),
        Err(e) => {
            contract.state.total_market_supply = previous_market;
            contract.state.total_reserved_supply = previous_reserved;
            Err(e)
        },
    }
}

/// Replaces the catalog record.
pub fn update_metadata(contract: &mut Contract, info: MessageInfo, metadata: Metadata) -> (res:
    Result<Response, ContractError>)
    ensures
        observed(final(contract)@, res) == model::update_metadata(
            old(contract)@,
            info.sender@,
            metadata@,
        ),
        res is Err ==> *final(contract) == *old(contract),
{
    match admin_gate(contract, info) {
        Ok(()) => {},
        Err(e) => {
            return Err(e);
        },
    }
    contract.state.metadata = metadata;
    Ok(Response::new(Method::UpdateMetadata))
}

/// Names the minting contract. `well_formed` is the host's finding on `address`.
pub fn update_nft_contract(
    contract: &mut Contract,
    info: MessageInfo,
    address: String,
    well_formed: bool,
) -> (res: Result<Response, ContractError>)
    ensures
        observed(final(contract)@, res) == model::update_nft_contract(
            old(contract)@,
            info.sender@,
            address@,
            well_formed,
        ),
        res is Err ==> *final(contract) == *old(contract),
{
    match admin_gate(contract, info) {
        Ok(()) => {},
        Err(e) => {
            return Err(e);
        },
    }
    if !well_formed {
        return Err(ContractError::InvalidAddress { address });
    }
    contract.nft_contract = address;
    Ok(Response::new(Method::UpdateNftContract))
}

/// Takes the admin role from `address`. `well_formed` is the host's finding on it.
pub fn remove_admin(contract: &mut Contract, info: MessageInfo, address: String, well_formed: bool)
    -> (res: Result<Response, ContractError>)
    ensures
        observed(final(contract)@, res) == model::remove_admin(
            old(contract)@,
            info.sender@,
            address@,
            well_formed,
        ),
        res is Err ==> *final(contract) == *old(contract),
{
    match admin_gate(contract, info) {
        Ok(()) => {},
        Err(e) => {
            return Err(e);
        },
    }
    if !well_formed {
        return Err(ContractError::InvalidAddress { address });
    }
    if !contract.admins.contains(&address) {
        return Err(ContractError::AddressNotFound { address });
    }
    contract.admins.remove(&address);
    Ok(Response::new(Method::RemoveAdmin))
}

/// Makes `address` an admin. `well_formed` is the host's finding on it.
pub fn add_admin(contract: &mut Contract, info: MessageInfo, address: String, well_formed: bool)
    -> (res: Result<Response, ContractError>)
    ensures
        observed(final(contract)@, res) == model::add_admin(
            old(contract)@,
            info.sender@,
            address@,
            well_formed,
        ),
        res is Err ==> *final(contract) == *old(contract),
{
    match admin_gate(contract, info) {
        Ok(()) => {},
        Err(e) => {
            return Err(e);
        },
    }
    if !well_formed {
        return Err(ContractError::InvalidAddress { address });
    }
    if contract.admins.contains(&address) {
        return Err(ContractError::AddressAlreadyRegistered { address });
    }
    contract.admins.insert(address);
    Ok(Response::new(Method::AddAdmin))
}

// --------------------------------------------------------------------- dispatch
/// The addresses in `msg` that the host has to look at before [`_execute`]
/// is called: the verdicts are expected in this order.
pub fn named_addresses(msg: &ExecuteMsg) -> (names: Vec<String>)
    ensures
        texts_view(names@) == model::named_addresses(msg@),
{
    let mut names: Vec<String> = Vec::new();
    match msg {
        ExecuteMsg::Airdrop { receivers } => {
            let mut i: usize = 0;
            while i < receivers.len()
                invariant
                    i <= receivers@.len(),
                    names@.len() == i,
                    forall|k: int| 0 <= k < i ==> (#[trigger] names@[k])@ == receivers@[k]@,
                decreases receivers@.len() - i,
            {
                names.push(receivers[i].clone());
                i += 1;
            }
            assert(texts_view(names@) =~= texts_view(receivers@));
        },
        ExecuteMsg::AddToWhitelist { entries } => {
            let mut i: usize = 0;
            while i < entries.len()
                invariant
                    i <= entries@.len(),
                    names@.len() == i,
                    forall|k: int| 0 <= k < i ==> (#[trigger] names@[k])@ == entries@[k].address@,
                decreases entries@.len() - i,
            {
                names.push(entries[i].address.clone());
                i += 1;
            }
            assert(texts_view(names@) =~= addresses(entries_view(entries@)));
        },
        ExecuteMsg::UpdateNftContract { address } => {
            names.push(address.clone());
            assert(texts_view(names@) =~= seq![address@]);
        },
        ExecuteMsg::RemoveAdmin { address } => {
            names.push(address.clone());
            assert(texts_view(names@) =~= seq![address@]);
        },
        ExecuteMsg::AddAdmin { address } => {
            names.push(address.clone());
            assert(texts_view(names@) =~= seq![address@]);
        },
        _ => {
            assert(texts_view(names@) =~= Seq::<Seq<char>>::empty());
        },
    }
    names
}

/// Carries out `msg` for `info.sender`. `verdicts` holds the host's findings
/// on the addresses that `msg` names, in their order; an address without a
/// verdict counts as malformed.
pub fn _execute(contract: &mut Contract, info: MessageInfo, msg: ExecuteMsg, verdicts: &Vec<bool>)
    -> (res: Result<Response, ContractError>)
    ensures
        observed(final(contract)@, res) == model::execute(old(contract)@, info@, msg@, verdicts@),
        res is Err ==> *final(contract) == *old(contract),
        old(contract)@.state.within_caps() ==> final(contract)@.state.within_caps(),
{
    proof {
        if contract@.state.within_caps() {
            crate::laws::lemma_call_keeps_caps(contract@, info@, msg@, verdicts@);
        }
    }
    match msg {
        ExecuteMsg::Buy {  } => try_buy(contract, info),
        ExecuteMsg::MultiBuy { quantity } => try_multi_buy(contract, info, quantity),
        ExecuteMsg::Airdrop { receivers } => try_airdrop(contract, info, receivers, verdicts),
        ExecuteMsg::Withdraw { wallet, coin } => try_withdraw(contract, info, wallet, coin),
        ExecuteMsg::PreSellMode { enable } => try_pre_sell_mode(contract, info, enable),
        ExecuteMsg::SellMode { enable } => try_sell_mode(contract, info, enable),
        ExecuteMsg::MaintenanceMode { enable } => try_maintenance_mode(contract, info, enable),
        ExecuteMsg::AddToWhitelist { entries } => try_update_whitelist(
            contract,
            info,
            entries,
            verdicts,
        ),
        ExecuteMsg::UpdatePrice { price } => update_price(contract, info, price),
        ExecuteMsg::UpdateSupply { reserved_supply, market_supply } => update_supply(
            contract,
            info,
            reserved_supply,
            market_supply,
        ),
        ExecuteMsg::UpdateMetadata { metadata } => update_metadata(contract, info, metadata),
        ExecuteMsg::UpdateNftContract { address } => update_nft_contract(
            contract,
            info,
            address,
            verdict_at(verdicts, 0),
        ),
        ExecuteMsg::RemoveAdmin { address } => remove_admin(
            contract,
            info,
            address,
            verdict_at(verdicts, 0),
        ),
        ExecuteMsg::AddAdmin { address } => add_admin(
            contract,
            info,
            address,
            verdict_at(verdicts, 0),
        ),
    }
}

} // verus!
