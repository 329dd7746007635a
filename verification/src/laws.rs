//! Laws of the engine, proved of the outcomes in [`crate::model`] that the
//! executable operations are proved to produce.

use crate::error::ErrorView;
use crate::model::{
    accepted, created, execute, first_malformed, gate, in_maintenance, is_first_rejected, issued,
    issued_at, lemma_first_malformed, multi_buy, named_addresses, presale_only, privileged,
    purchase, refused, run, state_after, step, Call,
};
use crate::msg::{ExecuteMsgView, InstructionView, MessageInfoView, Method};
use crate::state::{AdmissionMode, ContractView};
use crate::text::{decimal, lemma_decimal_injective};
use vstd::prelude::*;

verus! {

// ------------------------------------------------------------------------ stock
/// A new engine is within its caps.
pub proof fn lemma_created_within_caps(
    owner: Seq<char>,
    admission: AdmissionMode,
    max_buy_at_once: u32,
)
    ensures
        created(owner, admission, max_buy_at_once).state.within_caps(),
{
}

/// No call takes an engine beyond its caps, whether it succeeds or not.
pub proof fn lemma_call_keeps_caps(
    c: ContractView,
    info: MessageInfoView,
    msg: ExecuteMsgView,
    verdicts: Seq<bool>,
)
    requires
        c.state.within_caps(),
    ensures
        state_after(c, execute(c, info, msg, verdicts)).state.within_caps(),
{
}

/// Along every history that starts within the caps, the engine is within
/// its caps after each call.
pub proof fn lemma_history_keeps_caps(c: ContractView, calls: Seq<Call>, k: int)
    requires
        c.state.within_caps(),
        0 <= k <= calls.len(),
    ensures
        run(c, calls.take(k)).state.within_caps(),
    decreases k,
{
    if k > 0 {
        lemma_history_keeps_caps(c, calls, k - 1);
        assert(calls.take(k).drop_last() =~= calls.take(k - 1));
        let before = run(c, calls.take(k - 1));
        let call = calls.take(k).last();
        lemma_call_keeps_caps(before, call.info, call.msg, call.verdicts);
    }
}

/// From its creation on, an engine is within its caps after each call of
/// every history.
pub proof fn lemma_engine_stays_within_caps(
    owner: Seq<char>,
    admission: AdmissionMode,
    max_buy_at_once: u32,
    calls: Seq<Call>,
    k: int,
)
    requires
        0 <= k <= calls.len(),
    ensures
        run(created(owner, admission, max_buy_at_once), calls.take(k)).state.within_caps(),
{
    lemma_created_within_caps(owner, admission, max_buy_at_once);
    lemma_history_keeps_caps(created(owner, admission, max_buy_at_once), calls, k);
}

/// No call lowers the count of units that a pool has handed out.
pub proof fn lemma_minted_counts_never_decrease(c: ContractView, call: Call)
    ensures
        c.state.total_market_minted <= step(c, call).state.total_market_minted,
        c.state.total_reserved_minted <= step(c, call).state.total_reserved_minted,
{
}

// -------------------------------------------------------------------- atomicity
/// A refused call leaves the state as it was.
pub proof fn lemma_refusal_changes_nothing(c: ContractView, call: Call)
    requires
        execute(c, call.info, call.msg, call.verdicts) is Err,
    ensures
        step(c, call) == c,
{
}

// ------------------------------------------------------------------ identifiers
/// The identifier counter never goes back.
pub proof fn lemma_counter_never_goes_back(c: ContractView, call: Call)
    ensures
        c.state.last_token_id <= step(c, call).state.last_token_id,
{
}

/// Whether `messages` are the mint instructions for `ids`: one for each, in
/// their order, each naming its identifier in decimal.
pub open spec fn mints_of(messages: Seq<InstructionView>, ids: Seq<nat>) -> bool {
    &&& messages.len() == ids.len()
    &&& forall|k: int|
        0 <= k < ids.len() ==> (#[trigger] messages[k]) is Mint && messages[k]->msg.token_id
            == decimal(ids[k])
}

/// Whether no mint instruction is among `messages`.
pub open spec fn no_mint(messages: Seq<InstructionView>) -> bool {
    forall|k: int| 0 <= k < messages.len() ==> !((#[trigger] messages[k]) is Mint)
}

/// What a successful call issues: either its instructions are the mint
/// instructions for the identifiers by which the counter advanced, or it
/// holds no mint instruction and the counter stays.
pub proof fn lemma_mints_follow_counter(c: ContractView, call: Call)
    requires
        execute(c, call.info, call.msg, call.verdicts) is Ok,
    ensures
        ({
            let (next, response) = execute(c, call.info, call.msg, call.verdicts)->Ok_0;
            ||| mints_of(response.messages, issued(c, next))
            ||| no_mint(response.messages) && issued(c, next).len() == 0
        }),
{
    let (next, response) = execute(c, call.info, call.msg, call.verdicts)->Ok_0;
    match call.msg {
        ExecuteMsgView::Buy => {
            assert(mints_of(response.messages, issued(c, next)));
        },
        ExecuteMsgView::MultiBuy { quantity } => {
            assert(mints_of(response.messages, issued(c, next)));
        },
        ExecuteMsgView::Airdrop { receivers } => {
            assert(mints_of(response.messages, issued(c, next)));
        },
        ExecuteMsgView::Withdraw { wallet, coin } => {
            assert(response.messages[0] is Send);
            assert(no_mint(response.messages));
        },
        _ => {
            assert(no_mint(response.messages));
        },
    }
}

/// The identifiers of one call lie after the counter as the call found it
/// and not after the counter as the call left it, and come in strictly
/// increasing order.
pub proof fn lemma_issued_increasing(c: ContractView, next: ContractView, i: int, j: int)
    requires
        0 <= i <= j < issued(c, next).len(),
    ensures
        c.state.last_token_id < issued(c, next)[i] <= issued(c, next)[j]
            <= next.state.last_token_id,
        i < j ==> issued(c, next)[i] < issued(c, next)[j],
{
}

/// The counter after a longer history is not below the counter after a shorter one.
pub proof fn lemma_history_counter(c: ContractView, calls: Seq<Call>, a: int, b: int)
    requires
        0 <= a <= b <= calls.len(),
    ensures
        run(c, calls.take(a)).state.last_token_id <= run(c, calls.take(b)).state.last_token_id,
    decreases b - a,
{
    if a < b {
        lemma_history_counter(c, calls, a, b - 1);
        assert(calls.take(b).drop_last() =~= calls.take(b - 1));
        lemma_counter_never_goes_back(run(c, calls.take(b - 1)), calls.take(b).last());
    }
}

/// No identifier is issued twice: whatever a later call of a history issues
/// is greater than whatever an earlier call issued.
pub proof fn lemma_identifiers_never_repeat(
    c: ContractView,
    calls: Seq<Call>,
    a: int,
    b: int,
    x: nat,
    y: nat,
)
    requires
        0 <= a < b < calls.len(),
        issued_at(c, calls, a).contains(x),
        issued_at(c, calls, b).contains(y),
    ensures
        x < y,
{
    let i = choose|i: int| 0 <= i < issued_at(c, calls, a).len() && issued_at(c, calls, a)[i] == x;
    let j = choose|j: int| 0 <= j < issued_at(c, calls, b).len() && issued_at(c, calls, b)[j] == y;
    lemma_history_counter(c, calls, a, a + 1);
    lemma_history_counter(c, calls, a + 1, b);
    lemma_history_counter(c, calls, b, b + 1);
    assert(x <= run(c, calls.take(a + 1)).state.last_token_id);
    assert(y > run(c, calls.take(b)).state.last_token_id);
}

/// Distinct identifiers are named by distinct token ids.
pub proof fn lemma_token_ids_distinct(x: nat, y: nat)
    requires
        x != y,
    ensures
        decimal(x) != decimal(y),
{
    if decimal(x) == decimal(y) {
        lemma_decimal_injective(x, y);
    }
}

// ---------------------------------------------------------------- authorization
/// The operations that only the owner and the admins may call: all but the purchases.
pub open spec fn admin_gated(msg: ExecuteMsgView) -> bool {
    !(msg is Buy) && !(msg is MultiBuy)
}

/// The operations that maintenance does not stop.
pub open spec fn maintenance_exempt(msg: ExecuteMsgView) -> bool {
    msg is Withdraw || msg is MaintenanceMode
}

/// A caller who is neither the owner nor an admin is refused every admin
/// operation: as `Unauthorized`, unless maintenance stops the operation
/// before the caller's role is looked at.
pub proof fn lemma_stranger_is_refused(c: ContractView, call: Call)
    requires
        admin_gated(call.msg),
        !privileged(c, call.info.sender),
    ensures
        execute(c, call.info, call.msg, call.verdicts) == (if in_maintenance(c)
            && !maintenance_exempt(call.msg) {
            refused(ErrorView::InMaintenance)
        } else {
            refused(ErrorView::Unauthorized)
        }),
{
}

/// The owner is privileged whatever the admin set holds, and no call of the
/// owner is refused as `Unauthorized`.
pub proof fn lemma_owner_is_never_unauthorized(c: ContractView, call: Call)
    requires
        call.info.sender == c.owner,
    ensures
        privileged(c, c.owner),
        execute(c, call.info, call.msg, call.verdicts) != refused(ErrorView::Unauthorized),
{
}

/// No call changes the owner.
pub proof fn lemma_owner_is_fixed(c: ContractView, call: Call)
    ensures
        step(c, call).owner == c.owner,
{
}

/// Roles and configuration change through admin operations alone: a
/// purchase, and any call of a caller who is neither the owner nor an admin,
/// leaves the admins, the minting contract, the admission mode, the caps,
/// the bound of a call, the price and the catalog record as they were.
pub proof fn lemma_configuration_is_the_admins(c: ContractView, call: Call)
    requires
        !admin_gated(call.msg) || !privileged(c, call.info.sender),
    ensures
        ({
            let next = step(c, call);
            &&& next.admins == c.admins
            &&& next.nft_contract == c.nft_contract
            &&& next.admission == c.admission
            &&& next.state.total_market_supply == c.state.total_market_supply
            &&& next.state.total_reserved_supply == c.state.total_reserved_supply
            &&& next.state.max_buy_at_once == c.state.max_buy_at_once
            &&& next.state.sell_price == c.state.sell_price
            &&& next.state.metadata == c.state.metadata
        }),
{
    if admin_gated(call.msg) {
        lemma_stranger_is_refused(c, call);
    }
}

// -------------------------------------------------------------------- allowlist
/// During a presale alone, admission costs an allowlisted buyer as many
/// slots as units are wanted, where the buyer has that many; a buyer who has
/// fewer is refused with `NoSlotAvailableLeft`.
pub proof fn lemma_gate_consumes_slots(c: ContractView, caller: Seq<char>, k: u32)
    requires
        presale_only(c.admission),
        c.whitelist.contains_key(caller),
    ensures
        gate(c, caller, k) == (if k <= c.whitelist[caller] {
            Ok::<ContractView, ErrorView>(
                ContractView {
                    whitelist: c.whitelist.insert(caller, (c.whitelist[caller] - k) as u32),
                    ..c
                },
            )
        } else {
            Err::<ContractView, ErrorView>(ErrorView::NoSlotAvailableLeft)
        }),
{
}

/// During a presale alone, a purchase of `k` units by an allowlisted buyer
/// with `n` slots leaves the buyer `n - k` slots where it succeeds, and it
/// does not succeed where `k > n`: it is then refused with
/// `NoSlotAvailableLeft`.
pub proof fn lemma_presale_purchase_consumes_slots(
    c: ContractView,
    info: MessageInfoView,
    k: u32,
    method: Method,
)
    requires
        presale_only(c.admission),
        c.whitelist.contains_key(info.sender),
    ensures
        match purchase(c, info, k, method) {
            Ok((next, _)) => k <= c.whitelist[info.sender] && next.whitelist
                == c.whitelist.insert(info.sender, (c.whitelist[info.sender] - k) as u32),
            Err(e) => k > c.whitelist[info.sender] ==> e == ErrorView::NoSlotAvailableLeft,
        },
{
}

/// The same of a purchase in one call, where the quantity is within what one
/// call may buy.
pub proof fn lemma_presale_multi_buy_consumes_slots(
    c: ContractView,
    info: MessageInfoView,
    k: u32,
)
    requires
        presale_only(c.admission),
        c.whitelist.contains_key(info.sender),
        k <= c.state.max_buy_at_once,
    ensures
        match multi_buy(c, info, k) {
            Ok((next, _)) => k <= c.whitelist[info.sender] && next.whitelist
                == c.whitelist.insert(info.sender, (c.whitelist[info.sender] - k) as u32),
            Err(e) => k > c.whitelist[info.sender] ==> e == ErrorView::NoSlotAvailableLeft,
        },
{
}

/// Outside a presale alone, no purchase touches the allowlist.
pub proof fn lemma_other_phases_leave_slots(c: ContractView, call: Call)
    requires
        !presale_only(c.admission),
        !admin_gated(call.msg),
    ensures
        step(c, call).whitelist == c.whitelist,
{
}

// --------------------------------------------------------------------- verdicts
/// A call reads the verdicts on the addresses that its message names, and
/// no others: verdicts that agree on those give the same outcome.
pub proof fn lemma_only_named_verdicts_count(
    c: ContractView,
    info: MessageInfoView,
    msg: ExecuteMsgView,
    v: Seq<bool>,
    w: Seq<bool>,
)
    requires
        forall|i: int| 0 <= i < named_addresses(msg).len() ==> accepted(v, i) == accepted(w, i),
    ensures
        execute(c, info, msg, v) == execute(c, info, msg, w),
{
    let names = named_addresses(msg);
    lemma_same_first_malformed(names, v, w);
    match msg {
        ExecuteMsgView::UpdateNftContract { address } => {
            assert(names.len() == 1);
        },
        ExecuteMsgView::RemoveAdmin { address } => {
            assert(names.len() == 1);
        },
        ExecuteMsgView::AddAdmin { address } => {
            assert(names.len() == 1);
        },
        _ => {},
    }
}

/// Verdicts that agree on `names` find the same first malformed address.
pub proof fn lemma_same_first_malformed(names: Seq<Seq<char>>, v: Seq<bool>, w: Seq<bool>)
    requires
        forall|i: int| 0 <= i < names.len() ==> accepted(v, i) == accepted(w, i),
    ensures
        first_malformed(names, v) == first_malformed(names, w),
{
    if exists|i: int| is_first_rejected(names.len(), v, i) {
        let i = choose|i: int| is_first_rejected(names.len(), v, i);
        assert(is_first_rejected(names.len(), w, i));
        lemma_first_malformed(names, v, i);
        lemma_first_malformed(names, w, i);
    } else if exists|i: int| is_first_rejected(names.len(), w, i) {
        let i = choose|i: int| is_first_rejected(names.len(), w, i);
        assert(is_first_rejected(names.len(), v, i));
    } else {
        lemma_no_first_rejected(names.len(), v, names.len() as int);
        lemma_no_first_rejected(names.len(), w, names.len() as int);
    }
}

/// Where no position is the first rejected one, every position below `k` is accepted.
proof fn lemma_no_first_rejected(count: nat, verdicts: Seq<bool>, k: int)
    requires
        !exists|i: int| is_first_rejected(count, verdicts, i),
        0 <= k <= count,
    ensures
        forall|i: int| 0 <= i < k ==> accepted(verdicts, i),
    decreases k,
{
    if k > 0 {
        lemma_no_first_rejected(count, verdicts, k - 1);
        if !accepted(verdicts, k - 1) {
            assert(is_first_rejected(count, verdicts, k - 1));
        }
    }
}

} // verus!
