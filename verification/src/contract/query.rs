//! The questions that an engine answers.

use crate::msg::QueryMsg;
use crate::state::{Contract, State};
use vstd::prelude::*;

verus! {

/// Answers `msg`.
pub fn _query(contract: &Contract, msg: QueryMsg) -> (answer: State)
    ensures
        answer@ == contract.state@,
{
    match msg {
        QueryMsg::DumpState {  } => dump_state(contract),
    }
}

/// A snapshot of the sale state.
pub fn dump_state(contract: &Contract) -> (state: State)
    ensures
        state@ == contract.state@,
{
    contract.state.duplicate()
}

} // verus!
