//! Why an operation is refused.

use vstd::prelude::*;

verus! {

/// The reason for which an operation was refused. A refused operation changes nothing.
#[derive(Debug, Clone, PartialEq, Eq)]
pub enum ContractError {
    /// The caller is neither the owner nor an admin.
    Unauthorized {},
    /// The engine is in maintenance.
    InMaintenance {},
    /// Neither the sale nor the presale is open.
    SellClose {},
    /// Presale only, and the buyer has no allowlist entry.
    AddressNotWhitelisted {},
    /// Presale only, and the buyer's entry holds fewer slots than units asked for.
    NoSlotAvailableLeft {},
    /// The pool's cap, or the identifier range, leaves no room for the units asked for.
    NotEnoughNftLeft {},
    /// More units asked for than one call may buy.
    MultiBuyQuantityTooHigh {},
    /// The address is not well formed.
    InvalidAddress { address: String },
    /// The address is not an admin.
    AddressNotFound { address: String },
    /// The address is an admin already.
    AddressAlreadyRegistered { address: String },
    /// The attached funds do not cover the price.
    NotEnoughMoneyForNft {},
    /// The toggle belongs to the other admission mode.
    ModeUnavailable {},
}

/// Mathematical value of a [`ContractError`].
pub enum ErrorView {
    Unauthorized,
    InMaintenance,
    SellClose,
    AddressNotWhitelisted,
    NoSlotAvailableLeft,
    NotEnoughNftLeft,
    MultiBuyQuantityTooHigh,
    InvalidAddress { address: Seq<char> },
    AddressNotFound { address: Seq<char> },
    AddressAlreadyRegistered { address: Seq<char> },
    NotEnoughMoneyForNft,
    ModeUnavailable,
}

impl View for ContractError {
    type V = ErrorView;

    open spec fn view(&self) -> ErrorView {
        match *self {
            ContractError::Unauthorized {  } => ErrorView::Unauthorized,
            ContractError::InMaintenance {  } => ErrorView::InMaintenance,
            ContractError::SellClose {  } => ErrorView::SellClose,
            ContractError::AddressNotWhitelisted {  } => ErrorView::AddressNotWhitelisted,
            ContractError::NoSlotAvailableLeft {  } => ErrorView::NoSlotAvailableLeft,
            ContractError::NotEnoughNftLeft {  } => ErrorView::NotEnoughNftLeft,
            ContractError::MultiBuyQuantityTooHigh {  } => ErrorView::MultiBuyQuantityTooHigh,
            ContractError::InvalidAddress { address } => ErrorView::InvalidAddress {
                address: address@,
            },
            ContractError::AddressNotFound { address } => ErrorView::AddressNotFound {
                address: address@,
            },
            ContractError::AddressAlreadyRegistered {
                address,
            } => ErrorView::AddressAlreadyRegistered { address: address@ },
            ContractError::NotEnoughMoneyForNft {  } => ErrorView::NotEnoughMoneyForNft,
            ContractError::ModeUnavailable {  } => ErrorView::ModeUnavailable,
        }
    }
}

} // verus!
