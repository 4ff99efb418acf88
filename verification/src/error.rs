//! The errors of the ledger.

use vstd::prelude::*;

verus! {

/// Why an operation was refused. Every refusal leaves all records as they
/// were.
#[derive(Clone, Copy, Debug, PartialEq, Eq, Structural)]
pub enum ErrorCode {
    /// The caller's role is not the one the operation asks for.
    UnauthorizedRole,
    /// The caller is not the manager recorded on the property.
    UnauthorizedManager,
    /// An investment was attempted while the property's frozen flag was off.
    PropertyNotFrozen,
    /// The identity is registered already.
    DuplicateIdentity,
    /// A property exists already for the asset.
    DuplicateProperty,
    /// A disbursement exists already for the property and target asset.
    DuplicateDisbursement,
    /// The amount is more than the property's unclaimed balance.
    DisbursementExceeded,
    /// A disbursement counter would pass the largest 64-bit value.
    CounterOverflow,
    /// The ledger holds no record at the given key.
    AccountNotInitialized,
    /// No address can be derived for the record that is to be created.
    NoProgramAddress,
    /// The asset ledger refused an order; its code is passed on unchanged.
    Substrate(u32),
}

impl ErrorCode {
    /// The text that describes the error.
    pub open spec fn message_spec(self) -> Seq<char> {
        match self {
            ErrorCode::UnauthorizedRole => "Unauthorized role for this action"@,
            ErrorCode::UnauthorizedManager => "Unauthorized property manager"@,
            ErrorCode::PropertyNotFrozen => "Property not in frozen state"@,
            ErrorCode::DuplicateIdentity => "Identity already registered"@,
            ErrorCode::DuplicateProperty => "Property already exists for this asset"@,
            ErrorCode::DuplicateDisbursement => "Disbursement already exists for this asset"@,
            ErrorCode::DisbursementExceeded => "Amount exceeds the unclaimed disbursement"@,
            ErrorCode::CounterOverflow => "Disbursement counter overflow"@,
            ErrorCode::AccountNotInitialized => "Account not initialized"@,
            ErrorCode::NoProgramAddress => "No program address for these seeds"@,
            ErrorCode::Substrate(_) => "Asset ledger refused the order"@,
        }
    }

    /// The text that describes the error.
    pub fn message(&self) -> (text: &'static str)
        ensures
            text@ == self.message_spec(),
    {
        match self {
            ErrorCode::UnauthorizedRole => "Unauthorized role for this action",
            ErrorCode::UnauthorizedManager => "Unauthorized property manager",
            ErrorCode::PropertyNotFrozen => "Property not in frozen state",
            ErrorCode::DuplicateIdentity => "Identity already registered",
            ErrorCode::DuplicateProperty => "Property already exists for this asset",
            ErrorCode::DuplicateDisbursement => "Disbursement already exists for this asset",
            ErrorCode::DisbursementExceeded => "Amount exceeds the unclaimed disbursement",
            ErrorCode::CounterOverflow => "Disbursement counter overflow",
            ErrorCode::AccountNotInitialized => "Account not initialized",
            ErrorCode::NoProgramAddress => "No program address for these seeds",
            ErrorCode::Substrate(_) => "Asset ledger refused the order",
        }
    }
}

} // verus!
