//! The records that the ledger keeps.

use vstd::prelude::*;
use crate::pubkey::Pubkey;

verus! {

/// What an identity may do. The roles form no hierarchy: each operation asks
/// for exactly one of them.
#[derive(Clone, Copy, Debug, PartialEq, Eq, Structural)]
pub enum UserRole {
    /// An investor.
    User,
    /// May create properties.
    PropertyManager,
    /// May change the role of any registered identity.
    Admin,
}

/// The record of a registered identity.
#[derive(Clone, Copy, Debug, PartialEq, Eq)]
pub struct UserAccount {
    pub pubkey: Pubkey,
    pub role: UserRole,
}

/// The record of a property.
#[derive(Clone, Copy, Debug, PartialEq, Eq)]
pub struct Property {
    /// The identity that created the property; it never changes.
    pub manager: Pubkey,
    pub initial_valuation: u64,
    pub current_valuation: u64,
    pub token_supply: u64,
    pub lock_period: u8,
    pub is_active: bool,
    /// The funding-phase flag; investing asks for it to be on.
    pub is_frozen: bool,
    /// What was recorded for disbursement and has not been converted yet.
    pub unclaimed_disbursement: u64,
    /// What has been converted.
    pub claimed_disbursement: u64,
}

/// The record of a disbursement: a plan to convert holdings of one asset of
/// a property into another.
#[derive(Clone, Copy, Debug, PartialEq, Eq)]
pub struct Disbursement {
    /// The key of the property.
    pub property: Pubkey,
    /// The asset that is converted.
    pub token_mint: Pubkey,
    /// The asset that it is converted into.
    pub new_token_mint: Pubkey,
    /// The amount recorded at creation; it never changes.
    pub total_amount: u64,
}

/// A record together with the place where it lives: its derived address and
/// the bump seed of that address.
#[derive(Clone, Copy, Debug, PartialEq, Eq)]
pub struct Account<T> {
    pub key: Pubkey,
    pub bump: u8,
    pub data: T,
}

impl UserAccount {
    /// The record that a freshly allocated account holds: all bytes zero.
    pub open spec fn blank_spec() -> UserAccount {
        UserAccount { pubkey: Pubkey::zeroed_spec(), role: UserRole::User }
    }

    /// The record that a freshly allocated account holds: all bytes zero.
    pub fn blank() -> (account: UserAccount)
        ensures
            account == UserAccount::blank_spec(),
    {
        UserAccount { pubkey: Pubkey::zeroed(), role: UserRole::User }
    }
}

impl Property {
    /// The record that a freshly allocated account holds: all bytes zero.
    pub open spec fn blank_spec() -> Property {
        Property {
            manager: Pubkey::zeroed_spec(),
            initial_valuation: 0,
            current_valuation: 0,
            token_supply: 0,
            lock_period: 0,
            is_active: false,
            is_frozen: false,
            unclaimed_disbursement: 0,
            claimed_disbursement: 0,
        }
    }

    /// The record that a freshly allocated account holds: all bytes zero.
    pub fn blank() -> (property: Property)
        ensures
            property == Property::blank_spec(),
    {
        Property {
            manager: Pubkey::zeroed(),
            initial_valuation: 0,
            current_valuation: 0,
            token_supply: 0,
            lock_period: 0,
            is_active: false,
            is_frozen: false,
            unclaimed_disbursement: 0,
            claimed_disbursement: 0,
        }
    }
}

impl Disbursement {
    /// The record that a freshly allocated account holds: all bytes zero.
    pub open spec fn blank_spec() -> Disbursement {
        Disbursement {
            property: Pubkey::zeroed_spec(),
            token_mint: Pubkey::zeroed_spec(),
            new_token_mint: Pubkey::zeroed_spec(),
            total_amount: 0,
        }
    }

    /// The record that a freshly allocated account holds: all bytes zero.
    pub fn blank() -> (disbursement: Disbursement)
        ensures
            disbursement == Disbursement::blank_spec(),
    {
        Disbursement {
            property: Pubkey::zeroed(),
            token_mint: Pubkey::zeroed(),
            new_token_mint: Pubkey::zeroed(),
            total_amount: 0,
        }
    }
}

} // verus!
