//! A ledger for tokenized real-estate crowdfunding: who may do what to a
//! property, when investor tokens may be issued, and how holdings are
//! converted from one asset into another while the recorded totals stay in
//! step.
//!
//! `instructions` holds the transitions on single records, `ledger` the
//! store that keeps the records apart by identity and address, `laws` what
//! holds of every run of requests.

pub mod address;
pub mod error;
pub mod instructions;
pub mod laws;
pub mod ledger;
pub mod pubkey;
pub mod state;
pub mod store;

pub use error::ErrorCode;
pub use instructions::{
    complete_funding, convert_tokens, create_disbursement, create_property, create_user,
    invest_in_property, set_funding_phase, settle_conversion, start_funding, update_user_role,
    update_valuation, Burn, Conversion, ConvertTokens, CreateDisbursement, CreateProperty,
    CreateUser, FundingControl, InvestInProperty, MintTo, UpdateUserRole, UpdateValuation,
};
pub use ledger::Ledger;
pub use pubkey::Pubkey;
pub use state::{Account, Disbursement, Property, UserAccount, UserRole};
