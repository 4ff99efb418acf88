//! The transitions on single records: who may make them, what they change
//! and what they ask of the asset ledger.

use vstd::prelude::*;
use crate::address::{
    disbursement_address_seeds,
    disbursement_seeds,
    property_address_seeds,
    property_seeds,
    seeds_view,
    signer_seeds,
    with_bump,
};
use crate::error::ErrorCode;
use crate::pubkey::Pubkey;
use crate::state::{Account, Disbursement, Property, UserAccount, UserRole};

verus! {

/// An order to the asset ledger: issue `amount` new units of `mint` into the
/// holding of `to_owner`. The record at `authority` signs with
/// `signer_seeds`.
#[derive(Clone, Debug, PartialEq, Eq)]
pub struct MintTo {
    pub mint: Pubkey,
    pub to_owner: Pubkey,
    pub amount: u64,
    pub authority: Pubkey,
    pub signer_seeds: Vec<Vec<u8>>,
}

/// An order to the asset ledger: destroy `amount` units of `mint` from the
/// holding of `from_owner`, who signs as `authority`.
#[derive(Clone, Copy, Debug, PartialEq, Eq)]
pub struct Burn {
    pub mint: Pubkey,
    pub from_owner: Pubkey,
    pub amount: u64,
    pub authority: Pubkey,
}

/// The two orders of a conversion. The burn is carried out first, the mint
/// only once the burn has succeeded.
#[derive(Clone, Debug, PartialEq, Eq)]
pub struct Conversion {
    pub burn: Burn,
    pub mint: MintTo,
}

/// The accounts of `create_user`.
#[derive(Clone, Copy, Debug, PartialEq, Eq)]
pub struct CreateUser {
    /// The freshly allocated record.
    pub user_account: UserAccount,
    /// The identity that registers itself.
    pub user: Pubkey,
}

/// The accounts of `update_user_role`.
#[derive(Clone, Copy, Debug, PartialEq, Eq)]
pub struct UpdateUserRole {
    pub target_user_account: UserAccount,
    /// The record presented for the acting identity.
    pub admin_account: UserAccount,
    /// The acting identity.
    pub admin: Pubkey,
}

/// The accounts of `create_property`.
#[derive(Clone, Copy, Debug, PartialEq, Eq)]
pub struct CreateProperty {
    /// The freshly allocated record.
    pub property: Property,
    /// The record presented for the acting identity.
    pub manager_account: UserAccount,
    /// The acting identity.
    pub manager: Pubkey,
}

/// The accounts of `start_funding` and `complete_funding`.
#[derive(Clone, Copy, Debug, PartialEq, Eq)]
pub struct FundingControl {
    pub property: Property,
    /// The acting identity.
    pub manager: Pubkey,
}

/// The accounts of `update_valuation`.
#[derive(Clone, Copy, Debug, PartialEq, Eq)]
pub struct UpdateValuation {
    pub property: Property,
    /// The acting identity.
    pub manager: Pubkey,
}

/// The accounts of `invest_in_property`.
#[derive(Clone, Copy, Debug, PartialEq, Eq)]
pub struct InvestInProperty {
    pub property: Account<Property>,
    /// The asset of the property.
    pub token_mint: Pubkey,
    /// The acting identity.
    pub investor: Pubkey,
}

/// The accounts of `create_disbursement`.
#[derive(Clone, Copy, Debug, PartialEq, Eq)]
pub struct CreateDisbursement {
    /// The freshly allocated record.
    pub disbursement: Disbursement,
    pub property: Property,
    /// The key of the property.
    pub property_key: Pubkey,
    pub old_token_mint: Pubkey,
    pub new_token_mint: Pubkey,
    /// The acting identity.
    pub manager: Pubkey,
}

/// The accounts of `convert_tokens` and `settle_conversion`.
#[derive(Clone, Copy, Debug, PartialEq, Eq)]
pub struct ConvertTokens {
    pub disbursement: Account<Disbursement>,
    /// The property of the disbursement.
    pub property: Property,
    /// The acting identity.
    pub user: Pubkey,
}

impl MintTo {
    /// The seeds that the order is signed with, as bytes.
    pub open spec fn seeds(self) -> Seq<Seq<u8>> {
        seeds_view(self.signer_seeds@)
    }
}

/// Why a conversion of `amount` cannot be booked on `property`, if it cannot:
/// the amount is more than the unclaimed balance, or the claimed counter
/// would pass the largest 64-bit value.
pub open spec fn conversion_refusal(property: Property, amount: u64) -> Option<ErrorCode> {
    if amount > property.unclaimed_disbursement {
        Some(ErrorCode::DisbursementExceeded)
    } else if property.claimed_disbursement + amount > u64::MAX {
        Some(ErrorCode::CounterOverflow)
    } else {
        None
    }
}

/// The property after `amount` has moved from its unclaimed to its claimed
/// counter.
pub open spec fn after_conversion(property: Property, amount: u64) -> Property {
    Property {
        unclaimed_disbursement: (property.unclaimed_disbursement - amount) as u64,
        claimed_disbursement: (property.claimed_disbursement + amount) as u64,
        ..property
    }
}

/// The burn order of a conversion of `amount`: the user's own holding of the
/// disbursement's old asset, signed by the user.
pub open spec fn conversion_burn(ctx: ConvertTokens, amount: u64) -> Burn {
    Burn {
        mint: ctx.disbursement.data.token_mint,
        from_owner: ctx.user,
        amount,
        authority: ctx.user,
    }
}

/// Whether `order` is the mint order of a conversion of `amount`: the new
/// asset, into the user's holding, signed by the disbursement record.
pub open spec fn is_conversion_mint(order: MintTo, ctx: ConvertTokens, amount: u64) -> bool {
    &&& order.mint == ctx.disbursement.data.new_token_mint
    &&& order.to_owner == ctx.user
    &&& order.amount == amount
    &&& order.authority == ctx.disbursement.key
    &&& order.seeds() == signer_seeds(
        disbursement_seeds(ctx.disbursement.data.property, ctx.disbursement.data.new_token_mint),
        ctx.disbursement.bump,
    )
}

fn check_conversion(property: &Property, amount: u64) -> (refusal: Option<ErrorCode>)
    ensures
        refusal == conversion_refusal(*property, amount),
{
    if amount > property.unclaimed_disbursement {
        Some(ErrorCode::DisbursementExceeded)
    } else if amount > u64::MAX - property.claimed_disbursement {
        Some(ErrorCode::CounterOverflow)
    } else {
        None
    }
}

/// Opens the conversion of `amount` units of the disbursement's old asset
/// into its new asset for `ctx.user`.
///
/// Refuses the amount where it cannot be booked on the property. Else it
/// hands out the two orders for the asset ledger; once they have been
/// carried out, `settle_conversion` books the amount.
pub fn convert_tokens(ctx: &ConvertTokens, amount: u64) -> (res: Result<Conversion, ErrorCode>)
    ensures
        match conversion_refusal(ctx.property, amount) {
            Some(error) => res == Err::<Conversion, ErrorCode>(error),
            None => res matches Ok(orders) && orders.burn == conversion_burn(*ctx, amount)
                && is_conversion_mint(orders.mint, *ctx, amount),
        },
{
    match check_conversion(&ctx.property, amount) {
        Some(error) => Err(error),
        None => {
            let burn = Burn {
                mint: ctx.disbursement.data.token_mint,
                from_owner: ctx.user,
                amount,
                authority: ctx.user,
            };
            let seeds = disbursement_address_seeds(
                &ctx.disbursement.data.property,
                &ctx.disbursement.data.new_token_mint,
            );
            let mint = MintTo {
                mint: ctx.disbursement.data.new_token_mint,
                to_owner: ctx.user,
                amount,
                authority: ctx.disbursement.key,
                signer_seeds: with_bump(seeds, ctx.disbursement.bump),
            };
            Ok(Conversion { burn, mint })
        },
    }
}

/// Books a conversion of `amount` once the asset ledger has answered.
///
/// `outcome` is what the asset ledger reported for the two orders of
/// `convert_tokens`: `Ok` where both were carried out, else the code of the
/// first that failed. The amount moves from the unclaimed to the claimed
/// counter only where both were carried out.
pub fn settle_conversion(ctx: &mut ConvertTokens, amount: u64, outcome: Result<(), u32>) -> (res:
    Result<(), ErrorCode>)
    ensures
        res == match conversion_refusal(old(ctx).property, amount) {
            Some(error) => Err::<(), ErrorCode>(error),
            None => match outcome {
                Err(code) => Err(ErrorCode::Substrate(code)),
                Ok(_) => Ok(()),
            },
        },
        res is Ok ==> *final(ctx) == (ConvertTokens {
            property: after_conversion(old(ctx).property, amount),
            ..*old(ctx)
        }),
        res is Err ==> *final(ctx) == *old(ctx),
{
    match check_conversion(&ctx.property, amount) {
        Some(error) => Err(error),
        None => match outcome {
            Err(code) => Err(ErrorCode::Substrate(code)),
            Ok(_) => {
                ctx.property.unclaimed_disbursement = ctx.property.unclaimed_disbursement - amount;
                ctx.property.claimed_disbursement = ctx.property.claimed_disbursement + amount;
                Ok(())
            },
        },
    }
}

/// Whether `order` is the mint order of an investment of `amount`: the
/// property's asset, into the investor's holding, signed by the property
/// record.
pub open spec fn is_investment_mint(order: MintTo, ctx: InvestInProperty, amount: u64) -> bool {
    &&& order.mint == ctx.token_mint
    &&& order.to_owner == ctx.investor
    &&& order.amount == amount
    &&& order.authority == ctx.property.key
    &&& order.seeds() == signer_seeds(property_seeds(ctx.token_mint), ctx.property.bump)
}

/// Admits an investment of `amount` units by `ctx.investor`.
///
/// Investing asks for the property's frozen flag to be on. The amount is not
/// held against the property's token supply. On success the asset ledger is
/// to carry out the order that is handed out; no record changes.
pub fn invest_in_property(ctx: &InvestInProperty, amount: u64) -> (res: Result<MintTo, ErrorCode>)
    ensures
        !ctx.property.data.is_frozen ==> res == Err::<MintTo, ErrorCode>(
            ErrorCode::PropertyNotFrozen,
        ),
        ctx.property.data.is_frozen ==> (res matches Ok(order) && is_investment_mint(
            order,
            *ctx,
            amount,
        )),
{
    if !ctx.property.data.is_frozen {
        return Err(ErrorCode::PropertyNotFrozen);
    }
    let seeds = property_address_seeds(&ctx.token_mint);
    Ok(
        MintTo {
            mint: ctx.token_mint,
            to_owner: ctx.investor,
            amount,
            authority: ctx.property.key,
            signer_seeds: with_bump(seeds, ctx.property.bump),
        },
    )
}

impl CreateProperty {
    /// Whether the record presented is that of the acting identity and gives
    /// it the role of a property manager.
    pub open spec fn authorized(self) -> bool {
        self.manager_account.pubkey == self.manager && self.manager_account.role
            == UserRole::PropertyManager
    }
}

/// The record of a property that `manager` has just created.
pub open spec fn new_property(
    manager: Pubkey,
    initial_valuation: u64,
    token_supply: u64,
    lock_period: u8,
) -> Property {
    Property {
        manager,
        initial_valuation,
        current_valuation: initial_valuation,
        token_supply,
        lock_period,
        is_active: true,
        is_frozen: true,
        unclaimed_disbursement: 0,
        claimed_disbursement: 0,
    }
}

/// Fills the record of a new property. Only a property manager may do so;
/// the caller becomes the property's manager for good.
pub fn create_property(
    ctx: &mut CreateProperty,
    initial_valuation: u64,
    token_supply: u64,
    lock_period: u8,
) -> (res: Result<(), ErrorCode>)
    ensures
        old(ctx).authorized() ==> res is Ok && *final(ctx) == (CreateProperty {
            property: new_property(old(ctx).manager, initial_valuation, token_supply, lock_period),
            ..*old(ctx)
        }),
        !old(ctx).authorized() ==> res == Err::<(), ErrorCode>(ErrorCode::UnauthorizedRole)
            && *final(ctx) == *old(ctx),
{
    if !(ctx.manager_account.pubkey == ctx.manager) {
        return Err(ErrorCode::UnauthorizedRole);
    }
    match ctx.manager_account.role {
        UserRole::PropertyManager => {},
        _ => {
            return Err(ErrorCode::UnauthorizedRole);
        },
    }
    ctx.property.manager = ctx.manager;
    ctx.property.initial_valuation = initial_valuation;
    ctx.property.current_valuation = initial_valuation;
    ctx.property.token_supply = token_supply;
    ctx.property.lock_period = lock_period;
    ctx.property.is_active = true;
    ctx.property.is_frozen = true;
    ctx.property.unclaimed_disbursement = 0;
    ctx.property.claimed_disbursement = 0;
    Ok(())
}

/// Why a disbursement of `total_amount` cannot be recorded by `ctx.manager`,
/// if it cannot.
pub open spec fn disbursement_refusal(ctx: CreateDisbursement, total_amount: u64) -> Option<
    ErrorCode,
> {
    if ctx.property.manager != ctx.manager {
        Some(ErrorCode::UnauthorizedManager)
    } else if ctx.property.unclaimed_disbursement + total_amount > u64::MAX {
        Some(ErrorCode::CounterOverflow)
    } else {
        None
    }
}

/// Fills the record of a new disbursement of the property and adds its
/// amount to the property's unclaimed counter. Only the property's manager
/// may do so. The amount is not held against the property's valuation or
/// token supply.
pub fn create_disbursement(ctx: &mut CreateDisbursement, total_amount: u64) -> (res: Result<
    (),
    ErrorCode,
>)
    ensures
        res == match disbursement_refusal(*old(ctx), total_amount) {
            Some(error) => Err::<(), ErrorCode>(error),
            None => Ok(()),
        },
        res is Ok ==> *final(ctx) == (CreateDisbursement {
            disbursement: Disbursement {
                property: old(ctx).property_key,
                token_mint: old(ctx).old_token_mint,
                new_token_mint: old(ctx).new_token_mint,
                total_amount,
            },
            property: Property {
                unclaimed_disbursement: (old(ctx).property.unclaimed_disbursement
                    + total_amount) as u64,
                ..old(ctx).property
            },
            ..*old(ctx)
        }),
        res is Err ==> *final(ctx) == *old(ctx),
{
    if !(ctx.property.manager == ctx.manager) {
        return Err(ErrorCode::UnauthorizedManager);
    }
    if total_amount > u64::MAX - ctx.property.unclaimed_disbursement {
        return Err(ErrorCode::CounterOverflow);
    }
    ctx.disbursement.property = ctx.property_key;
    ctx.disbursement.token_mint = ctx.old_token_mint;
    ctx.disbursement.new_token_mint = ctx.new_token_mint;
    ctx.disbursement.total_amount = total_amount;
    ctx.property.unclaimed_disbursement = ctx.property.unclaimed_disbursement + total_amount;
    Ok(())
}

impl UpdateUserRole {
    /// Whether the record presented is that of the acting identity and gives
    /// it the role of an admin.
    pub open spec fn authorized(self) -> bool {
        self.admin_account.pubkey == self.admin && self.admin_account.role == UserRole::Admin
    }
}

/// Overwrites the role on the target record. Only an admin may do so.
pub fn update_user_role(ctx: &mut UpdateUserRole, new_role: UserRole) -> (res: Result<
    (),
    ErrorCode,
>)
    ensures
        old(ctx).authorized() ==> res is Ok && *final(ctx) == (UpdateUserRole {
            target_user_account: UserAccount {
                role: new_role,
                ..old(ctx).target_user_account
            },
            ..*old(ctx)
        }),
        !old(ctx).authorized() ==> res == Err::<(), ErrorCode>(ErrorCode::UnauthorizedRole)
            && *final(ctx) == *old(ctx),
{
    if !(ctx.admin_account.pubkey == ctx.admin) {
        return Err(ErrorCode::UnauthorizedRole);
    }
    match ctx.admin_account.role {
        UserRole::Admin => {},
        _ => {
            return Err(ErrorCode::UnauthorizedRole);
        },
    }
    ctx.target_user_account.role = new_role;
    Ok(())
}

/// Sets the funding-phase flag of the property. Only the property's manager
/// may do so.
pub fn set_funding_phase(ctx: &mut FundingControl, frozen: bool) -> (res: Result<(), ErrorCode>)
    ensures
        old(ctx).property.manager == old(ctx).manager ==> res is Ok && *final(ctx) == (
        FundingControl {
            property: Property { is_frozen: frozen, ..old(ctx).property },
            ..*old(ctx)
        }),
        old(ctx).property.manager != old(ctx).manager ==> res == Err::<(), ErrorCode>(
            ErrorCode::UnauthorizedManager,
        ) && *final(ctx) == *old(ctx),
{
    if !(ctx.property.manager == ctx.manager) {
        return Err(ErrorCode::UnauthorizedManager);
    }
    ctx.property.is_frozen = frozen;
    Ok(())
}

/// Turns the funding-phase flag of the property on. Only the property's
/// manager may do so.
pub fn start_funding(ctx: &mut FundingControl) -> (res: Result<(), ErrorCode>)
    ensures
        old(ctx).property.manager == old(ctx).manager ==> res is Ok && *final(ctx) == (
        FundingControl {
            property: Property { is_frozen: true, ..old(ctx).property },
            ..*old(ctx)
        }),
        old(ctx).property.manager != old(ctx).manager ==> res == Err::<(), ErrorCode>(
            ErrorCode::UnauthorizedManager,
        ) && *final(ctx) == *old(ctx),
{
    set_funding_phase(ctx, true)
}

/// Turns the funding-phase flag of the property off. Only the property's
/// manager may do so.
pub fn complete_funding(ctx: &mut FundingControl) -> (res: Result<(), ErrorCode>)
    ensures
        old(ctx).property.manager == old(ctx).manager ==> res is Ok && *final(ctx) == (
        FundingControl {
            property: Property { is_frozen: false, ..old(ctx).property },
            ..*old(ctx)
        }),
        old(ctx).property.manager != old(ctx).manager ==> res == Err::<(), ErrorCode>(
            ErrorCode::UnauthorizedManager,
        ) && *final(ctx) == *old(ctx),
{
    set_funding_phase(ctx, false)
}

/// Overwrites the current valuation of the property. Only the property's
/// manager may do so. The new value is not held against the initial one.
pub fn update_valuation(ctx: &mut UpdateValuation, new_valuation: u64) -> (res: Result<
    (),
    ErrorCode,
>)
    ensures
        old(ctx).property.manager == old(ctx).manager ==> res is Ok && *final(ctx) == (
        UpdateValuation {
            property: Property { current_valuation: new_valuation, ..old(ctx).property },
            ..*old(ctx)
        }),
        old(ctx).property.manager != old(ctx).manager ==> res == Err::<(), ErrorCode>(
            ErrorCode::UnauthorizedManager,
        ) && *final(ctx) == *old(ctx),
{
    if !(ctx.property.manager == ctx.manager) {
        return Err(ErrorCode::UnauthorizedManager);
    }
    ctx.property.current_valuation = new_valuation;
    Ok(())
}

/// Fills the record of an identity that registers itself with `role`. Any
/// identity may register with any role.
pub fn create_user(ctx: &mut CreateUser, role: UserRole) -> (res: Result<(), ErrorCode>)
    ensures
        res is Ok,
        *final(ctx) == (CreateUser {
            user_account: UserAccount { pubkey: old(ctx).user, role },
            ..*old(ctx)
        }),
{
    ctx.user_account.role = role;
    ctx.user_account.pubkey = ctx.user;
    Ok(())
}

} // verus!
