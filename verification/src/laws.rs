//! What holds of the ledger whatever requests it has taken.

use vstd::prelude::*;
use crate::address::{disbursement_address, property_address};
use crate::error::ErrorCode;
use crate::ledger::{balanced, LedgerView};
use crate::pubkey::Pubkey;
use crate::state::{Account, Disbursement, Property, UserAccount, UserRole};
use crate::store::recorded_total;

verus! {

/// A request that changes the ledger.
pub enum Request {
    RegisterIdentity { identity: Pubkey, role: UserRole },
    SetRole { acting: Pubkey, target: Pubkey, new_role: UserRole },
    CreateProperty {
        manager: Pubkey,
        token_mint: Pubkey,
        initial_valuation: u64,
        token_supply: u64,
        lock_period: u8,
    },
    SetFundingPhase { manager: Pubkey, property: Pubkey, frozen: bool },
    UpdateValuation { manager: Pubkey, property: Pubkey, new_valuation: u64 },
    CreateDisbursement {
        manager: Pubkey,
        property: Pubkey,
        old_token_mint: Pubkey,
        new_token_mint: Pubkey,
        total_amount: u64,
    },
    SettleConversion { user: Pubkey, disbursement: Pubkey, amount: u64, outcome: Result<(), u32> },
}

/// The ledger after `request`, granted or refused.
pub open spec fn apply(ledger: LedgerView, request: Request) -> LedgerView {
    match request {
        Request::RegisterIdentity { identity, role } => ledger.register_identity(identity, role).0,
        Request::SetRole { acting, target, new_role } => ledger.set_role(
            acting,
            target,
            new_role,
        ).0,
        Request::CreateProperty {
            manager,
            token_mint,
            initial_valuation,
            token_supply,
            lock_period,
        } => ledger.create_property(
            manager,
            token_mint,
            initial_valuation,
            token_supply,
            lock_period,
        ).0,
        Request::SetFundingPhase { manager, property, frozen } => ledger.set_funding_phase(
            manager,
            property,
            frozen,
        ).0,
        Request::UpdateValuation { manager, property, new_valuation } => ledger.update_valuation(
            manager,
            property,
            new_valuation,
        ).0,
        Request::CreateDisbursement {
            manager,
            property,
            old_token_mint,
            new_token_mint,
            total_amount,
        } => ledger.create_disbursement(
            manager,
            property,
            old_token_mint,
            new_token_mint,
            total_amount,
        ).0,
        Request::SettleConversion {
            user,
            disbursement,
            amount,
            outcome,
        } => ledger.settle_conversion(user, disbursement, amount, outcome).0,
    }
}

/// The ledger after a run of requests, taken one after the other.
pub open spec fn after(ledger: LedgerView, requests: Seq<Request>) -> LedgerView
    decreases requests.len(),
{
    if requests.len() == 0 {
        ledger
    } else {
        apply(after(ledger, requests.drop_last()), requests.last())
    }
}

/// The empty ledger of the program `program_id`.
pub open spec fn empty_ledger(program_id: Pubkey) -> LedgerView {
    LedgerView {
        program_id,
        roles: Map::empty(),
        properties: Map::empty(),
        disbursements: Map::empty(),
        recorded: Seq::empty(),
    }
}

/// No request breaks the invariant of the ledger.
pub proof fn law_apply_keeps_wf(ledger: LedgerView, request: Request)
    requires
        ledger.wf(),
    ensures
        apply(ledger, request).wf(),
{
    match request {
        Request::RegisterIdentity { identity, role } => {
            ledger.lemma_register_identity_keeps_wf(identity, role);
        },
        Request::SetRole { acting, target, new_role } => {
            ledger.lemma_set_role_keeps_wf(acting, target, new_role);
        },
        Request::CreateProperty {
            manager,
            token_mint,
            initial_valuation,
            token_supply,
            lock_period,
        } => {
            ledger.lemma_create_property_keeps_wf(
                manager,
                property_address(ledger.program_id, token_mint),
                initial_valuation,
                token_supply,
                lock_period,
            );
        },
        Request::SetFundingPhase { manager, property, frozen } => {
            ledger.lemma_set_funding_phase_keeps_wf(manager, property, frozen);
        },
        Request::UpdateValuation { manager, property, new_valuation } => {
            ledger.lemma_update_valuation_keeps_wf(manager, property, new_valuation);
        },
        Request::CreateDisbursement {
            manager,
            property,
            old_token_mint,
            new_token_mint,
            total_amount,
        } => {
            ledger.lemma_create_disbursement_keeps_wf(
                manager,
                property,
                old_token_mint,
                new_token_mint,
                total_amount,
                disbursement_address(ledger.program_id, property, new_token_mint),
            );
        },
        Request::SettleConversion { user, disbursement, amount, outcome } => {
            ledger.lemma_settle_conversion_keeps_wf(user, disbursement, amount, outcome);
        },
    }
}

/// Whatever requests an empty ledger has seen, its invariant holds.
pub proof fn law_history_keeps_wf(program_id: Pubkey, requests: Seq<Request>)
    ensures
        after(empty_ledger(program_id), requests).wf(),
    decreases requests.len(),
{
    if requests.len() > 0 {
        law_history_keeps_wf(program_id, requests.drop_last());
        law_apply_keeps_wf(
            after(empty_ledger(program_id), requests.drop_last()),
            requests.last(),
        );
    }
}

/// At every point in time the unclaimed and the claimed counter of every
/// property add up to the amounts of all disbursements recorded for it.
pub proof fn law_counters_balance(program_id: Pubkey, requests: Seq<Request>, property: Pubkey)
    requires
        after(empty_ledger(program_id), requests).properties.contains_key(property),
    ensures
        ({
            let ledger = after(empty_ledger(program_id), requests);
            let data = ledger.properties[property].data;
            data.unclaimed_disbursement + data.claimed_disbursement == recorded_total(
                ledger.recorded,
                property,
            )
        }),
{
    law_history_keeps_wf(program_id, requests);
    let ledger = after(empty_ledger(program_id), requests);
    assert(balanced(ledger.properties[property], ledger.recorded));
}

/// An identity registers once: a second request by the same identity is
/// refused as a duplicate, whatever the roles asked for, and changes
/// nothing.
pub proof fn law_register_identity_once(
    ledger: LedgerView,
    identity: Pubkey,
    first_role: UserRole,
    second_role: UserRole,
)
    ensures
        ({
            let first = ledger.register_identity(identity, first_role);
            first.0.register_identity(identity, second_role) == (
                first.0,
                Err::<UserAccount, ErrorCode>(ErrorCode::DuplicateIdentity),
            )
        }),
{
}

/// There is one property per asset: once a property has been created for an
/// asset, a second request for the same asset by a property manager is
/// refused as a duplicate and changes nothing.
pub proof fn law_create_property_once(
    ledger: LedgerView,
    token_mint: Pubkey,
    first_manager: Pubkey,
    first_valuation: u64,
    first_supply: u64,
    first_lock: u8,
    second_manager: Pubkey,
    second_valuation: u64,
    second_supply: u64,
    second_lock: u8,
)
    requires
        ledger.create_property(
            first_manager,
            token_mint,
            first_valuation,
            first_supply,
            first_lock,
        ).1 is Ok,
        ledger.has_role(second_manager, UserRole::PropertyManager),
    ensures
        ({
            let first = ledger.create_property(
                first_manager,
                token_mint,
                first_valuation,
                first_supply,
                first_lock,
            );
            first.0.create_property(
                second_manager,
                token_mint,
                second_valuation,
                second_supply,
                second_lock,
            ) == (first.0, Err::<Account<Property>, ErrorCode>(ErrorCode::DuplicateProperty))
        }),
{
}

/// There is one disbursement per property and new asset: once one has been
/// recorded, a second request for the same pair by the property's manager
/// is refused as a duplicate and changes nothing.
pub proof fn law_create_disbursement_once(
    ledger: LedgerView,
    manager: Pubkey,
    property: Pubkey,
    new_token_mint: Pubkey,
    first_old_mint: Pubkey,
    first_amount: u64,
    second_old_mint: Pubkey,
    second_amount: u64,
)
    requires
        ledger.create_disbursement(
            manager,
            property,
            first_old_mint,
            new_token_mint,
            first_amount,
        ).1 is Ok,
    ensures
        ({
            let first = ledger.create_disbursement(
                manager,
                property,
                first_old_mint,
                new_token_mint,
                first_amount,
            );
            first.0.create_disbursement(
                manager,
                property,
                second_old_mint,
                new_token_mint,
                second_amount,
            ) == (
                first.0,
                Err::<Account<Disbursement>, ErrorCode>(ErrorCode::DuplicateDisbursement),
            )
        }),
{
}

/// A conversion of more than the unclaimed balance of the property is
/// refused, whatever the asset ledger reported, and changes nothing.
pub proof fn law_conversion_within_unclaimed(
    ledger: LedgerView,
    user: Pubkey,
    disbursement: Pubkey,
    amount: u64,
    outcome: Result<(), u32>,
)
    requires
        ledger.conversion_accounts(user, disbursement) is Some,
        amount > ledger.conversion_accounts(
            user,
            disbursement,
        )->Some_0.property.unclaimed_disbursement,
    ensures
        ledger.settle_conversion(user, disbursement, amount, outcome) == (
            ledger,
            Err::<(), ErrorCode>(ErrorCode::DisbursementExceeded),
        ),
{
}

/// A conversion that is booked moves exactly its amount from the unclaimed
/// to the claimed counter of the property: the first does not grow and
/// stays at zero or above, the second does not shrink, and every other
/// property is as it was.
pub proof fn law_conversion_moves_amount(
    ledger: LedgerView,
    user: Pubkey,
    disbursement: Pubkey,
    amount: u64,
    outcome: Result<(), u32>,
)
    requires
        ledger.wf(),
        ledger.settle_conversion(user, disbursement, amount, outcome).1 is Ok,
    ensures
        ({
            let property = ledger.disbursements[disbursement].data.property;
            let before = ledger.properties[property].data;
            let post = ledger.settle_conversion(user, disbursement, amount, outcome).0;
            let after = post.properties[property].data;
            &&& ledger.properties.contains_key(property)
            &&& post.properties.contains_key(property)
            &&& after.unclaimed_disbursement == before.unclaimed_disbursement - amount
            &&& after.claimed_disbursement == before.claimed_disbursement + amount
            &&& 0 <= after.unclaimed_disbursement <= before.unclaimed_disbursement
            &&& before.claimed_disbursement <= after.claimed_disbursement
            &&& forall|other: Pubkey|
                other != property ==> post.properties.contains_key(other)
                    == ledger.properties.contains_key(other) && post.properties[other]
                    == ledger.properties[other]
        }),
{
}

/// Only the manager recorded on a property changes it: a request by any
/// other identity to set its funding phase, to overwrite its valuation or
/// to record a disbursement for it is refused and changes nothing.
pub proof fn law_only_manager_changes_property(
    ledger: LedgerView,
    caller: Pubkey,
    property: Pubkey,
    frozen: bool,
    new_valuation: u64,
    old_token_mint: Pubkey,
    new_token_mint: Pubkey,
    total_amount: u64,
)
    requires
        ledger.properties.contains_key(property),
        caller != ledger.properties[property].data.manager,
    ensures
        ledger.set_funding_phase(caller, property, frozen) == (
            ledger,
            Err::<(), ErrorCode>(ErrorCode::UnauthorizedManager),
        ),
        ledger.update_valuation(caller, property, new_valuation) == (
            ledger,
            Err::<(), ErrorCode>(ErrorCode::UnauthorizedManager),
        ),
        ledger.create_disbursement(
            caller,
            property,
            old_token_mint,
            new_token_mint,
            total_amount,
        ) == (ledger, Err::<Account<Disbursement>, ErrorCode>(ErrorCode::UnauthorizedManager)),
{
}

/// Where a request to set the funding phase, to overwrite the valuation or
/// to record a disbursement is granted, the caller is the manager recorded
/// on the property.
pub proof fn law_granted_to_manager(
    ledger: LedgerView,
    caller: Pubkey,
    property: Pubkey,
    frozen: bool,
    new_valuation: u64,
    old_token_mint: Pubkey,
    new_token_mint: Pubkey,
    total_amount: u64,
)
    requires
        ledger.set_funding_phase(caller, property, frozen).1 is Ok || ledger.update_valuation(
            caller,
            property,
            new_valuation,
        ).1 is Ok || ledger.create_disbursement(
            caller,
            property,
            old_token_mint,
            new_token_mint,
            total_amount,
        ).1 is Ok,
    ensures
        ledger.properties.contains_key(property),
        caller == ledger.properties[property].data.manager,
{
}

/// Records stay: whatever request the ledger takes, an identity that was
/// registered is still registered, a property that it held is still held,
/// and a disbursement that it held is still held, unchanged.
pub proof fn law_records_are_kept(ledger: LedgerView, request: Request, key: Pubkey)
    ensures
        ledger.roles.contains_key(key) ==> apply(ledger, request).roles.contains_key(key),
        ledger.properties.contains_key(key) ==> apply(ledger, request).properties.contains_key(
            key,
        ),
        ledger.disbursements.contains_key(key) ==> apply(
            ledger,
            request,
        ).disbursements.contains_key(key) && apply(ledger, request).disbursements[key]
            == ledger.disbursements[key],
{
}

/// Of a property only the current valuation, the funding-phase flag and the
/// two disbursement counters ever change: whatever request the ledger
/// takes, the manager, the initial valuation, the token supply, the lock
/// period and the active flag of a property that it held are as they were.
pub proof fn law_property_terms_are_kept(ledger: LedgerView, request: Request, property: Pubkey)
    requires
        ledger.properties.contains_key(property),
    ensures
        ({
            let before = ledger.properties[property];
            let after = apply(ledger, request).properties[property];
            &&& after.key == before.key
            &&& after.bump == before.bump
            &&& after.data.manager == before.data.manager
            &&& after.data.initial_valuation == before.data.initial_valuation
            &&& after.data.token_supply == before.data.token_supply
            &&& after.data.lock_period == before.data.lock_period
            &&& after.data.is_active == before.data.is_active
        }),
{
}

/// Only an admin changes roles: a request by an identity that is not
/// registered as admin is refused and changes nothing, and a request that
/// is granted came from an admin.
pub proof fn law_only_admin_sets_role(
    ledger: LedgerView,
    acting: Pubkey,
    target: Pubkey,
    new_role: UserRole,
)
    ensures
        !ledger.has_role(acting, UserRole::Admin) ==> ledger.set_role(acting, target, new_role)
            == (ledger, Err::<(), ErrorCode>(ErrorCode::UnauthorizedRole)),
        ledger.set_role(acting, target, new_role).1 is Ok ==> ledger.has_role(
            acting,
            UserRole::Admin,
        ),
{
}

} // verus!
