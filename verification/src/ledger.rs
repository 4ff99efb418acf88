//! The ledger: the store of all records, its invariant and its operations.

use vstd::prelude::*;
use crate::address::{
    disbursement_address,
    find_disbursement_address,
    find_property_address,
    property_address,
};
use crate::error::ErrorCode;
use crate::instructions::{
    after_conversion,
    conversion_burn,
    conversion_refusal,
    convert_tokens,
    create_disbursement,
    create_property,
    create_user,
    invest_in_property,
    is_conversion_mint,
    is_investment_mint,
    new_property,
    set_funding_phase,
    settle_conversion,
    update_user_role,
    update_valuation,
    Conversion,
    ConvertTokens,
    CreateDisbursement,
    CreateProperty,
    CreateUser,
    FundingControl,
    InvestInProperty,
    MintTo,
    UpdateUserRole,
    UpdateValuation,
};
use crate::pubkey::Pubkey;
use crate::state::{Account, Disbursement, Property, UserAccount, UserRole};
use crate::store::{
    by_key,
    distinct_identities,
    distinct_keys,
    find_account,
    find_user,
    lemma_by_key_at,
    lemma_by_key_push,
    lemma_by_key_update,
    lemma_recorded_total_none,
    lemma_recorded_total_push,
    lemma_roles_of_push,
    lemma_roles_of_update,
    recorded_total,
    roles_of,
};

verus! {

/// The ledger: the registered identities, the properties and the
/// disbursements.
///
/// The identities passed to its operations are taken as authenticated; that
/// is the business of whoever calls.
pub struct Ledger {
    program_id: Pubkey,
    users: Vec<UserAccount>,
    properties: Vec<Account<Property>>,
    disbursements: Vec<Account<Disbursement>>,
}

/// What a ledger holds.
pub struct LedgerView {
    /// The program under which record addresses are derived.
    pub program_id: Pubkey,
    /// The role of each registered identity.
    pub roles: Map<Pubkey, UserRole>,
    /// The properties, each under the address where it lives.
    pub properties: Map<Pubkey, Account<Property>>,
    /// The disbursements, each under the address where it lives.
    pub disbursements: Map<Pubkey, Account<Disbursement>>,
    /// All disbursements ever recorded, in the order of their creation.
    pub recorded: Seq<Account<Disbursement>>,
}

impl View for Ledger {
    type V = LedgerView;

    closed spec fn view(&self) -> LedgerView {
        LedgerView {
            program_id: self.program_id,
            roles: roles_of(self.users@),
            properties: by_key(self.properties@),
            disbursements: by_key(self.disbursements@),
            recorded: self.disbursements@,
        }
    }
}

/// Whether the two counters of the property add up to what was recorded for
/// it in `recorded`.
pub open spec fn balanced(
    property: Account<Property>,
    recorded: Seq<Account<Disbursement>>,
) -> bool {
    property.data.unclaimed_disbursement + property.data.claimed_disbursement == recorded_total(
        recorded,
        property.key,
    )
}

impl LedgerView {
    /// The invariant of the ledger: the disbursements under their addresses
    /// are the recorded ones, one per address; every property stands under
    /// its own address; every disbursement belongs to a property of the
    /// ledger; and the two counters of every property add up to the amounts
    /// of all disbursements ever recorded for it.
    pub open spec fn wf(self) -> bool {
        &&& distinct_keys(self.recorded)
        &&& self.disbursements =~= by_key(self.recorded)
        &&& forall|key: Pubkey|
            self.properties.contains_key(key) ==> (#[trigger] self.properties[key]).key == key
        &&& forall|d: int|
            0 <= d < self.recorded.len() ==> self.properties.contains_key(
                (#[trigger] self.recorded[d]).data.property,
            )
        &&& forall|key: Pubkey| #[trigger]
            self.properties.contains_key(key) ==> balanced(self.properties[key], self.recorded)
    }

    /// Whether `identity` is registered with `role`.
    pub open spec fn has_role(self, identity: Pubkey, role: UserRole) -> bool {
        self.roles.contains_key(identity) && self.roles[identity] == role
    }

    /// The ledger with the data of the property at `key` replaced.
    pub open spec fn with_property(self, key: Pubkey, data: Property) -> LedgerView {
        LedgerView {
            properties: self.properties.insert(key, Account { data, ..self.properties[key] }),
            ..self
        }
    }

    /// The ledger and the answer after `identity` has asked to be registered
    /// with `role`.
    pub open spec fn register_identity(self, identity: Pubkey, role: UserRole) -> (
        LedgerView,
        Result<UserAccount, ErrorCode>,
    ) {
        if self.roles.contains_key(identity) {
            (self, Err(ErrorCode::DuplicateIdentity))
        } else {
            (
                LedgerView { roles: self.roles.insert(identity, role), ..self },
                Ok(UserAccount { pubkey: identity, role }),
            )
        }
    }

    /// The ledger and the answer after `acting` has asked to give `target`
    /// the role `new_role`.
    pub open spec fn set_role(self, acting: Pubkey, target: Pubkey, new_role: UserRole) -> (
        LedgerView,
        Result<(), ErrorCode>,
    ) {
        if !self.has_role(acting, UserRole::Admin) {
            (self, Err(ErrorCode::UnauthorizedRole))
        } else if !self.roles.contains_key(target) {
            (self, Err(ErrorCode::AccountNotInitialized))
        } else {
            (LedgerView { roles: self.roles.insert(target, new_role), ..self }, Ok(()))
        }
    }

    /// The ledger and the answer after `manager` has asked to create a
    /// property at the address `found`.
    pub open spec fn create_property_at(
        self,
        manager: Pubkey,
        found: Option<(Pubkey, u8)>,
        initial_valuation: u64,
        token_supply: u64,
        lock_period: u8,
    ) -> (LedgerView, Result<Account<Property>, ErrorCode>) {
        if !self.has_role(manager, UserRole::PropertyManager) {
            (self, Err(ErrorCode::UnauthorizedRole))
        } else {
            match found {
                None => (self, Err(ErrorCode::NoProgramAddress)),
                Some((key, bump)) => if self.properties.contains_key(key) {
                    (self, Err(ErrorCode::DuplicateProperty))
                } else {
                    let account = Account {
                        key,
                        bump,
                        data: new_property(manager, initial_valuation, token_supply, lock_period),
                    };
                    (
                        LedgerView { properties: self.properties.insert(key, account), ..self },
                        Ok(account),
                    )
                },
            }
        }
    }

    /// The ledger and the answer after `manager` has asked to create a
    /// property for the asset `token_mint`.
    pub open spec fn create_property(
        self,
        manager: Pubkey,
        token_mint: Pubkey,
        initial_valuation: u64,
        token_supply: u64,
        lock_period: u8,
    ) -> (LedgerView, Result<Account<Property>, ErrorCode>) {
        self.create_property_at(
            manager,
            property_address(self.program_id, token_mint),
            initial_valuation,
            token_supply,
            lock_period,
        )
    }

    /// The ledger and the answer after `manager` has asked to set the
    /// funding-phase flag of the property at `property`.
    pub open spec fn set_funding_phase(self, manager: Pubkey, property: Pubkey, frozen: bool) -> (
        LedgerView,
        Result<(), ErrorCode>,
    ) {
        if !self.properties.contains_key(property) {
            (self, Err(ErrorCode::AccountNotInitialized))
        } else if self.properties[property].data.manager != manager {
            (self, Err(ErrorCode::UnauthorizedManager))
        } else {
            (
                self.with_property(
                    property,
                    Property { is_frozen: frozen, ..self.properties[property].data },
                ),
                Ok(()),
            )
        }
    }

    /// The ledger and the answer after `manager` has asked to overwrite the
    /// current valuation of the property at `property`.
    pub open spec fn update_valuation(
        self,
        manager: Pubkey,
        property: Pubkey,
        new_valuation: u64,
    ) -> (LedgerView, Result<(), ErrorCode>) {
        if !self.properties.contains_key(property) {
            (self, Err(ErrorCode::AccountNotInitialized))
        } else if self.properties[property].data.manager != manager {
            (self, Err(ErrorCode::UnauthorizedManager))
        } else {
            (
                self.with_property(
                    property,
                    Property { current_valuation: new_valuation, ..self.properties[property].data },
                ),
                Ok(()),
            )
        }
    }

    /// The ledger and the answer after `manager` has asked to record, at the
    /// address `found`, a disbursement of `total_amount` for the property at
    /// `property`.
    pub open spec fn create_disbursement_at(
        self,
        manager: Pubkey,
        property: Pubkey,
        old_token_mint: Pubkey,
        new_token_mint: Pubkey,
        total_amount: u64,
        found: Option<(Pubkey, u8)>,
    ) -> (LedgerView, Result<Account<Disbursement>, ErrorCode>) {
        if !self.properties.contains_key(property) {
            (self, Err(ErrorCode::AccountNotInitialized))
        } else if self.properties[property].data.manager != manager {
            (self, Err(ErrorCode::UnauthorizedManager))
        } else {
            match found {
                None => (self, Err(ErrorCode::NoProgramAddress)),
                Some((key, bump)) => if self.disbursements.contains_key(key) {
                    (self, Err(ErrorCode::DuplicateDisbursement))
                } else if self.properties[property].data.unclaimed_disbursement + total_amount
                    > u64::MAX {
                    (self, Err(ErrorCode::CounterOverflow))
                } else {
                    let account = Account {
                        key,
                        bump,
                        data: Disbursement {
                            property,
                            token_mint: old_token_mint,
                            new_token_mint,
                            total_amount,
                        },
                    };
                    (
                        LedgerView {
                            disbursements: self.disbursements.insert(key, account),
                            recorded: self.recorded.push(account),
                            ..self.with_property(
                                property,
                                Property {
                                    unclaimed_disbursement: (
                                    self.properties[property].data.unclaimed_disbursement
                                        + total_amount) as u64,
                                    ..self.properties[property].data
                                },
                            )
                        },
                        Ok(account),
                    )
                },
            }
        }
    }

    /// The ledger and the answer after `manager` has asked to record a
    /// disbursement of `total_amount` for the property at `property`, from
    /// `old_token_mint` into `new_token_mint`.
    pub open spec fn create_disbursement(
        self,
        manager: Pubkey,
        property: Pubkey,
        old_token_mint: Pubkey,
        new_token_mint: Pubkey,
        total_amount: u64,
    ) -> (LedgerView, Result<Account<Disbursement>, ErrorCode>) {
        self.create_disbursement_at(
            manager,
            property,
            old_token_mint,
            new_token_mint,
            total_amount,
            disbursement_address(self.program_id, property, new_token_mint),
        )
    }

    /// The accounts of an investment by `investor` in the property at
    /// `property`, whose asset is `token_mint`, if the ledger holds them.
    pub open spec fn investment_accounts(
        self,
        investor: Pubkey,
        property: Pubkey,
        token_mint: Pubkey,
    ) -> Option<InvestInProperty> {
        if self.properties.contains_key(property) {
            Some(InvestInProperty { property: self.properties[property], token_mint, investor })
        } else {
            None
        }
    }

    /// The accounts of a conversion under the disbursement at
    /// `disbursement` for `user`, if the ledger holds them.
    pub open spec fn conversion_accounts(self, user: Pubkey, disbursement: Pubkey) -> Option<
        ConvertTokens,
    > {
        if self.disbursements.contains_key(disbursement) && self.properties.contains_key(
            self.disbursements[disbursement].data.property,
        ) {
            Some(
                ConvertTokens {
                    disbursement: self.disbursements[disbursement],
                    property: self.properties[self.disbursements[disbursement].data.property].data,
                    user,
                },
            )
        } else {
            None
        }
    }

    /// The ledger and the answer after the asset ledger has reported
    /// `outcome` for a conversion of `amount` by `user` under the
    /// disbursement at `disbursement`.
    pub open spec fn settle_conversion(
        self,
        user: Pubkey,
        disbursement: Pubkey,
        amount: u64,
        outcome: Result<(), u32>,
    ) -> (LedgerView, Result<(), ErrorCode>) {
        match self.conversion_accounts(user, disbursement) {
            None => (self, Err(ErrorCode::AccountNotInitialized)),
            Some(ctx) => match conversion_refusal(ctx.property, amount) {
                Some(error) => (self, Err(error)),
                None => match outcome {
                    Err(code) => (self, Err(ErrorCode::Substrate(code))),
                    Ok(_) => (
                        self.with_property(
                            ctx.disbursement.data.property,
                            after_conversion(ctx.property, amount),
                        ),
                        Ok(()),
                    ),
                },
            },
        }
    }

    /// Registering an identity keeps the invariant.
    pub proof fn lemma_register_identity_keeps_wf(self, identity: Pubkey, role: UserRole)
        requires
            self.wf(),
        ensures
            self.register_identity(identity, role).0.wf(),
    {
    }

    /// Changing a role keeps the invariant.
    pub proof fn lemma_set_role_keeps_wf(self, acting: Pubkey, target: Pubkey, new_role: UserRole)
        requires
            self.wf(),
        ensures
            self.set_role(acting, target, new_role).0.wf(),
    {
    }

    /// Replacing the data of a property keeps the invariant where the two
    /// counters still add up to the same.
    pub proof fn lemma_with_property_keeps_wf(self, key: Pubkey, data: Property)
        requires
            self.wf(),
            self.properties.contains_key(key),
            data.unclaimed_disbursement + data.claimed_disbursement
                == self.properties[key].data.unclaimed_disbursement
                + self.properties[key].data.claimed_disbursement,
        ensures
            self.with_property(key, data).wf(),
    {
        let post = self.with_property(key, data);
        assert forall|other: Pubkey| #[trigger]
            post.properties.contains_key(other) implies balanced(
            post.properties[other],
            post.recorded,
        ) by {
            assert(self.properties.contains_key(other));
            assert(balanced(self.properties[other], self.recorded));
        }
    }

    /// Creating a property keeps the invariant.
    pub proof fn lemma_create_property_keeps_wf(
        self,
        manager: Pubkey,
        found: Option<(Pubkey, u8)>,
        initial_valuation: u64,
        token_supply: u64,
        lock_period: u8,
    )
        requires
            self.wf(),
        ensures
            self.create_property_at(
                manager,
                found,
                initial_valuation,
                token_supply,
                lock_period,
            ).0.wf(),
    {
        let (post, res) = self.create_property_at(
            manager,
            found,
            initial_valuation,
            token_supply,
            lock_period,
        );
        if res is Ok {
            let account = res->Ok_0;
            assert forall|d: int| 0 <= d < self.recorded.len() implies (
            #[trigger] self.recorded[d]).data.property != account.key by {
                assert(self.properties.contains_key(self.recorded[d].data.property));
            }
            lemma_recorded_total_none(self.recorded, account.key);
            assert forall|other: Pubkey| #[trigger]
                post.properties.contains_key(other) implies balanced(
                post.properties[other],
                post.recorded,
            ) by {
                if other != account.key {
                    assert(self.properties.contains_key(other));
                    assert(balanced(self.properties[other], self.recorded));
                }
            }
        }
    }

    /// Changing the funding-phase flag keeps the invariant.
    pub proof fn lemma_set_funding_phase_keeps_wf(
        self,
        manager: Pubkey,
        property: Pubkey,
        frozen: bool,
    )
        requires
            self.wf(),
        ensures
            self.set_funding_phase(manager, property, frozen).0.wf(),
    {
        if self.properties.contains_key(property) {
            self.lemma_with_property_keeps_wf(
                property,
                Property { is_frozen: frozen, ..self.properties[property].data },
            );
        }
    }

    /// Changing the valuation keeps the invariant.
    pub proof fn lemma_update_valuation_keeps_wf(
        self,
        manager: Pubkey,
        property: Pubkey,
        new_valuation: u64,
    )
        requires
            self.wf(),
        ensures
            self.update_valuation(manager, property, new_valuation).0.wf(),
    {
        if self.properties.contains_key(property) {
            self.lemma_with_property_keeps_wf(
                property,
                Property { current_valuation: new_valuation, ..self.properties[property].data },
            );
        }
    }

    /// Recording a disbursement keeps the invariant.
    pub proof fn lemma_create_disbursement_keeps_wf(
        self,
        manager: Pubkey,
        property: Pubkey,
        old_token_mint: Pubkey,
        new_token_mint: Pubkey,
        total_amount: u64,
        found: Option<(Pubkey, u8)>,
    )
        requires
            self.wf(),
        ensures
            self.create_disbursement_at(
                manager,
                property,
                old_token_mint,
                new_token_mint,
                total_amount,
                found,
            ).0.wf(),
    {
        let (post, res) = self.create_disbursement_at(
            manager,
            property,
            old_token_mint,
            new_token_mint,
            total_amount,
            found,
        );
        if res is Ok {
            let account = res->Ok_0;
            lemma_by_key_push(self.recorded, account);
            assert forall|other: Pubkey| #[trigger]
                post.properties.contains_key(other) implies balanced(
                post.properties[other],
                post.recorded,
            ) by {
                assert(self.properties.contains_key(other));
                assert(balanced(self.properties[other], self.recorded));
                lemma_recorded_total_push(self.recorded, account, other);
            }
        }
    }

    /// Settling a conversion keeps the invariant.
    pub proof fn lemma_settle_conversion_keeps_wf(
        self,
        user: Pubkey,
        disbursement: Pubkey,
        amount: u64,
        outcome: Result<(), u32>,
    )
        requires
            self.wf(),
        ensures
            self.settle_conversion(user, disbursement, amount, outcome).0.wf(),
    {
        if self.settle_conversion(user, disbursement, amount, outcome).1 is Ok {
            let ctx = self.conversion_accounts(user, disbursement)->Some_0;
            self.lemma_with_property_keeps_wf(
                ctx.disbursement.data.property,
                after_conversion(ctx.property, amount),
            );
        }
    }
}

impl Ledger {
    /// The invariant of the ledger: no identity, property address or
    /// disbursement address stands twice in it, and what it holds meets the
    /// invariant of [`LedgerView`].
    pub closed spec fn wf(&self) -> bool {
        &&& distinct_identities(self.users@)
        &&& distinct_keys(self.properties@)
        &&& distinct_keys(self.disbursements@)
        &&& self@.wf()
    }

    /// An empty ledger whose record addresses are derived under
    /// `program_id`.
    pub fn new(program_id: Pubkey) -> (ledger: Ledger)
        ensures
            ledger.wf(),
            ledger@.wf(),
            ledger@ == (LedgerView {
                program_id,
                roles: Map::empty(),
                properties: Map::empty(),
                disbursements: Map::empty(),
                recorded: Seq::empty(),
            }),
    {
        let ledger = Ledger {
            program_id,
            users: Vec::new(),
            properties: Vec::new(),
            disbursements: Vec::new(),
        };
        assert(ledger@.roles =~= Map::empty());
        assert(ledger@.properties =~= Map::empty());
        assert(ledger@.disbursements =~= Map::empty());
        ledger
    }

    /// The program under which record addresses are derived.
    pub fn program_id(&self) -> (id: Pubkey)
        ensures
            id == self@.program_id,
    {
        self.program_id
    }

    /// The record of `identity`, if it is registered.
    pub fn user(&self, identity: &Pubkey) -> (found: Option<UserAccount>)
        requires
            self.wf(),
        ensures
            found == if self@.roles.contains_key(*identity) {
                Some(UserAccount { pubkey: *identity, role: self@.roles[*identity] })
            } else {
                None
            },
    {
        match find_user(&self.users, identity) {
            Some(i) => Some(self.users[i]),
            None => None,
        }
    }

    /// The property that lives at `key`, if there is one.
    pub fn property(&self, key: &Pubkey) -> (found: Option<Account<Property>>)
        requires
            self.wf(),
        ensures
            found == if self@.properties.contains_key(*key) {
                Some(self@.properties[*key])
            } else {
                None
            },
    {
        match find_account(&self.properties, key) {
            Some(i) => Some(self.properties[i]),
            None => None,
        }
    }

    /// The disbursement that lives at `key`, if there is one.
    pub fn disbursement(&self, key: &Pubkey) -> (found: Option<Account<Disbursement>>)
        requires
            self.wf(),
        ensures
            found == if self@.disbursements.contains_key(*key) {
                Some(self@.disbursements[*key])
            } else {
                None
            },
    {
        match find_account(&self.disbursements, key) {
            Some(i) => Some(self.disbursements[i]),
            None => None,
        }
    }

    /// Registers `identity` with `role`. Any identity may register with any
    /// role, but only once.
    pub fn register_identity(&mut self, identity: Pubkey, role: UserRole) -> (res: Result<
        UserAccount,
        ErrorCode,
    >)
        requires
            old(self).wf(),
        ensures
            final(self).wf(),
            final(self)@.wf(),
            (final(self)@, res) == old(self)@.register_identity(identity, role),
    {
        proof {
            self@.lemma_register_identity_keeps_wf(identity, role);
        }
        if find_user(&self.users, &identity).is_some() {
            return Err(ErrorCode::DuplicateIdentity);
        }
        let mut ctx = CreateUser { user_account: UserAccount::blank(), user: identity };
        match create_user(&mut ctx, role) {
            Ok(_) => {
                proof {
                    lemma_roles_of_push(self.users@, ctx.user_account);
                }
                self.users.push(ctx.user_account);
                Ok(ctx.user_account)
            },
            Err(error) => Err(error),
        }
    }

    /// Gives `target` the role `new_role`. Only an identity registered as
    /// admin may do so.
    pub fn set_role(&mut self, acting: Pubkey, target: Pubkey, new_role: UserRole) -> (res:
        Result<(), ErrorCode>)
        requires
            old(self).wf(),
        ensures
            final(self).wf(),
            final(self)@.wf(),
            (final(self)@, res) == old(self)@.set_role(acting, target, new_role),
    {
        proof {
            self@.lemma_set_role_keeps_wf(acting, target, new_role);
        }
        let admin_account = match find_user(&self.users, &acting) {
            Some(a) => self.users[a],
            None => {
                return Err(ErrorCode::UnauthorizedRole);
            },
        };
        match admin_account.role {
            UserRole::Admin => {},
            _ => {
                return Err(ErrorCode::UnauthorizedRole);
            },
        }
        let t = match find_user(&self.users, &target) {
            Some(t) => t,
            None => {
                return Err(ErrorCode::AccountNotInitialized);
            },
        };
        let mut ctx = UpdateUserRole {
            target_user_account: self.users[t],
            admin_account,
            admin: acting,
        };
        match update_user_role(&mut ctx, new_role) {
            Ok(_) => {
                proof {
                    lemma_roles_of_update(self.users@, t as int, ctx.target_user_account);
                }
                self.users.set(t, ctx.target_user_account);
                Ok(())
            },
            Err(error) => Err(error),
        }
    }

    /// Creates a property at the address `found`, with `manager` as its
    /// manager: frozen, active, both disbursement counters at zero. Only an
    /// identity registered as property manager may do so, and only where no
    /// property lives at that address yet.
    pub fn create_property_at(
        &mut self,
        manager: Pubkey,
        found: Option<(Pubkey, u8)>,
        initial_valuation: u64,
        token_supply: u64,
        lock_period: u8,
    ) -> (res: Result<Account<Property>, ErrorCode>)
        requires
            old(self).wf(),
        ensures
            final(self).wf(),
            final(self)@.wf(),
            (final(self)@, res) == old(self)@.create_property_at(
                manager,
                found,
                initial_valuation,
                token_supply,
                lock_period,
            ),
    {
        proof {
            self@.lemma_create_property_keeps_wf(
                manager,
                found,
                initial_valuation,
                token_supply,
                lock_period,
            );
        }
        let manager_account = match find_user(&self.users, &manager) {
            Some(m) => self.users[m],
            None => {
                return Err(ErrorCode::UnauthorizedRole);
            },
        };
        let mut ctx = CreateProperty { property: Property::blank(), manager_account, manager };
        match create_property(&mut ctx, initial_valuation, token_supply, lock_period) {
            Ok(_) => {},
            Err(error) => {
                return Err(error);
            },
        }
        let (key, bump) = match found {
            Some(place) => place,
            None => {
                return Err(ErrorCode::NoProgramAddress);
            },
        };
        if find_account(&self.properties, &key).is_some() {
            return Err(ErrorCode::DuplicateProperty);
        }
        let account = Account { key, bump, data: ctx.property };
        proof {
            lemma_by_key_push(self.properties@, account);
        }
        self.properties.push(account);
        Ok(account)
    }

    /// Creates the property for the asset `token_mint`, at the address
    /// derived from it. There is one property per asset: a second one for
    /// the same asset is refused.
    pub fn create_property(
        &mut self,
        manager: Pubkey,
        token_mint: Pubkey,
        initial_valuation: u64,
        token_supply: u64,
        lock_period: u8,
    ) -> (res: Result<Account<Property>, ErrorCode>)
        requires
            old(self).wf(),
        ensures
            final(self).wf(),
            final(self)@.wf(),
            (final(self)@, res) == old(self)@.create_property(
                manager,
                token_mint,
                initial_valuation,
                token_supply,
                lock_period,
            ),
    {
        let found = find_property_address(&self.program_id, &token_mint);
        self.create_property_at(manager, found, initial_valuation, token_supply, lock_period)
    }

    /// Sets the funding-phase flag of the property at `property`. Only its
    /// manager may do so.
    pub fn set_funding_phase(&mut self, manager: Pubkey, property: Pubkey, frozen: bool) -> (res:
        Result<(), ErrorCode>)
        requires
            old(self).wf(),
        ensures
            final(self).wf(),
            final(self)@.wf(),
            (final(self)@, res) == old(self)@.set_funding_phase(manager, property, frozen),
    {
        proof {
            self@.lemma_set_funding_phase_keeps_wf(manager, property, frozen);
        }
        let i = match find_account(&self.properties, &property) {
            Some(i) => i,
            None => {
                return Err(ErrorCode::AccountNotInitialized);
            },
        };
        let account = self.properties[i];
        let mut ctx = FundingControl { property: account.data, manager };
        match set_funding_phase(&mut ctx, frozen) {
            Ok(_) => {
                self.put_property(i, ctx.property);
                Ok(())
            },
            Err(error) => Err(error),
        }
    }

    /// Turns the funding-phase flag of the property at `property` on.
    pub fn start_funding(&mut self, manager: Pubkey, property: Pubkey) -> (res: Result<
        (),
        ErrorCode,
    >)
        requires
            old(self).wf(),
        ensures
            final(self).wf(),
            final(self)@.wf(),
            (final(self)@, res) == old(self)@.set_funding_phase(manager, property, true),
    {
        self.set_funding_phase(manager, property, true)
    }

    /// Turns the funding-phase flag of the property at `property` off.
    pub fn complete_funding(&mut self, manager: Pubkey, property: Pubkey) -> (res: Result<
        (),
        ErrorCode,
    >)
        requires
            old(self).wf(),
        ensures
            final(self).wf(),
            final(self)@.wf(),
            (final(self)@, res) == old(self)@.set_funding_phase(manager, property, false),
    {
        self.set_funding_phase(manager, property, false)
    }

    /// Overwrites the current valuation of the property at `property`. Only
    /// its manager may do so.
    pub fn update_valuation(
        &mut self,
        manager: Pubkey,
        property: Pubkey,
        new_valuation: u64,
    ) -> (res: Result<(), ErrorCode>)
        requires
            old(self).wf(),
        ensures
            final(self).wf(),
            final(self)@.wf(),
            (final(self)@, res) == old(self)@.update_valuation(manager, property, new_valuation),
    {
        proof {
            self@.lemma_update_valuation_keeps_wf(manager, property, new_valuation);
        }
        let i = match find_account(&self.properties, &property) {
            Some(i) => i,
            None => {
                return Err(ErrorCode::AccountNotInitialized);
            },
        };
        let account = self.properties[i];
        let mut ctx = UpdateValuation { property: account.data, manager };
        match update_valuation(&mut ctx, new_valuation) {
            Ok(_) => {
                self.put_property(i, ctx.property);
                Ok(())
            },
            Err(error) => Err(error),
        }
    }

    /// Admits an investment of `amount` units of `token_mint` by `investor`
    /// in the property at `property`, and hands out the order for the asset
    /// ledger. The ledger itself does not change.
    pub fn invest_in_property(
        &self,
        investor: Pubkey,
        property: Pubkey,
        token_mint: Pubkey,
        amount: u64,
    ) -> (res: Result<MintTo, ErrorCode>)
        requires
            self.wf(),
        ensures
            match self@.investment_accounts(investor, property, token_mint) {
                None => res == Err::<MintTo, ErrorCode>(ErrorCode::AccountNotInitialized),
                Some(ctx) => if ctx.property.data.is_frozen {
                    res matches Ok(order) && is_investment_mint(order, ctx, amount)
                } else {
                    res == Err::<MintTo, ErrorCode>(ErrorCode::PropertyNotFrozen)
                },
            },
    {
        match find_account(&self.properties, &property) {
            None => Err(ErrorCode::AccountNotInitialized),
            Some(i) => {
                let ctx = InvestInProperty { property: self.properties[i], token_mint, investor };
                invest_in_property(&ctx, amount)
            },
        }
    }

    /// Records, at the address `found`, a disbursement of `total_amount`
    /// for the property at `property` and adds the amount to the property's
    /// unclaimed counter. Only the property's manager may do so, and only
    /// where no disbursement lives at that address yet.
    pub fn create_disbursement_at(
        &mut self,
        manager: Pubkey,
        property: Pubkey,
        old_token_mint: Pubkey,
        new_token_mint: Pubkey,
        total_amount: u64,
        found: Option<(Pubkey, u8)>,
    ) -> (res: Result<Account<Disbursement>, ErrorCode>)
        requires
            old(self).wf(),
        ensures
            final(self).wf(),
            final(self)@.wf(),
            (final(self)@, res) == old(self)@.create_disbursement_at(
                manager,
                property,
                old_token_mint,
                new_token_mint,
                total_amount,
                found,
            ),
    {
        proof {
            self@.lemma_create_disbursement_keeps_wf(
                manager,
                property,
                old_token_mint,
                new_token_mint,
                total_amount,
                found,
            );
        }
        let i = match find_account(&self.properties, &property) {
            Some(i) => i,
            None => {
                return Err(ErrorCode::AccountNotInitialized);
            },
        };
        let account = self.properties[i];
        if !(account.data.manager == manager) {
            return Err(ErrorCode::UnauthorizedManager);
        }
        let (key, bump) = match found {
            Some(place) => place,
            None => {
                return Err(ErrorCode::NoProgramAddress);
            },
        };
        if find_account(&self.disbursements, &key).is_some() {
            return Err(ErrorCode::DuplicateDisbursement);
        }
        let mut ctx = CreateDisbursement {
            disbursement: Disbursement::blank(),
            property: account.data,
            property_key: account.key,
            old_token_mint,
            new_token_mint,
            manager,
        };
        match create_disbursement(&mut ctx, total_amount) {
            Ok(_) => {
                let created = Account { key, bump, data: ctx.disbursement };
                proof {
                    lemma_by_key_push(self.disbursements@, created);
                }
                self.disbursements.push(created);
                self.put_property(i, ctx.property);
                Ok(created)
            },
            Err(error) => Err(error),
        }
    }

    /// Records a disbursement of `total_amount` for the property at
    /// `property`, from `old_token_mint` into `new_token_mint`, at the
    /// address derived from the property and the new asset. There is one
    /// disbursement per property and new asset: a second one is refused.
    pub fn create_disbursement(
        &mut self,
        manager: Pubkey,
        property: Pubkey,
        old_token_mint: Pubkey,
        new_token_mint: Pubkey,
        total_amount: u64,
    ) -> (res: Result<Account<Disbursement>, ErrorCode>)
        requires
            old(self).wf(),
        ensures
            final(self).wf(),
            final(self)@.wf(),
            (final(self)@, res) == old(self)@.create_disbursement(
                manager,
                property,
                old_token_mint,
                new_token_mint,
                total_amount,
            ),
    {
        let found = find_disbursement_address(&self.program_id, &property, &new_token_mint);
        self.create_disbursement_at(
            manager,
            property,
            old_token_mint,
            new_token_mint,
            total_amount,
            found,
        )
    }

    /// Opens the conversion of `amount` units by `user` under the
    /// disbursement at `disbursement`, and hands out the two orders for the
    /// asset ledger. An amount above the unclaimed balance of the property
    /// is refused. The ledger itself does not change.
    pub fn convert_tokens(&self, user: Pubkey, disbursement: Pubkey, amount: u64) -> (res: Result<
        Conversion,
        ErrorCode,
    >)
        requires
            self.wf(),
        ensures
            match self@.conversion_accounts(user, disbursement) {
                None => res == Err::<Conversion, ErrorCode>(ErrorCode::AccountNotInitialized),
                Some(ctx) => match conversion_refusal(ctx.property, amount) {
                    Some(error) => res == Err::<Conversion, ErrorCode>(error),
                    None => res matches Ok(orders) && orders.burn == conversion_burn(ctx, amount)
                        && is_conversion_mint(orders.mint, ctx, amount),
                },
            },
    {
        let d = match find_account(&self.disbursements, &disbursement) {
            Some(d) => d,
            None => {
                return Err(ErrorCode::AccountNotInitialized);
            },
        };
        let account = self.disbursements[d];
        match find_account(&self.properties, &account.data.property) {
            None => Err(ErrorCode::AccountNotInitialized),
            Some(i) => {
                let ctx = ConvertTokens {
                    disbursement: account,
                    property: self.properties[i].data,
                    user,
                };
                convert_tokens(&ctx, amount)
            },
        }
    }

    /// Books the conversion of `amount` by `user` under the disbursement at
    /// `disbursement` once the asset ledger has answered with `outcome`:
    /// `Ok` where both orders of `convert_tokens` were carried out, else the
    /// code of the first that failed. The amount moves from the unclaimed to
    /// the claimed counter of the property only where both were carried out.
    pub fn settle_conversion(
        &mut self,
        user: Pubkey,
        disbursement: Pubkey,
        amount: u64,
        outcome: Result<(), u32>,
    ) -> (res: Result<(), ErrorCode>)
        requires
            old(self).wf(),
        ensures
            final(self).wf(),
            final(self)@.wf(),
            (final(self)@, res) == old(self)@.settle_conversion(
                user,
                disbursement,
                amount,
                outcome,
            ),
    {
        proof {
            self@.lemma_settle_conversion_keeps_wf(user, disbursement, amount, outcome);
        }
        let d = match find_account(&self.disbursements, &disbursement) {
            Some(d) => d,
            None => {
                return Err(ErrorCode::AccountNotInitialized);
            },
        };
        let account = self.disbursements[d];
        let i = match find_account(&self.properties, &account.data.property) {
            Some(i) => i,
            None => {
                return Err(ErrorCode::AccountNotInitialized);
            },
        };
        let mut ctx = ConvertTokens {
            disbursement: account,
            property: self.properties[i].data,
            user,
        };
        match settle_conversion(&mut ctx, amount, outcome) {
            Ok(_) => {
                self.put_property(i, ctx.property);
                Ok(())
            },
            Err(error) => Err(error),
        }
    }

    /// Replaces the data of the property at place `i`.
    fn put_property(&mut self, i: usize, data: Property)
        requires
            distinct_keys(old(self).properties@),
            i < old(self).properties.len(),
        ensures
            distinct_keys(final(self).properties@),
            final(self).users == old(self).users,
            final(self).disbursements == old(self).disbursements,
            final(self).program_id == old(self).program_id,
            final(self)@ == old(self)@.with_property(old(self).properties[i as int].key, data),
    {
        let account = self.properties[i];
        let replaced = Account { key: account.key, bump: account.bump, data };
        proof {
            lemma_by_key_at(self.properties@, i as int);
            lemma_by_key_update(self.properties@, i as int, replaced);
        }
        self.properties.set(i, replaced);
    }
}

} // verus!
