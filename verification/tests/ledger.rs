use real_estate_crowdfunding::address::find_property_address;
use real_estate_crowdfunding::error::ErrorCode;
use real_estate_crowdfunding::ledger::Ledger;
use real_estate_crowdfunding::pubkey::Pubkey;
use real_estate_crowdfunding::state::{Account, Disbursement, Property, UserAccount, UserRole};

fn key(n: u8) -> Pubkey {
    Pubkey::new_from_array([n; 32])
}

fn ledger_with_roles() -> Ledger {
    let mut ledger = Ledger::new(key(200));
    ledger.register_identity(key(1), UserRole::PropertyManager).unwrap();
    ledger.register_identity(key(2), UserRole::User).unwrap();
    ledger.register_identity(key(3), UserRole::Admin).unwrap();
    ledger
}

fn recorded_for(ledger: &Ledger, keys: &[Pubkey], property: Pubkey) -> u128 {
    keys.iter()
        .map(|k| ledger.disbursement(k).unwrap().data)
        .filter(|d| d.property == property)
        .map(|d| d.total_amount as u128)
        .sum()
}

fn counters(ledger: &Ledger, property: Pubkey) -> (u64, u64) {
    let data = ledger.property(&property).unwrap().data;
    (data.unclaimed_disbursement, data.claimed_disbursement)
}

#[test]
fn new_ledger_is_empty() {
    let ledger = Ledger::new(key(200));
    assert_eq!(ledger.program_id(), key(200));
    assert_eq!(ledger.user(&key(1)), None);
    assert_eq!(ledger.property(&key(1)), None);
    assert_eq!(ledger.disbursement(&key(1)), None);
}

#[test]
fn register_twice_is_refused_the_second_time() {
    let mut ledger = Ledger::new(key(200));
    assert_eq!(
        ledger.register_identity(key(1), UserRole::User),
        Ok(UserAccount { pubkey: key(1), role: UserRole::User })
    );
    assert_eq!(ledger.register_identity(key(1), UserRole::User), Err(ErrorCode::DuplicateIdentity));
    assert_eq!(ledger.register_identity(key(1), UserRole::Admin), Err(ErrorCode::DuplicateIdentity));
    assert_eq!(ledger.user(&key(1)), Some(UserAccount { pubkey: key(1), role: UserRole::User }));
}

#[test]
fn any_identity_registers_with_any_role() {
    let mut ledger = Ledger::new(key(200));
    assert!(ledger.register_identity(key(1), UserRole::Admin).is_ok());
    assert!(ledger.register_identity(key(2), UserRole::PropertyManager).is_ok());
    assert!(ledger.register_identity(key(3), UserRole::User).is_ok());
    assert_eq!(ledger.user(&key(1)).unwrap().role, UserRole::Admin);
    assert_eq!(ledger.user(&key(2)).unwrap().role, UserRole::PropertyManager);
    assert_eq!(ledger.user(&key(3)).unwrap().role, UserRole::User);
}

#[test]
fn admin_sets_role() {
    let mut ledger = ledger_with_roles();
    assert_eq!(ledger.set_role(key(3), key(2), UserRole::PropertyManager), Ok(()));
    assert_eq!(
        ledger.user(&key(2)),
        Some(UserAccount { pubkey: key(2), role: UserRole::PropertyManager })
    );
    assert_eq!(ledger.user(&key(1)).unwrap().role, UserRole::PropertyManager);
    assert_eq!(ledger.user(&key(3)).unwrap().role, UserRole::Admin);
}

#[test]
fn admin_gives_up_its_own_role() {
    let mut ledger = ledger_with_roles();
    assert_eq!(ledger.set_role(key(3), key(3), UserRole::User), Ok(()));
    assert_eq!(ledger.set_role(key(3), key(2), UserRole::Admin), Err(ErrorCode::UnauthorizedRole));
    assert_eq!(ledger.user(&key(2)).unwrap().role, UserRole::User);
}

#[test]
fn admin_has_no_other_roles_powers() {
    let mut ledger = ledger_with_roles();
    assert_eq!(
        ledger.create_property(key(3), key(10), 1, 1, 1),
        Err(ErrorCode::UnauthorizedRole)
    );
}

#[test]
fn set_role_of_unregistered_target() {
    let mut ledger = ledger_with_roles();
    assert_eq!(
        ledger.set_role(key(3), key(77), UserRole::User),
        Err(ErrorCode::AccountNotInitialized)
    );
    assert_eq!(ledger.set_role(key(2), key(77), UserRole::User), Err(ErrorCode::UnauthorizedRole));
    assert_eq!(ledger.user(&key(77)), None);
}

#[test]
fn create_property_needs_a_property_manager() {
    let mut ledger = ledger_with_roles();
    for caller in [key(2), key(3), key(77)] {
        assert_eq!(
            ledger.create_property(caller, key(10), 1000, 500, 30),
            Err(ErrorCode::UnauthorizedRole)
        );
    }
    let (address, _) = find_property_address(&key(200), &key(10)).unwrap();
    assert_eq!(ledger.property(&address), None);
}

#[test]
fn create_property_twice_for_one_asset_is_refused() {
    let mut ledger = ledger_with_roles();
    let first = ledger.create_property(key(1), key(10), 1000, 500, 30).unwrap();
    let (address, bump) = find_property_address(&key(200), &key(10)).unwrap();
    assert_eq!(
        first,
        Account {
            key: address,
            bump,
            data: Property {
                manager: key(1),
                initial_valuation: 1000,
                current_valuation: 1000,
                token_supply: 500,
                lock_period: 30,
                is_active: true,
                is_frozen: true,
                unclaimed_disbursement: 0,
                claimed_disbursement: 0,
            },
        }
    );
    assert_eq!(
        ledger.create_property(key(1), key(10), 7, 7, 7),
        Err(ErrorCode::DuplicateProperty)
    );
    assert_eq!(ledger.property(&address), Some(first));
    assert!(ledger.create_property(key(1), key(12), 7, 7, 7).is_ok());
}

#[test]
fn create_property_without_an_address_is_refused() {
    let mut ledger = ledger_with_roles();
    assert_eq!(
        ledger.create_property_at(key(1), None, 1000, 500, 30),
        Err(ErrorCode::NoProgramAddress)
    );
    assert_eq!(
        ledger.create_property_at(key(2), None, 1000, 500, 30),
        Err(ErrorCode::UnauthorizedRole)
    );
}

#[test]
fn create_property_at_an_address_in_use_is_refused() {
    let mut ledger = ledger_with_roles();
    let first = ledger.create_property_at(key(1), Some((key(30), 5)), 1000, 500, 30).unwrap();
    assert_eq!(first.key, key(30));
    assert_eq!(first.bump, 5);
    assert_eq!(
        ledger.create_property_at(key(1), Some((key(30), 6)), 1, 1, 1),
        Err(ErrorCode::DuplicateProperty)
    );
    assert_eq!(ledger.property(&key(30)), Some(first));
}

#[test]
fn only_the_manager_changes_a_property() {
    let mut ledger = ledger_with_roles();
    ledger.register_identity(key(4), UserRole::PropertyManager).unwrap();
    let property = ledger.create_property_at(key(1), Some((key(30), 5)), 1000, 500, 30).unwrap();
    for caller in [key(2), key(3), key(4), key(77)] {
        assert_eq!(
            ledger.set_funding_phase(caller, key(30), false),
            Err(ErrorCode::UnauthorizedManager)
        );
        assert_eq!(ledger.start_funding(caller, key(30)), Err(ErrorCode::UnauthorizedManager));
        assert_eq!(ledger.complete_funding(caller, key(30)), Err(ErrorCode::UnauthorizedManager));
        assert_eq!(
            ledger.update_valuation(caller, key(30), 1),
            Err(ErrorCode::UnauthorizedManager)
        );
        assert_eq!(
            ledger.create_disbursement(caller, key(30), key(10), key(11), 100),
            Err(ErrorCode::UnauthorizedManager)
        );
        assert_eq!(ledger.property(&key(30)), Some(property));
    }
    assert_eq!(ledger.update_valuation(key(1), key(30), 1), Ok(()));
    assert_eq!(ledger.property(&key(30)).unwrap().data.current_valuation, 1);
    assert_eq!(ledger.property(&key(30)).unwrap().data.initial_valuation, 1000);
    assert_eq!(ledger.complete_funding(key(1), key(30)), Ok(()));
    assert!(!ledger.property(&key(30)).unwrap().data.is_frozen);
}

#[test]
fn operations_on_a_missing_property() {
    let mut ledger = ledger_with_roles();
    assert_eq!(ledger.start_funding(key(1), key(30)), Err(ErrorCode::AccountNotInitialized));
    assert_eq!(ledger.complete_funding(key(1), key(30)), Err(ErrorCode::AccountNotInitialized));
    assert_eq!(ledger.update_valuation(key(1), key(30), 5), Err(ErrorCode::AccountNotInitialized));
    assert_eq!(
        ledger.invest_in_property(key(2), key(30), key(10), 5),
        Err(ErrorCode::AccountNotInitialized)
    );
    assert_eq!(
        ledger.create_disbursement(key(1), key(30), key(10), key(11), 5),
        Err(ErrorCode::AccountNotInitialized)
    );
    assert_eq!(ledger.convert_tokens(key(2), key(40), 5), Err(ErrorCode::AccountNotInitialized));
    assert_eq!(
        ledger.settle_conversion(key(2), key(40), 5, Ok(())),
        Err(ErrorCode::AccountNotInitialized)
    );
}

#[test]
fn create_disbursement_twice_for_one_pair_is_refused() {
    let mut ledger = ledger_with_roles();
    ledger.create_property_at(key(1), Some((key(30), 5)), 1000, 500, 30).unwrap();
    let first = ledger.create_disbursement(key(1), key(30), key(10), key(11), 100).unwrap();
    assert_eq!(
        first.data,
        Disbursement { property: key(30), token_mint: key(10), new_token_mint: key(11), total_amount: 100 }
    );
    assert_eq!(
        ledger.create_disbursement(key(1), key(30), key(10), key(11), 100),
        Err(ErrorCode::DuplicateDisbursement)
    );
    assert_eq!(
        ledger.create_disbursement(key(1), key(30), key(12), key(11), 5),
        Err(ErrorCode::DuplicateDisbursement)
    );
    assert_eq!(counters(&ledger, key(30)), (100, 0));
    let second = ledger.create_disbursement(key(1), key(30), key(10), key(12), 50).unwrap();
    assert_ne!(second.key, first.key);
    assert_eq!(counters(&ledger, key(30)), (150, 0));
    assert_eq!(ledger.disbursement(&first.key), Some(first));
}

#[test]
fn create_disbursement_without_an_address_or_at_one_in_use() {
    let mut ledger = ledger_with_roles();
    ledger.create_property_at(key(1), Some((key(30), 5)), 1000, 500, 30).unwrap();
    assert_eq!(
        ledger.create_disbursement_at(key(1), key(30), key(10), key(11), 100, None),
        Err(ErrorCode::NoProgramAddress)
    );
    let first = ledger
        .create_disbursement_at(key(1), key(30), key(10), key(11), 100, Some((key(40), 9)))
        .unwrap();
    assert_eq!(first.key, key(40));
    assert_eq!(first.bump, 9);
    assert_eq!(
        ledger.create_disbursement_at(key(1), key(30), key(10), key(12), 1, Some((key(40), 9))),
        Err(ErrorCode::DuplicateDisbursement)
    );
    assert_eq!(counters(&ledger, key(30)), (100, 0));
}

#[test]
fn create_disbursement_past_the_counter() {
    let mut ledger = ledger_with_roles();
    ledger.create_property_at(key(1), Some((key(30), 5)), 1000, 500, 30).unwrap();
    ledger
        .create_disbursement_at(key(1), key(30), key(10), key(11), u64::MAX, Some((key(40), 9)))
        .unwrap();
    assert_eq!(
        ledger.create_disbursement_at(key(1), key(30), key(10), key(12), 1, Some((key(41), 9))),
        Err(ErrorCode::CounterOverflow)
    );
    assert_eq!(ledger.disbursement(&key(41)), None);
    assert_eq!(counters(&ledger, key(30)), (u64::MAX, 0));
    assert_eq!(
        ledger.create_disbursement_at(key(1), key(30), key(10), key(12), 0, Some((key(41), 9))).map(|d| d.key),
        Ok(key(41))
    );
}

#[test]
fn counters_add_up_to_what_was_recorded() {
    let mut ledger = ledger_with_roles();
    ledger.create_property_at(key(1), Some((key(30), 5)), 1000, 500, 30).unwrap();
    ledger.create_property_at(key(1), Some((key(31), 5)), 2000, 500, 30).unwrap();
    let mut keys: Vec<Pubkey> = Vec::new();
    let check = |ledger: &Ledger, keys: &[Pubkey]| {
        for property in [key(30), key(31)] {
            let (unclaimed, claimed) = counters(ledger, property);
            assert_eq!(unclaimed as u128 + claimed as u128, recorded_for(ledger, keys, property));
        }
    };
    check(&ledger, &keys);
    keys.push(ledger.create_disbursement(key(1), key(30), key(10), key(11), 100).unwrap().key);
    check(&ledger, &keys);
    keys.push(ledger.create_disbursement(key(1), key(31), key(12), key(13), 70).unwrap().key);
    check(&ledger, &keys);
    assert_eq!(ledger.settle_conversion(key(2), keys[0], 60, Ok(())), Ok(()));
    check(&ledger, &keys);
    keys.push(ledger.create_disbursement(key(1), key(30), key(10), key(14), 25).unwrap().key);
    check(&ledger, &keys);
    assert_eq!(ledger.settle_conversion(key(2), keys[2], 65, Ok(())), Ok(()));
    check(&ledger, &keys);
    assert_eq!(ledger.settle_conversion(key(2), keys[1], 71, Ok(())), Err(ErrorCode::DisbursementExceeded));
    assert_eq!(ledger.settle_conversion(key(2), keys[1], 70, Err(9)), Err(ErrorCode::Substrate(9)));
    check(&ledger, &keys);
    assert_eq!(counters(&ledger, key(30)), (0, 125));
    assert_eq!(counters(&ledger, key(31)), (70, 0));
}

#[test]
fn conversions_draw_on_the_property_not_on_one_disbursement() {
    let mut ledger = ledger_with_roles();
    ledger.create_property_at(key(1), Some((key(30), 5)), 1000, 500, 30).unwrap();
    let first = ledger.create_disbursement(key(1), key(30), key(10), key(11), 100).unwrap();
    ledger.create_disbursement(key(1), key(30), key(10), key(12), 50).unwrap();
    assert!(ledger.convert_tokens(key(2), first.key, 150).is_ok());
    assert_eq!(ledger.settle_conversion(key(2), first.key, 150, Ok(())), Ok(()));
    assert_eq!(counters(&ledger, key(30)), (0, 150));
    assert_eq!(ledger.disbursement(&first.key).unwrap().data.total_amount, 100);
    assert_eq!(ledger.convert_tokens(key(2), first.key, 1), Err(ErrorCode::DisbursementExceeded));
}

#[test]
fn conversion_orders_name_the_disbursements_assets() {
    let mut ledger = ledger_with_roles();
    ledger.create_property_at(key(1), Some((key(30), 5)), 1000, 500, 30).unwrap();
    let d = ledger.create_disbursement(key(1), key(30), key(10), key(11), 100).unwrap();
    let orders = ledger.convert_tokens(key(2), d.key, 60).unwrap();
    assert_eq!(orders.burn.mint, key(10));
    assert_eq!(orders.burn.from_owner, key(2));
    assert_eq!(orders.burn.authority, key(2));
    assert_eq!(orders.burn.amount, 60);
    assert_eq!(orders.mint.mint, key(11));
    assert_eq!(orders.mint.to_owner, key(2));
    assert_eq!(orders.mint.authority, d.key);
    assert_eq!(orders.mint.amount, 60);
    assert_eq!(
        orders.mint.signer_seeds,
        vec![b"disbursement".to_vec(), vec![30u8; 32], vec![11u8; 32], vec![d.bump]]
    );
    assert_eq!(counters(&ledger, key(30)), (100, 0));
}

#[test]
fn set_role_overwrites_whatever_was_there() {
    let mut ledger = ledger_with_roles();
    assert_eq!(ledger.set_role(key(3), key(1), UserRole::PropertyManager), Ok(()));
    assert_eq!(ledger.user(&key(1)).unwrap().role, UserRole::PropertyManager);
    assert_eq!(ledger.set_role(key(3), key(1), UserRole::Admin), Ok(()));
    assert_eq!(ledger.user(&key(1)).unwrap().role, UserRole::Admin);
    assert_eq!(ledger.set_role(key(1), key(3), UserRole::User), Ok(()));
    assert_eq!(ledger.user(&key(3)).unwrap().role, UserRole::User);
    assert_eq!(ledger.set_role(key(3), key(1), UserRole::User), Err(ErrorCode::UnauthorizedRole));
    assert_eq!(ledger.user(&key(1)).unwrap().role, UserRole::Admin);
}

#[test]
fn a_manager_made_by_an_admin_creates_properties() {
    let mut ledger = ledger_with_roles();
    assert_eq!(
        ledger.create_property_at(key(2), Some((key(30), 5)), 1, 1, 1),
        Err(ErrorCode::UnauthorizedRole)
    );
    assert_eq!(ledger.set_role(key(3), key(2), UserRole::PropertyManager), Ok(()));
    let property = ledger.create_property_at(key(2), Some((key(30), 5)), 1, 1, 1).unwrap();
    assert_eq!(property.data.manager, key(2));
    assert_eq!(ledger.set_role(key(3), key(2), UserRole::User), Ok(()));
    assert_eq!(ledger.update_valuation(key(2), key(30), 9), Ok(()));
    assert_eq!(ledger.update_valuation(key(1), key(30), 9), Err(ErrorCode::UnauthorizedManager));
}

#[test]
fn records_are_kept_by_later_requests() {
    let mut ledger = ledger_with_roles();
    let property = ledger.create_property_at(key(1), Some((key(30), 5)), 1000, 500, 30).unwrap();
    let first = ledger.create_disbursement(key(1), key(30), key(10), key(11), 100).unwrap();
    ledger.register_identity(key(4), UserRole::User).unwrap();
    ledger.create_property_at(key(1), Some((key(31), 6)), 1, 2, 3).unwrap();
    ledger.create_disbursement(key(1), key(31), key(12), key(13), 7).unwrap();
    ledger.create_disbursement(key(1), key(30), key(10), key(14), 8).unwrap();
    ledger.settle_conversion(key(2), first.key, 20, Ok(())).unwrap();
    ledger.update_valuation(key(1), key(30), 1200).unwrap();
    ledger.complete_funding(key(1), key(30)).unwrap();
    assert_eq!(ledger.disbursement(&first.key), Some(first));
    assert_eq!(
        ledger.user(&key(1)),
        Some(UserAccount { pubkey: key(1), role: UserRole::PropertyManager })
    );
    assert_eq!(
        ledger.property(&key(30)),
        Some(Account {
            data: Property {
                current_valuation: 1200,
                is_frozen: false,
                unclaimed_disbursement: 88,
                claimed_disbursement: 20,
                ..property.data
            },
            ..property
        })
    );
    assert_eq!(counters(&ledger, key(31)), (7, 0));
}

#[test]
fn zero_amounts_are_taken() {
    let mut ledger = ledger_with_roles();
    ledger.create_property_at(key(1), Some((key(30), 5)), 0, 0, 0).unwrap();
    let d = ledger.create_disbursement(key(1), key(30), key(10), key(11), 0).unwrap();
    assert_eq!(d.data.total_amount, 0);
    assert_eq!(counters(&ledger, key(30)), (0, 0));
    assert!(ledger.convert_tokens(key(2), d.key, 0).is_ok());
    assert_eq!(ledger.settle_conversion(key(2), d.key, 0, Ok(())), Ok(()));
    assert_eq!(counters(&ledger, key(30)), (0, 0));
    assert_eq!(ledger.convert_tokens(key(2), d.key, 1), Err(ErrorCode::DisbursementExceeded));
    assert_eq!(ledger.invest_in_property(key(2), key(30), key(10), 0).unwrap().amount, 0);
}

#[test]
fn invest_order_names_the_property_as_authority() {
    let mut ledger = ledger_with_roles();
    let property = ledger.create_property(key(1), key(10), 1000, 500, 30).unwrap();
    let order = ledger.invest_in_property(key(2), property.key, key(10), 100).unwrap();
    assert_eq!(order.mint, key(10));
    assert_eq!(order.to_owner, key(2));
    assert_eq!(order.amount, 100);
    assert_eq!(order.authority, property.key);
    assert_eq!(
        order.signer_seeds,
        vec![b"property".to_vec(), vec![10u8; 32], vec![property.bump]]
    );
    let unregistered = ledger.invest_in_property(key(77), property.key, key(10), 5).unwrap();
    assert_eq!(unregistered.to_owner, key(77));
}
