use real_estate_crowdfunding::address::{find_disbursement_address, find_property_address};
use real_estate_crowdfunding::error::ErrorCode;
use real_estate_crowdfunding::instructions::{Burn, MintTo};
use real_estate_crowdfunding::ledger::Ledger;
use real_estate_crowdfunding::pubkey::Pubkey;
use real_estate_crowdfunding::state::{UserAccount, UserRole};
use std::collections::HashMap;
use std::str::FromStr;

const UNAUTHORIZED: u32 = 4;
const INSUFFICIENT_BALANCE: u32 = 1;

fn key(n: u8) -> Pubkey {
    Pubkey::new_from_array([n; 32])
}

fn program() -> Pubkey {
    let id = anchor_lang::prelude::Pubkey::from_str("7n54hP2KnNHvC1KqQnBbJzy45B1bQsWmgApQdSy1ABaL")
        .unwrap();
    Pubkey::new_from_array(id.to_bytes())
}

/// A stand-in for the asset ledger: holdings per asset and owner, and the
/// mint authority of each asset.
struct Bank {
    program: Pubkey,
    authorities: HashMap<[u8; 32], [u8; 32]>,
    holdings: HashMap<([u8; 32], [u8; 32]), u64>,
}

impl Bank {
    fn new(program: Pubkey) -> Bank {
        Bank { program, authorities: HashMap::new(), holdings: HashMap::new() }
    }

    fn create_asset(&mut self, mint: Pubkey, authority: Pubkey) {
        self.authorities.insert(mint.to_bytes(), authority.to_bytes());
    }

    fn balance(&self, mint: Pubkey, owner: Pubkey) -> u64 {
        *self.holdings.get(&(mint.to_bytes(), owner.to_bytes())).unwrap_or(&0)
    }

    fn mint_to(&mut self, order: &MintTo) -> Result<(), u32> {
        let slices: Vec<&[u8]> = order.signer_seeds.iter().map(|seed| seed.as_slice()).collect();
        let id = anchor_lang::prelude::Pubkey::new_from_array(self.program.to_bytes());
        let signer = match anchor_lang::prelude::Pubkey::create_program_address(&slices, &id) {
            Ok(signer) => signer.to_bytes(),
            Err(_) => return Err(UNAUTHORIZED),
        };
        if signer != order.authority.to_bytes() {
            return Err(UNAUTHORIZED);
        }
        if self.authorities.get(&order.mint.to_bytes()) != Some(&signer) {
            return Err(UNAUTHORIZED);
        }
        let held = self.holdings.entry((order.mint.to_bytes(), order.to_owner.to_bytes())).or_insert(0);
        *held += order.amount;
        Ok(())
    }

    fn burn(&mut self, order: &Burn) -> Result<(), u32> {
        if order.authority != order.from_owner {
            return Err(UNAUTHORIZED);
        }
        let held = self.holdings.entry((order.mint.to_bytes(), order.from_owner.to_bytes())).or_insert(0);
        if *held < order.amount {
            return Err(INSUFFICIENT_BALANCE);
        }
        *held -= order.amount;
        Ok(())
    }

    fn carry_out(&mut self, burn: &Burn, mint: &MintTo) -> Result<(), u32> {
        self.burn(burn)?;
        self.mint_to(mint)
    }
}

struct World {
    ledger: Ledger,
    bank: Bank,
    manager: Pubkey,
    investor: Pubkey,
    asset_a: Pubkey,
    asset_b: Pubkey,
    property: Pubkey,
}

fn world_with_property() -> World {
    let manager = key(1);
    let investor = key(2);
    let asset_a = key(10);
    let asset_b = key(11);
    let mut ledger = Ledger::new(program());
    let mut bank = Bank::new(program());
    assert_eq!(
        ledger.register_identity(manager, UserRole::PropertyManager),
        Ok(UserAccount { pubkey: manager, role: UserRole::PropertyManager })
    );
    assert_eq!(
        ledger.register_identity(investor, UserRole::User),
        Ok(UserAccount { pubkey: investor, role: UserRole::User })
    );
    let (property, _) = find_property_address(&program(), &asset_a).unwrap();
    bank.create_asset(asset_a, property);
    let (disbursement, _) = find_disbursement_address(&program(), &property, &asset_b).unwrap();
    bank.create_asset(asset_b, disbursement);
    let created = ledger.create_property(manager, asset_a, 1000, 500, 30).unwrap();
    assert_eq!(created.key, property);
    World { ledger, bank, manager, investor, asset_a, asset_b, property }
}

#[test]
fn scenario_property_starts_frozen_and_investor_invests() {
    let mut w = world_with_property();
    let property = w.ledger.property(&w.property).unwrap();
    assert_eq!(property.data.manager, w.manager);
    assert_eq!(property.data.initial_valuation, 1000);
    assert_eq!(property.data.current_valuation, 1000);
    assert_eq!(property.data.token_supply, 500);
    assert_eq!(property.data.lock_period, 30);
    assert!(property.data.is_active);
    assert!(property.data.is_frozen);
    assert_eq!(property.data.unclaimed_disbursement, 0);
    assert_eq!(property.data.claimed_disbursement, 0);

    let order = w.ledger.invest_in_property(w.investor, w.property, w.asset_a, 100).unwrap();
    assert_eq!(w.bank.mint_to(&order), Ok(()));
    assert_eq!(w.bank.balance(w.asset_a, w.investor), 100);
    assert_eq!(w.ledger.property(&w.property), Some(property));
}

#[test]
fn scenario_invest_after_funding_completed_is_refused() {
    let mut w = world_with_property();
    assert_eq!(w.ledger.complete_funding(w.manager, w.property), Ok(()));
    assert_eq!(
        w.ledger.invest_in_property(w.investor, w.property, w.asset_a, 100),
        Err(ErrorCode::PropertyNotFrozen)
    );
    assert_eq!(w.ledger.start_funding(w.manager, w.property), Ok(()));
    assert!(w.ledger.invest_in_property(w.investor, w.property, w.asset_a, 100).is_ok());
}

#[test]
fn scenario_invest_for_another_asset_is_refused_by_the_asset_ledger() {
    let mut w = world_with_property();
    let order = w.ledger.invest_in_property(w.investor, w.property, w.asset_b, 100).unwrap();
    assert_eq!(w.bank.mint_to(&order), Err(UNAUTHORIZED));
    assert_eq!(w.bank.balance(w.asset_b, w.investor), 0);
}

#[test]
fn scenario_disbursement_and_conversion() {
    let mut w = world_with_property();
    let order = w.ledger.invest_in_property(w.investor, w.property, w.asset_a, 100).unwrap();
    assert_eq!(w.bank.mint_to(&order), Ok(()));

    let disbursement = w
        .ledger
        .create_disbursement(w.manager, w.property, w.asset_a, w.asset_b, 100)
        .unwrap();
    assert_eq!(disbursement.data.property, w.property);
    assert_eq!(disbursement.data.token_mint, w.asset_a);
    assert_eq!(disbursement.data.new_token_mint, w.asset_b);
    assert_eq!(disbursement.data.total_amount, 100);
    assert_eq!(w.ledger.property(&w.property).unwrap().data.unclaimed_disbursement, 100);
    assert_eq!(w.ledger.property(&w.property).unwrap().data.claimed_disbursement, 0);

    let orders = w.ledger.convert_tokens(w.investor, disbursement.key, 60).unwrap();
    let outcome = w.bank.carry_out(&orders.burn, &orders.mint);
    assert_eq!(outcome, Ok(()));
    assert_eq!(w.ledger.settle_conversion(w.investor, disbursement.key, 60, outcome), Ok(()));
    assert_eq!(w.bank.balance(w.asset_a, w.investor), 40);
    assert_eq!(w.bank.balance(w.asset_b, w.investor), 60);
    let property = w.ledger.property(&w.property).unwrap();
    assert_eq!(property.data.unclaimed_disbursement, 40);
    assert_eq!(property.data.claimed_disbursement, 60);

    assert_eq!(
        w.ledger.convert_tokens(w.investor, disbursement.key, 50),
        Err(ErrorCode::DisbursementExceeded)
    );
    assert_eq!(
        w.ledger.settle_conversion(w.investor, disbursement.key, 50, Ok(())),
        Err(ErrorCode::DisbursementExceeded)
    );
    assert_eq!(w.ledger.property(&w.property), Some(property));
    assert_eq!(w.bank.balance(w.asset_a, w.investor), 40);
    assert_eq!(w.bank.balance(w.asset_b, w.investor), 60);
    assert_eq!(w.ledger.disbursement(&disbursement.key), Some(disbursement));
}

#[test]
fn scenario_conversion_without_holdings_surfaces_the_asset_ledgers_error() {
    let mut w = world_with_property();
    let disbursement = w
        .ledger
        .create_disbursement(w.manager, w.property, w.asset_a, w.asset_b, 100)
        .unwrap();
    let before = w.ledger.property(&w.property);
    let orders = w.ledger.convert_tokens(w.investor, disbursement.key, 60).unwrap();
    let outcome = w.bank.carry_out(&orders.burn, &orders.mint);
    assert_eq!(outcome, Err(INSUFFICIENT_BALANCE));
    assert_eq!(
        w.ledger.settle_conversion(w.investor, disbursement.key, 60, outcome),
        Err(ErrorCode::Substrate(INSUFFICIENT_BALANCE))
    );
    assert_eq!(w.ledger.property(&w.property), before);
    assert_eq!(w.bank.balance(w.asset_b, w.investor), 0);
}

#[test]
fn scenario_non_admin_cannot_set_role() {
    let mut w = world_with_property();
    for caller in [w.manager, w.investor, key(99)] {
        assert_eq!(
            w.ledger.set_role(caller, w.investor, UserRole::Admin),
            Err(ErrorCode::UnauthorizedRole)
        );
        assert_eq!(
            w.ledger.user(&w.investor),
            Some(UserAccount { pubkey: w.investor, role: UserRole::User })
        );
    }
}
