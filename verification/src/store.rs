//! Lists of records as keyed collections: finding a record by its key, and
//! the totals recorded for a property.

use vstd::prelude::*;
use crate::pubkey::Pubkey;
use crate::state::{Account, Disbursement, UserAccount, UserRole};

verus! {

/// Whether some account of the list lives at `key`.
pub open spec fn holds_key<T>(accounts: Seq<Account<T>>, key: Pubkey) -> bool {
    exists|i: int| 0 <= i < accounts.len() && (#[trigger] accounts[i]).key == key
}

/// Whether no two accounts of the list live at one key.
pub open spec fn distinct_keys<T>(accounts: Seq<Account<T>>) -> bool {
    forall|i: int, j: int|
        0 <= i < j < accounts.len() ==> (#[trigger] accounts[i]).key != (#[trigger] accounts[j]).key
}

/// A place in the list where an account lives at `key`, if there is one.
pub open spec fn position<T>(accounts: Seq<Account<T>>, key: Pubkey) -> int {
    choose|i: int| 0 <= i < accounts.len() && (#[trigger] accounts[i]).key == key
}

/// The accounts of the list, each under the key where it lives.
pub open spec fn by_key<T>(accounts: Seq<Account<T>>) -> Map<Pubkey, Account<T>> {
    Map::new(
        |key: Pubkey| holds_key(accounts, key),
        |key: Pubkey| accounts[position(accounts, key)],
    )
}

/// Whether some record of the list is that of `identity`.
pub open spec fn holds_identity(users: Seq<UserAccount>, identity: Pubkey) -> bool {
    exists|i: int| 0 <= i < users.len() && (#[trigger] users[i]).pubkey == identity
}

/// Whether no two records of the list are of one identity.
pub open spec fn distinct_identities(users: Seq<UserAccount>) -> bool {
    forall|i: int, j: int|
        0 <= i < j < users.len() ==> (#[trigger] users[i]).pubkey != (#[trigger] users[j]).pubkey
}

/// A place in the list where the record of `identity` stands, if there is
/// one.
pub open spec fn user_position(users: Seq<UserAccount>, identity: Pubkey) -> int {
    choose|i: int| 0 <= i < users.len() && (#[trigger] users[i]).pubkey == identity
}

/// The roles of the list, each under the identity that holds it.
pub open spec fn roles_of(users: Seq<UserAccount>) -> Map<Pubkey, UserRole> {
    Map::new(
        |identity: Pubkey| holds_identity(users, identity),
        |identity: Pubkey| users[user_position(users, identity)].role,
    )
}

/// The sum of the amounts of the disbursements of the list that were
/// recorded for `property`.
pub open spec fn recorded_total(disbursements: Seq<Account<Disbursement>>, property: Pubkey) -> int
    decreases disbursements.len(),
{
    if disbursements.len() == 0 {
        0
    } else {
        let last = disbursements.last();
        recorded_total(disbursements.drop_last(), property) + if last.data.property == property {
            last.data.total_amount as int
        } else {
            0
        }
    }
}

/// In a list with distinct keys, each account is the one found under its
/// key.
pub proof fn lemma_by_key_at<T>(accounts: Seq<Account<T>>, i: int)
    requires
        distinct_keys(accounts),
        0 <= i < accounts.len(),
    ensures
        by_key(accounts).contains_key(accounts[i].key),
        by_key(accounts)[accounts[i].key] == accounts[i],
        position(accounts, accounts[i].key) == i,
{
    let key = accounts[i].key;
    assert(holds_key(accounts, key));
    let j = position(accounts, key);
    if j < i {
        assert(accounts[j].key != accounts[i].key);
    } else if i < j {
        assert(accounts[i].key != accounts[j].key);
    }
}

/// Adding an account at a fresh key adds it under that key and keeps the
/// keys distinct.
pub proof fn lemma_by_key_push<T>(accounts: Seq<Account<T>>, added: Account<T>)
    requires
        distinct_keys(accounts),
        !by_key(accounts).contains_key(added.key),
    ensures
        distinct_keys(accounts.push(added)),
        by_key(accounts.push(added)) == by_key(accounts).insert(added.key, added),
{
    let after = accounts.push(added);
    assert(!holds_key(accounts, added.key));
    assert forall|i: int, j: int| 0 <= i < j < after.len() implies (#[trigger] after[i]).key != (
    #[trigger] after[j]).key by {
        if j < accounts.len() {
            assert(accounts[i].key != accounts[j].key);
        } else {
            assert(accounts[i].key != added.key);
        }
    }
    assert forall|key: Pubkey| #[trigger]
        by_key(after).contains_key(key) == by_key(accounts).insert(
            added.key,
            added,
        ).contains_key(key) by {
        if holds_key(accounts, key) {
            let i = position(accounts, key);
            assert(after[i].key == key);
        }
        if key == added.key {
            assert(after[accounts.len() as int].key == key);
        }
        if holds_key(after, key) {
            let i = position(after, key);
            if i < accounts.len() {
                assert(accounts[i].key == key);
            }
        }
    }
    assert forall|key: Pubkey| by_key(after).contains_key(key) implies #[trigger] by_key(after)[key]
        == by_key(accounts).insert(added.key, added)[key] by {
        let i = position(after, key);
        lemma_by_key_at(after, i);
        if i < accounts.len() {
            assert(accounts[i] == after[i]);
            lemma_by_key_at(accounts, i);
        }
    }
    assert(by_key(after) =~= by_key(accounts).insert(added.key, added));
}

/// Replacing an account by one at the same key replaces it under that key
/// and keeps the keys distinct.
pub proof fn lemma_by_key_update<T>(accounts: Seq<Account<T>>, i: int, replaced: Account<T>)
    requires
        distinct_keys(accounts),
        0 <= i < accounts.len(),
        replaced.key == accounts[i].key,
    ensures
        distinct_keys(accounts.update(i, replaced)),
        by_key(accounts.update(i, replaced)) == by_key(accounts).insert(replaced.key, replaced),
{
    let after = accounts.update(i, replaced);
    assert forall|a: int, b: int| 0 <= a < b < after.len() implies (#[trigger] after[a]).key != (
    #[trigger] after[b]).key by {
        assert(accounts[a].key != accounts[b].key);
    }
    assert forall|key: Pubkey| #[trigger]
        by_key(after).contains_key(key) == by_key(accounts).insert(
            replaced.key,
            replaced,
        ).contains_key(key) by {
        if holds_key(accounts, key) {
            let j = position(accounts, key);
            assert(after[j].key == key);
        }
        if key == replaced.key {
            assert(after[i].key == key);
        }
        if holds_key(after, key) {
            let j = position(after, key);
            assert(accounts[j].key == key);
        }
    }
    assert forall|key: Pubkey| by_key(after).contains_key(key) implies #[trigger] by_key(after)[key]
        == by_key(accounts).insert(replaced.key, replaced)[key] by {
        let j = position(after, key);
        lemma_by_key_at(after, j);
        if j != i {
            assert(accounts[j] == after[j]);
            lemma_by_key_at(accounts, j);
        }
    }
    assert(by_key(after) =~= by_key(accounts).insert(replaced.key, replaced));
}

/// In a list with distinct identities, each record is the one found under
/// its identity.
pub proof fn lemma_roles_of_at(users: Seq<UserAccount>, i: int)
    requires
        distinct_identities(users),
        0 <= i < users.len(),
    ensures
        roles_of(users).contains_key(users[i].pubkey),
        roles_of(users)[users[i].pubkey] == users[i].role,
        user_position(users, users[i].pubkey) == i,
{
    let identity = users[i].pubkey;
    assert(holds_identity(users, identity));
    let j = user_position(users, identity);
    if j < i {
        assert(users[j].pubkey != users[i].pubkey);
    } else if i < j {
        assert(users[i].pubkey != users[j].pubkey);
    }
}

/// Adding the record of a fresh identity adds its role under that identity
/// and keeps the identities distinct.
pub proof fn lemma_roles_of_push(users: Seq<UserAccount>, added: UserAccount)
    requires
        distinct_identities(users),
        !roles_of(users).contains_key(added.pubkey),
    ensures
        distinct_identities(users.push(added)),
        roles_of(users.push(added)) == roles_of(users).insert(added.pubkey, added.role),
{
    let after = users.push(added);
    assert(!holds_identity(users, added.pubkey));
    assert forall|i: int, j: int| 0 <= i < j < after.len() implies (#[trigger] after[i]).pubkey != (
    #[trigger] after[j]).pubkey by {
        if j < users.len() {
            assert(users[i].pubkey != users[j].pubkey);
        } else {
            assert(users[i].pubkey != added.pubkey);
        }
    }
    assert forall|identity: Pubkey| #[trigger]
        roles_of(after).contains_key(identity) == roles_of(users).insert(
            added.pubkey,
            added.role,
        ).contains_key(identity) by {
        if holds_identity(users, identity) {
            let i = user_position(users, identity);
            assert(after[i].pubkey == identity);
        }
        if identity == added.pubkey {
            assert(after[users.len() as int].pubkey == identity);
        }
        if holds_identity(after, identity) {
            let i = user_position(after, identity);
            if i < users.len() {
                assert(users[i].pubkey == identity);
            }
        }
    }
    assert forall|identity: Pubkey| roles_of(after).contains_key(identity) implies #[trigger]
        roles_of(after)[identity] == roles_of(users).insert(
        added.pubkey,
        added.role,
    )[identity] by {
        let i = user_position(after, identity);
        lemma_roles_of_at(after, i);
        if i < users.len() {
            assert(users[i] == after[i]);
            lemma_roles_of_at(users, i);
        }
    }
    assert(roles_of(after) =~= roles_of(users).insert(added.pubkey, added.role));
}

/// Replacing a record by one of the same identity replaces the role under
/// that identity and keeps the identities distinct.
pub proof fn lemma_roles_of_update(users: Seq<UserAccount>, i: int, replaced: UserAccount)
    requires
        distinct_identities(users),
        0 <= i < users.len(),
        replaced.pubkey == users[i].pubkey,
    ensures
        distinct_identities(users.update(i, replaced)),
        roles_of(users.update(i, replaced)) == roles_of(users).insert(
            replaced.pubkey,
            replaced.role,
        ),
{
    let after = users.update(i, replaced);
    assert forall|a: int, b: int| 0 <= a < b < after.len() implies (#[trigger] after[a]).pubkey != (
    #[trigger] after[b]).pubkey by {
        assert(users[a].pubkey != users[b].pubkey);
    }
    assert forall|identity: Pubkey| #[trigger]
        roles_of(after).contains_key(identity) == roles_of(users).insert(
            replaced.pubkey,
            replaced.role,
        ).contains_key(identity) by {
        if holds_identity(users, identity) {
            let j = user_position(users, identity);
            assert(after[j].pubkey == identity);
        }
        if identity == replaced.pubkey {
            assert(after[i].pubkey == identity);
        }
        if holds_identity(after, identity) {
            let j = user_position(after, identity);
            assert(users[j].pubkey == identity);
        }
    }
    assert forall|identity: Pubkey| roles_of(after).contains_key(identity) implies #[trigger]
        roles_of(after)[identity] == roles_of(users).insert(
        replaced.pubkey,
        replaced.role,
    )[identity] by {
        let j = user_position(after, identity);
        lemma_roles_of_at(after, j);
        if j != i {
            assert(users[j] == after[j]);
            lemma_roles_of_at(users, j);
        }
    }
    assert(roles_of(after) =~= roles_of(users).insert(replaced.pubkey, replaced.role));
}

/// Recording one more disbursement adds its amount to the total of its own
/// property and to no other.
pub proof fn lemma_recorded_total_push(
    disbursements: Seq<Account<Disbursement>>,
    added: Account<Disbursement>,
    property: Pubkey,
)
    ensures
        recorded_total(disbursements.push(added), property) == recorded_total(
            disbursements,
            property,
        ) + if added.data.property == property {
            added.data.total_amount as int
        } else {
            0
        },
{
    assert(disbursements.push(added).drop_last() =~= disbursements);
}

/// A property that no disbursement was recorded for has the total zero.
pub proof fn lemma_recorded_total_none(
    disbursements: Seq<Account<Disbursement>>,
    property: Pubkey,
)
    requires
        forall|i: int|
            0 <= i < disbursements.len() ==> (#[trigger] disbursements[i]).data.property
                != property,
    ensures
        recorded_total(disbursements, property) == 0,
    decreases disbursements.len(),
{
    if disbursements.len() > 0 {
        let rest = disbursements.drop_last();
        assert forall|i: int| 0 <= i < rest.len() implies (#[trigger] rest[i]).data.property
            != property by {
            assert(rest[i] == disbursements[i]);
        }
        lemma_recorded_total_none(rest, property);
        assert(disbursements.last() == disbursements[disbursements.len() - 1]);
    }
}

/// Finds the account that lives at `key`.
pub(crate) fn find_account<T>(accounts: &Vec<Account<T>>, key: &Pubkey) -> (found: Option<usize>)
    requires
        distinct_keys(accounts@),
    ensures
        match found {
            Some(i) => i < accounts.len() && accounts[i as int].key == *key && by_key(
                accounts@,
            ).contains_key(*key) && by_key(accounts@)[*key] == accounts[i as int],
            None => !by_key(accounts@).contains_key(*key),
        },
{
    let mut i: usize = 0;
    while i < accounts.len()
        invariant
            i <= accounts.len(),
            distinct_keys(accounts@),
            forall|j: int| 0 <= j < i ==> (#[trigger] accounts@[j]).key != *key,
        decreases accounts.len() - i,
    {
        if accounts[i].key == *key {
            proof {
                lemma_by_key_at(accounts@, i as int);
            }
            return Some(i);
        }
        i += 1;
    }
    None
}

/// Finds the record of `identity`.
pub(crate) fn find_user(users: &Vec<UserAccount>, identity: &Pubkey) -> (found: Option<usize>)
    requires
        distinct_identities(users@),
    ensures
        match found {
            Some(i) => i < users.len() && users[i as int].pubkey == *identity && roles_of(
                users@,
            ).contains_key(*identity) && roles_of(users@)[*identity] == users[i as int].role,
            None => !roles_of(users@).contains_key(*identity),
        },
{
    let mut i: usize = 0;
    while i < users.len()
        invariant
            i <= users.len(),
            distinct_identities(users@),
            forall|j: int| 0 <= j < i ==> (#[trigger] users@[j]).pubkey != *identity,
        decreases users.len() - i,
    {
        if users[i].pubkey == *identity {
            proof {
                lemma_roles_of_at(users@, i as int);
            }
            return Some(i);
        }
        i += 1;
    }
    None
}

} // verus!
