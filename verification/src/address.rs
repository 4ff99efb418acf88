//! Record addresses: the seeds they are derived from, the derivation itself
//! and the seeds that a derived record signs with.

use vstd::prelude::*;
use crate::pubkey::{lemma_pubkey_from_view, Pubkey};

verus! {

/// The address and bump seed that the Solana SDK derives for `seeds` under
/// the program `program_id`, or `None` where it derives none.
///
/// The derivation hashes the seeds, a candidate bump seed and the program id
/// and keeps the first hash that is no point of the ed25519 curve. It is a
/// function of the seeds and the program id alone.
pub uninterp spec fn program_address(seeds: Seq<Seq<u8>>, program_id: Seq<u8>) -> Option<
    (Seq<u8>, u8),
>;

/// What a list of seeds holds: the bytes of each seed, in order.
pub open spec fn seeds_view(seeds: Seq<Vec<u8>>) -> Seq<Seq<u8>> {
    seeds.map_values(|seed: Vec<u8>| seed@)
}

/// Calls `Pubkey::try_find_program_address` of the Solana SDK, as `anchor_lang`
/// exports it.
///
/// Trusted: the result is the derivation named by [`program_address`], with
/// the address handed back byte for byte.
#[verifier::external_body]
pub(crate) fn try_find_program_address(seeds: &Vec<Vec<u8>>, program_id: &Pubkey) -> (found:
    Option<(Pubkey, u8)>)
    ensures
        match found {
            Some((key, bump)) => program_address(seeds_view(seeds@), program_id@) == Some(
                (key@, bump),
            ),
            None => program_address(seeds_view(seeds@), program_id@) is None,
        },
{
    let slices: Vec<&[u8]> = seeds.iter().map(|seed| seed.as_slice()).collect();
    let id = anchor_lang::prelude::Pubkey::new_from_array(program_id.bytes);
    match anchor_lang::prelude::Pubkey::try_find_program_address(&slices, &id) {
        Some((key, bump)) => Some((Pubkey { bytes: key.to_bytes() }, bump)),
        None => None,
    }
}

/// The derived address as a key, with its bump seed.
pub open spec fn derived(seeds: Seq<Seq<u8>>, program_id: Pubkey) -> Option<(Pubkey, u8)> {
    match program_address(seeds, program_id@) {
        Some((bytes, bump)) => Some((Pubkey::from_view(bytes), bump)),
        None => None,
    }
}

/// The seed tag of property accounts: the ASCII bytes of `property`.
pub open spec fn property_tag() -> Seq<u8> {
    seq![112u8, 114u8, 111u8, 112u8, 101u8, 114u8, 116u8, 121u8]
}

/// The seed tag of disbursement accounts: the ASCII bytes of `disbursement`.
pub open spec fn disbursement_tag() -> Seq<u8> {
    seq![
        100u8,
        105u8,
        115u8,
        98u8,
        117u8,
        114u8,
        115u8,
        101u8,
        109u8,
        101u8,
        110u8,
        116u8,
    ]
}

/// The seeds from which the address of the property for `token_mint` is
/// derived.
pub open spec fn property_seeds(token_mint: Pubkey) -> Seq<Seq<u8>> {
    seq![property_tag(), token_mint@]
}

/// The seeds from which the address of the disbursement of `property` into
/// `new_token_mint` is derived.
pub open spec fn disbursement_seeds(property: Pubkey, new_token_mint: Pubkey) -> Seq<Seq<u8>> {
    seq![disbursement_tag(), property@, new_token_mint@]
}

/// The seeds with which a derived account signs: the seeds of its address
/// followed by its bump seed.
pub open spec fn signer_seeds(seeds: Seq<Seq<u8>>, bump: u8) -> Seq<Seq<u8>> {
    seeds.push(seq![bump])
}

fn property_tag_bytes() -> (tag: Vec<u8>)
    ensures
        tag@ == property_tag(),
{
    let mut tag: Vec<u8> = Vec::new();
    tag.push(112u8);
    tag.push(114u8);
    tag.push(111u8);
    tag.push(112u8);
    tag.push(101u8);
    tag.push(114u8);
    tag.push(116u8);
    tag.push(121u8);
    assert(tag@ =~= property_tag());
    tag
}

fn disbursement_tag_bytes() -> (tag: Vec<u8>)
    ensures
        tag@ == disbursement_tag(),
{
    let mut tag: Vec<u8> = Vec::new();
    tag.push(100u8);
    tag.push(105u8);
    tag.push(115u8);
    tag.push(98u8);
    tag.push(117u8);
    tag.push(114u8);
    tag.push(115u8);
    tag.push(101u8);
    tag.push(109u8);
    tag.push(101u8);
    tag.push(110u8);
    tag.push(116u8);
    assert(tag@ =~= disbursement_tag());
    tag
}

/// Builds the address seeds of the property for `token_mint`.
pub fn property_address_seeds(token_mint: &Pubkey) -> (seeds: Vec<Vec<u8>>)
    ensures
        seeds_view(seeds@) == property_seeds(*token_mint),
{
    let mut seeds: Vec<Vec<u8>> = Vec::new();
    seeds.push(property_tag_bytes());
    seeds.push(token_mint.to_seed());
    assert(seeds_view(seeds@) =~= property_seeds(*token_mint));
    seeds
}

/// Builds the address seeds of the disbursement of `property` into
/// `new_token_mint`.
pub fn disbursement_address_seeds(property: &Pubkey, new_token_mint: &Pubkey) -> (seeds: Vec<
    Vec<u8>,
>)
    ensures
        seeds_view(seeds@) == disbursement_seeds(*property, *new_token_mint),
{
    let mut seeds: Vec<Vec<u8>> = Vec::new();
    seeds.push(disbursement_tag_bytes());
    seeds.push(property.to_seed());
    seeds.push(new_token_mint.to_seed());
    assert(seeds_view(seeds@) =~= disbursement_seeds(*property, *new_token_mint));
    seeds
}

/// The address and bump seed of the property for `token_mint` under the
/// program `program_id`.
pub open spec fn property_address(program_id: Pubkey, token_mint: Pubkey) -> Option<(Pubkey, u8)> {
    derived(property_seeds(token_mint), program_id)
}

/// The address and bump seed of the disbursement of `property` into
/// `new_token_mint` under the program `program_id`.
pub open spec fn disbursement_address(
    program_id: Pubkey,
    property: Pubkey,
    new_token_mint: Pubkey,
) -> Option<(Pubkey, u8)> {
    derived(disbursement_seeds(property, new_token_mint), program_id)
}

/// Appends the bump seed to address seeds, giving the seeds to sign with.
pub fn with_bump(seeds: Vec<Vec<u8>>, bump: u8) -> (signing: Vec<Vec<u8>>)
    ensures
        seeds_view(signing@) == signer_seeds(seeds_view(seeds@), bump),
{
    let mut signing = seeds;
    let mut last: Vec<u8> = Vec::new();
    last.push(bump);
    assert(last@ =~= seq![bump]);
    signing.push(last);
    assert(seeds_view(signing@) =~= signer_seeds(seeds_view(seeds@), bump));
    signing
}

/// Derives the address and bump seed of the property for `token_mint`.
pub fn find_property_address(program_id: &Pubkey, token_mint: &Pubkey) -> (found: Option<
    (Pubkey, u8),
>)
    ensures
        found == property_address(*program_id, *token_mint),
{
    let seeds = property_address_seeds(token_mint);
    let found = try_find_program_address(&seeds, program_id);
    proof {
        if let Some((key, _)) = found {
            lemma_pubkey_from_view(key);
        }
    }
    found
}

/// Derives the address and bump seed of the disbursement of `property` into
/// `new_token_mint`.
pub fn find_disbursement_address(
    program_id: &Pubkey,
    property: &Pubkey,
    new_token_mint: &Pubkey,
) -> (found: Option<(Pubkey, u8)>)
    ensures
        found == disbursement_address(*program_id, *property, *new_token_mint),
{
    let seeds = disbursement_address_seeds(property, new_token_mint);
    let found = try_find_program_address(&seeds, program_id);
    proof {
        if let Some((key, _)) = found {
            lemma_pubkey_from_view(key);
        }
    }
    found
}

} // verus!
