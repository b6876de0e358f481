//! Program-derived addresses: the trusted derivation primitive and the
//! ordered seed lists for the mint and token-holding addresses.

use vstd::prelude::*;

use crate::address::Address;
use crate::address::default_program_address;
use crate::address::default_program_id;
use crate::address::token_program_address;
use crate::address::token_program_id;

verus! {

/// What the host's address derivation returns for a seed list and a deriving
/// program identity: an address outside the normal key space together with
/// the disambiguation byte that produced it — the host tries bytes 255 down
/// to 1 and takes the first that works — or nothing when none of those
/// bytes yields such an address.
pub uninterp spec fn pda_of(seeds: Seq<Seq<u8>>, program_id: Seq<u8>) -> Option<(Seq<u8>, u8)>;

/// Relies on solana_program's Pubkey::try_find_program_address: the result
/// depends on the seed list and the deriving program identity alone, and a
/// returned address is exactly 32 bytes.
#[verifier::external_body]
fn find_pda(seeds: &Vec<Vec<u8>>, program_id: &Address) -> (r: Option<(Address, u8)>)
    ensures
        match r {
            Some(p) => pda_of(seeds.deep_view(), program_id@) == Some((p.0@, p.1))
                && p.0@.len() == 32,
            None => pda_of(seeds.deep_view(), program_id@) is None,
        },
{
    let refs: Vec<&[u8]> = seeds.iter().map(|s| s.as_slice()).collect();
    let pk = solana_program::pubkey::Pubkey::new_from_array(program_id.bytes);
    solana_program::pubkey::Pubkey::try_find_program_address(&refs, &pk)
        .map(|(a, b)| (Address { bytes: a.to_bytes() }, b))
}

/// The fixed namespace tag, the bytes of "glowenft".
pub open spec fn namespace_seed() -> Seq<u8> {
    seq![103u8, 108, 111, 119, 101, 110, 102, 116]
}

/// The role tag of a mint address, the bytes of "mint".
pub open spec fn mint_tag_seed() -> Seq<u8> {
    seq![109u8, 105, 110, 116]
}

/// The role tag of a token-holding address, the bytes of "owner".
pub open spec fn owner_tag_seed() -> Seq<u8> {
    seq![111u8, 119, 110, 101, 114]
}

/// The ordered seed list of a mint address.
pub open spec fn spec_mint_seeds(
    program_id: Seq<u8>,
    token_program: Seq<u8>,
    payer: Seq<u8>,
    nft_name: Seq<u8>,
) -> Seq<Seq<u8>> {
    seq![namespace_seed(), nft_name, mint_tag_seed(), program_id, token_program, payer]
}

/// The ordered seed list of a token-holding address.
pub open spec fn spec_token_seeds(
    program_id: Seq<u8>,
    token_program: Seq<u8>,
    payer: Seq<u8>,
    nft_name: Seq<u8>,
    owner: Seq<u8>,
) -> Seq<Seq<u8>> {
    seq![namespace_seed(), nft_name, owner_tag_seed(), program_id, token_program, payer, owner]
}

/// The derived mint address for a program, token program, payer and name.
pub open spec fn spec_mint_pda(
    program_id: Seq<u8>,
    token_program: Seq<u8>,
    payer: Seq<u8>,
    nft_name: Seq<u8>,
) -> Option<(Seq<u8>, u8)> {
    pda_of(spec_mint_seeds(program_id, token_program, payer, nft_name), program_id)
}

/// The derived token-holding address for a program, token program, payer,
/// name and owner.
pub open spec fn spec_token_pda(
    program_id: Seq<u8>,
    token_program: Seq<u8>,
    payer: Seq<u8>,
    nft_name: Seq<u8>,
    owner: Seq<u8>,
) -> Option<(Seq<u8>, u8)> {
    pda_of(spec_token_seeds(program_id, token_program, payer, nft_name, owner), program_id)
}

/// Derivation is deterministic: two derivations from the same seed list and
/// the same deriving program return the same address and bump byte.
pub proof fn lemma_derivation_deterministic(
    seeds: Seq<Seq<u8>>,
    program_id: Seq<u8>,
    r1: Option<(Seq<u8>, u8)>,
    r2: Option<(Seq<u8>, u8)>,
)
    requires
        r1 == pda_of(seeds, program_id),
        r2 == pda_of(seeds, program_id),
    ensures
        r1 == r2,
{
}

/// Copies a byte string.
pub(crate) fn clone_bytes(b: &Vec<u8>) -> (r: Vec<u8>)
    ensures
        r@ == b@,
{
    vstd::slice::slice_to_vec(b.as_slice())
}

/// The bytes of an address as a byte string.
fn address_bytes(a: &Address) -> (r: Vec<u8>)
    ensures
        r@ == a@,
{
    vstd::slice::slice_to_vec(a.bytes.as_slice())
}

/// The namespace tag as a byte string.
fn namespace_bytes() -> (r: Vec<u8>)
    ensures
        r@ == namespace_seed(),
{
    let a: [u8; 8] = [103, 108, 111, 119, 101, 110, 102, 116];
    let r = vstd::slice::slice_to_vec(a.as_slice());
    proof {
        assert(r@ =~= namespace_seed());
    }
    r
}

/// The mint role tag as a byte string.
fn mint_tag_bytes() -> (r: Vec<u8>)
    ensures
        r@ == mint_tag_seed(),
{
    let a: [u8; 4] = [109, 105, 110, 116];
    let r = vstd::slice::slice_to_vec(a.as_slice());
    proof {
        assert(r@ =~= mint_tag_seed());
    }
    r
}

/// The owner role tag as a byte string.
fn owner_tag_bytes() -> (r: Vec<u8>)
    ensures
        r@ == owner_tag_seed(),
{
    let a: [u8; 5] = [111, 119, 110, 101, 114];
    let r = vstd::slice::slice_to_vec(a.as_slice());
    proof {
        assert(r@ =~= owner_tag_seed());
    }
    r
}

/// Builds the ordered seed list of a mint address.
pub fn derive_mint_account_seeds(
    program_id: &Address,
    token_program: &Address,
    payer: &Address,
    nft_name: &Vec<u8>,
) -> (r: Vec<Vec<u8>>)
    ensures
        r.deep_view() == spec_mint_seeds(program_id@, token_program@, payer@, nft_name@),
{
    let mut seeds: Vec<Vec<u8>> = Vec::new();
    seeds.push(namespace_bytes());
    seeds.push(clone_bytes(nft_name));
    seeds.push(mint_tag_bytes());
    seeds.push(address_bytes(program_id));
    seeds.push(address_bytes(token_program));
    seeds.push(address_bytes(payer));
    proof {
        assert(seeds.deep_view() =~~= spec_mint_seeds(
            program_id@,
            token_program@,
            payer@,
            nft_name@,
        ));
    }
    seeds
}

/// Builds the ordered seed list of a token-holding address.
pub fn derive_token_account_seeds(
    program_id: &Address,
    token_program: &Address,
    payer: &Address,
    nft_name: &Vec<u8>,
    owner: &Address,
) -> (r: Vec<Vec<u8>>)
    ensures
        r.deep_view() == spec_token_seeds(program_id@, token_program@, payer@, nft_name@, owner@),
{
    let mut seeds: Vec<Vec<u8>> = Vec::new();
    seeds.push(namespace_bytes());
    seeds.push(clone_bytes(nft_name));
    seeds.push(owner_tag_bytes());
    seeds.push(address_bytes(program_id));
    seeds.push(address_bytes(token_program));
    seeds.push(address_bytes(payer));
    seeds.push(address_bytes(owner));
    proof {
        assert(seeds.deep_view() =~~= spec_token_seeds(
            program_id@,
            token_program@,
            payer@,
            nft_name@,
            owner@,
        ));
    }
    seeds
}

/// Derives the mint address and its bump byte under the given program.
pub fn derive_mint_account_internal(
    program_id: &Address,
    token_program: &Address,
    payer: &Address,
    nft_name: &Vec<u8>,
) -> (r: Option<(Address, u8)>)
    ensures
        match r {
            Some(p) => spec_mint_pda(program_id@, token_program@, payer@, nft_name@) == Some(
                (p.0@, p.1),
            ) && p.0@.len() == 32,
            None => spec_mint_pda(program_id@, token_program@, payer@, nft_name@) is None,
        },
{
    let seeds = derive_mint_account_seeds(program_id, token_program, payer, nft_name);
    find_pda(&seeds, program_id)
}

/// Derives the token-holding address and its bump byte under the given
/// program.
pub fn derive_token_account_internal(
    program_id: &Address,
    token_program: &Address,
    payer: &Address,
    nft_name: &Vec<u8>,
    owner: &Address,
) -> (r: Option<(Address, u8)>)
    ensures
        match r {
            Some(p) => spec_token_pda(program_id@, token_program@, payer@, nft_name@, owner@)
                == Some((p.0@, p.1)) && p.0@.len() == 32,
            None => spec_token_pda(program_id@, token_program@, payer@, nft_name@, owner@) is None,
        },
{
    let seeds = derive_token_account_seeds(program_id, token_program, payer, nft_name, owner);
    find_pda(&seeds, program_id)
}

/// Retrieves the mint address for a minter and a name under the fixed
/// placeholder program identity the lookup helpers use.
pub fn get_mint_account(minter: &Address, nft_name: &Vec<u8>) -> (r: Option<Address>)
    ensures
        match r {
            Some(a) => spec_mint_pda(default_program_id(), token_program_id(), minter@, nft_name@)
                matches Some(p) && p.0 == a@,
            None => spec_mint_pda(default_program_id(), token_program_id(), minter@, nft_name@)
                is None,
        },
{
    let program = default_program_address();
    let token_program = token_program_address();
    match derive_mint_account_internal(&program, &token_program, minter, nft_name) {
        Some(p) => Some(p.0),
        None => None,
    }
}

/// Retrieves the token-holding address for an owner, a minter and a name
/// under the fixed placeholder program identity the lookup helpers use.
pub fn get_token_account(owner: &Address, minter: &Address, nft_name: &Vec<u8>) -> (r: Option<
    Address,
>)
    ensures
        match r {
            Some(a) => spec_token_pda(
                default_program_id(),
                token_program_id(),
                minter@,
                nft_name@,
                owner@,
            ) matches Some(p) && p.0 == a@,
            None => spec_token_pda(
                default_program_id(),
                token_program_id(),
                minter@,
                nft_name@,
                owner@,
            ) is None,
        },
{
    let program = default_program_address();
    let token_program = token_program_address();
    match derive_token_account_internal(&program, &token_program, minter, nft_name, owner) {
        Some(p) => Some(p.0),
        None => None,
    }
}

} // verus!
