use vstd::prelude::*;

verus! {

/// The program address and bump seed that
/// `Pubkey::try_find_program_address` finds for `seeds` and a program id,
/// or `None` when it finds none.
pub uninterp spec fn program_address_of(seeds: Seq<Seq<u8>>, program_id: Seq<u8>) -> Option<(Seq<u8>, u8)>;

/// Calls `anchor_lang::prelude::Pubkey::try_find_program_address`.  Its
/// result is named `program_address_of` of the seeds and the program id.
#[verifier::external_body]
pub(crate) fn try_find_program_address(seeds: &Vec<Vec<u8>>, program_id: &[u8; 32]) -> (found: Option<([u8; 32], u8)>)
    ensures
        program_address_of(seeds.deep_view(), program_id@) == match found {
            Some((address, bump)) => Some((address@, bump)),
            None => None::<(Seq<u8>, u8)>,
        },
{
    let slices: Vec<&[u8]> = seeds.iter().map(|s| s.as_slice()).collect();
    let program = anchor_lang::prelude::Pubkey::new_from_array(*program_id);
    anchor_lang::prelude::Pubkey::try_find_program_address(&slices, &program).map(|(a, b)| (a.to_bytes(), b))
}

pub(crate) proof fn lemma_bytes_deep_view(v: Vec<u8>)
    ensures
        v.deep_view() == v@,
{
    assert(v.deep_view() =~= v@);
}

/// The bytes of `a`, in order, in a vector of their own.
pub(crate) fn array_to_vec<const N: usize>(a: &[u8; N]) -> (v: Vec<u8>)
    ensures
        v@ == a@,
{
    let mut v: Vec<u8> = Vec::new();
    for i in 0..N
        invariant
            N == a@.len(),
            v@ == a@.take(i as int),
    {
        v.push(a[i]);
        assert(a@.take(i + 1) =~= a@.take(i as int).push(a@[i as int]));
    }
    assert(a@.take(N as int) =~= a@);
    v
}

/// Id of the light system program, `SySTEM1eSU2p4BGQfQpimFEWWSC1XDFeun3Nqzz3rT7`.
pub open spec fn spec_light_system_program_id() -> Seq<u8> {
    seq![
        6u8, 167u8, 85u8, 248u8, 33u8, 57u8, 5u8, 77u8, 68u8, 36u8, 177u8, 90u8, 240u8, 196u8, 48u8,
        207u8, 47u8, 75u8, 127u8, 152u8, 121u8, 58u8, 218u8, 18u8, 82u8, 212u8, 143u8, 54u8, 102u8,
        198u8, 203u8, 206u8,
    ]
}

/// Id of the account-compression program, `compr6CUsB5m2jS4Y3831ztGSTnDpnKJTKS95d64XVq`.
pub open spec fn spec_account_compression_id() -> Seq<u8> {
    seq![
        9u8, 44u8, 54u8, 236u8, 34u8, 245u8, 23u8, 131u8, 0u8, 253u8, 180u8, 74u8, 170u8, 106u8,
        255u8, 207u8, 240u8, 164u8, 110u8, 28u8, 188u8, 100u8, 28u8, 14u8, 62u8, 208u8, 157u8,
        161u8, 59u8, 158u8, 245u8, 8u8,
    ]
}

/// Id of the compressed-token program, `cTokenmWW8bLPjZEBAUgYy3zKxQZW6VKi7bqNFEVv3m`.
pub open spec fn spec_compressed_token_id() -> Seq<u8> {
    seq![
        9u8, 21u8, 163u8, 87u8, 35u8, 121u8, 78u8, 143u8, 182u8, 93u8, 7u8, 91u8, 107u8, 114u8,
        105u8, 156u8, 56u8, 221u8, 2u8, 229u8, 148u8, 139u8, 117u8, 176u8, 229u8, 160u8, 65u8,
        142u8, 128u8, 151u8, 91u8, 68u8,
    ]
}

/// Reads `light_system_program::ID`, which the crate declares as
/// `SySTEM1eSU2p4BGQfQpimFEWWSC1XDFeun3Nqzz3rT7`.
#[verifier::external_body]
fn light_system_program_id() -> (id: [u8; 32])
    ensures
        id@ == spec_light_system_program_id(),
{
    light_system_program::ID.to_bytes()
}

/// Reads `account_compression::ID`, which the crate declares as
/// `compr6CUsB5m2jS4Y3831ztGSTnDpnKJTKS95d64XVq`.
#[verifier::external_body]
fn account_compression_id() -> (id: [u8; 32])
    ensures
        id@ == spec_account_compression_id(),
{
    account_compression::ID.to_bytes()
}

/// Reads `light_compressed_token::ID`, which the crate declares as
/// `cTokenmWW8bLPjZEBAUgYy3zKxQZW6VKi7bqNFEVv3m`.
#[verifier::external_body]
fn compressed_token_id() -> (id: [u8; 32])
    ensures
        id@ == spec_compressed_token_id(),
{
    light_compressed_token::ID.to_bytes()
}

/// The seed of the CPI authorities of the light programs, the bytes of `cpi_authority`.
pub open spec fn spec_cpi_authority_seed() -> Seq<u8> {
    seq![99u8, 112u8, 105u8, 95u8, 97u8, 117u8, 116u8, 104u8, 111u8, 114u8, 105u8, 116u8, 121u8]
}

/// The seed of token pools, the bytes of `pool`.
pub open spec fn spec_pool_seed() -> Seq<u8> {
    seq![112u8, 111u8, 111u8, 108u8]
}

/// Reads `account_compression::utils::constants::CPI_AUTHORITY_PDA_SEED`,
/// which the crate's source defines as `b"cpi_authority"`; the light system
/// program and the compressed-token program derive their CPI authorities
/// from it.
#[verifier::external_body]
fn cpi_authority_seed() -> (seed: Vec<u8>)
    ensures
        seed@ == spec_cpi_authority_seed(),
{
    account_compression::utils::constants::CPI_AUTHORITY_PDA_SEED.to_vec()
}

/// Reads `light_compressed_token::POOL_SEED`, which the crate's source
/// defines as `b"pool"`.
#[verifier::external_body]
fn pool_seed() -> (seed: Vec<u8>)
    ensures
        seed@ == spec_pool_seed(),
{
    light_compressed_token::POOL_SEED.to_vec()
}

/// The seed of the program's authority, the bytes of `soda_authority`.
pub open spec fn spec_soda_authority_seed() -> Seq<u8> {
    seq![115u8, 111u8, 100u8, 97u8, 95u8, 97u8, 117u8, 116u8, 104u8, 111u8, 114u8, 105u8, 116u8, 121u8]
}

/// The accounts, derived from program ids and seeds, that a server
/// initialisation passes.
#[derive(Clone, Copy, Debug, PartialEq, Eq)]
pub struct ServerAddresses {
    /// Registration of the light system program with account compression.
    pub registered_program_pda: [u8; 32],
    /// CPI authority of the light system program.
    pub account_compression_authority: [u8; 32],
    /// Token pool of the mint in the compressed-token program.
    pub token_pool_pda: [u8; 32],
    /// CPI authority of the compressed-token program.
    pub cpi_authority_pda: [u8; 32],
    /// Authority of this program.
    pub soda_authority: [u8; 32],
}

/// The address that `program_address_of` finds for `seeds` and `program_id`.
pub open spec fn derived_address(seeds: Seq<Seq<u8>>, program_id: Seq<u8>) -> Seq<u8> {
    program_address_of(seeds, program_id).unwrap().0
}

/// All addresses of a server initialisation can be derived.
pub open spec fn server_addresses_exist(program_id: Seq<u8>, mint: Seq<u8>) -> bool {
    &&& program_address_of(seq![spec_light_system_program_id()], spec_account_compression_id()) is Some
    &&& program_address_of(seq![spec_cpi_authority_seed()], spec_light_system_program_id()) is Some
    &&& program_address_of(seq![spec_pool_seed(), mint], spec_compressed_token_id()) is Some
    &&& program_address_of(seq![spec_cpi_authority_seed()], spec_compressed_token_id()) is Some
    &&& program_address_of(seq![spec_soda_authority_seed()], program_id) is Some
}

fn find_address(seeds: &Vec<Vec<u8>>, program_id: &[u8; 32]) -> (address: Option<[u8; 32]>)
    ensures
        address is Some <==> program_address_of(seeds.deep_view(), program_id@) is Some,
        address matches Some(a) ==> a@ == derived_address(seeds.deep_view(), program_id@),
{
    match try_find_program_address(seeds, program_id) {
        Some((address, _)) => Some(address),
        None => None,
    }
}

fn one_seed(seed: Vec<u8>) -> (seeds: Vec<Vec<u8>>)
    ensures
        seeds.deep_view() == seq![seed@],
        seeds@.len() == 1,
        seeds@[0]@ == seed@,
{
    let mut seeds: Vec<Vec<u8>> = Vec::new();
    seeds.push(seed);
    proof {
        lemma_bytes_deep_view(seeds@[0]);
    }
    assert(seeds.deep_view() =~= seq![seed@]);
    seeds
}

/// Derives the accounts that a server initialisation for `program_id` and
/// a new `mint` passes: the light system program's registration and CPI
/// authority, the mint's token pool and the compressed-token program's CPI
/// authority, and this program's authority.  `None` when one of them
/// cannot be derived.
pub fn server_addresses(program_id: [u8; 32], mint: [u8; 32]) -> (addresses: Option<ServerAddresses>)
    ensures
        addresses is Some <==> server_addresses_exist(program_id@, mint@),
        addresses matches Some(a) ==> {
            &&& a.registered_program_pda@ == derived_address(
                seq![spec_light_system_program_id()],
                spec_account_compression_id(),
            )
            &&& a.account_compression_authority@ == derived_address(
                seq![spec_cpi_authority_seed()],
                spec_light_system_program_id(),
            )
            &&& a.token_pool_pda@ == derived_address(
                seq![spec_pool_seed(), mint@],
                spec_compressed_token_id(),
            )
            &&& a.cpi_authority_pda@ == derived_address(
                seq![spec_cpi_authority_seed()],
                spec_compressed_token_id(),
            )
            &&& a.soda_authority@ == derived_address(seq![spec_soda_authority_seed()], program_id@)
        },
{
    let system = light_system_program_id();
    let compression = account_compression_id();
    let token = compressed_token_id();

    let cpi_authority = cpi_authority_seed();
    let pool = pool_seed();
    let soda: Vec<u8> = vec![115, 111, 100, 97, 95, 97, 117, 116, 104, 111, 114, 105, 116, 121];
    assert(soda@ =~= spec_soda_authority_seed());

    let system_seed = array_to_vec(&system);
    let mint_seed = array_to_vec(&mint);

    let registered_seeds = one_seed(system_seed);
    let system_authority_seeds = one_seed(cpi_authority.clone());
    let mut pool_seeds = one_seed(pool);
    pool_seeds.push(mint_seed);
    proof {
        lemma_bytes_deep_view(pool_seeds@[0]);
        lemma_bytes_deep_view(pool_seeds@[1]);
    }
    assert(pool_seeds.deep_view() =~= seq![spec_pool_seed(), mint@]);
    let token_authority_seeds = one_seed(cpi_authority);
    let soda_seeds = one_seed(soda);

    let registered_program_pda = find_address(&registered_seeds, &compression);
    let account_compression_authority = find_address(&system_authority_seeds, &system);
    let token_pool_pda = find_address(&pool_seeds, &token);
    let cpi_authority_pda = find_address(&token_authority_seeds, &token);
    let soda_authority = find_address(&soda_seeds, &program_id);
    match (registered_program_pda, account_compression_authority, token_pool_pda, cpi_authority_pda, soda_authority) {
        (Some(r), Some(a), Some(t), Some(c), Some(s)) => Some(
            ServerAddresses {
                registered_program_pda: r,
                account_compression_authority: a,
                token_pool_pda: t,
                cpi_authority_pda: c,
                soda_authority: s,
            },
        ),
        _ => None,
    }
}

} // verus!
