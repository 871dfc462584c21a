use vstd::prelude::*;
use vstd::string::StrSliceExecFns;

use crate::ids::{program_id, spec_program_id};
use crate::pda::{array_to_vec, lemma_bytes_deep_view, program_address_of, try_find_program_address};

verus! {

/// The data a name record resolves to.
#[derive(Clone, Debug, PartialEq, Eq)]
pub enum RData {
    /// An IPv4 address, by its four octets.
    A([u8; 4]),
    /// An IPv6 address, by its sixteen octets.
    AAAA([u8; 16]),
    /// A canonical name.
    CName(String),
}

/// The byte vectors that stand for `rdata` when a name record is hashed.
pub open spec fn rdata_bytes(rdata: RData) -> Seq<Seq<u8>> {
    match rdata {
        RData::A(octets) => seq![octets@],
        RData::AAAA(octets) => seq![octets@],
        RData::CName(name) => seq![vstd::utf8::encode_utf8(name@)],
    }
}

impl RData {
    /// The byte vectors that stand for this value when a name record is
    /// hashed: the address octets, or the UTF-8 bytes of the canonical name.
    pub fn as_byte_vec(&self) -> (bytes: Vec<Vec<u8>>)
        ensures
            bytes.deep_view() == rdata_bytes(*self),
            bytes@.len() == 1,
            *self matches RData::A(octets) ==> bytes@[0]@ == octets@,
            *self matches RData::AAAA(octets) ==> bytes@[0]@ == octets@,
            *self matches RData::CName(name) ==> bytes@[0]@ == vstd::utf8::encode_utf8(name@),
    {
        let mut bytes: Vec<Vec<u8>> = Vec::new();
        match self {
            RData::A(octets) => {
                bytes.push(array_to_vec(octets));
            },
            RData::AAAA(octets) => {
                bytes.push(array_to_vec(octets));
            },
            RData::CName(name) => {
                bytes.push(name.as_str().as_bytes_vec());
            },
        }
        proof {
            lemma_bytes_deep_view(bytes@[0]);
        }
        assert(bytes.deep_view() =~= rdata_bytes(*self));
        bytes
    }
}

/// A name record kept as a compressed account: who owns it, the name, and
/// what the name resolves to.
#[derive(Clone, Debug, PartialEq, Eq)]
pub struct NameRecord {
    pub owner: [u8; 32],
    pub name: String,
    pub rdata: RData,
}

/// An address tree and its queue, by their keys.
#[derive(Clone, Copy, Debug, PartialEq, Eq)]
pub struct AddressMerkleContext {
    pub address_merkle_tree_pubkey: [u8; 32],
    pub address_queue_pubkey: [u8; 32],
}

/// An address tree and its queue, by their positions among the accounts
/// that come with the instruction.
#[derive(Clone, Copy, Debug, PartialEq, Eq)]
pub struct PackedAddressMerkleContext {
    pub address_merkle_tree_pubkey_index: u8,
    pub address_queue_pubkey_index: u8,
}

/// Looks up the keys of the address tree and queue among the accounts that
/// come with the instruction.
pub fn unpack_address_merkle_context(
    packed: PackedAddressMerkleContext,
    remaining_accounts: &Vec<[u8; 32]>,
) -> (context: AddressMerkleContext)
    requires
        packed.address_merkle_tree_pubkey_index < remaining_accounts.len(),
        packed.address_queue_pubkey_index < remaining_accounts.len(),
    ensures
        context.address_merkle_tree_pubkey == remaining_accounts@[packed.address_merkle_tree_pubkey_index as int],
        context.address_queue_pubkey == remaining_accounts@[packed.address_queue_pubkey_index as int],
{
    AddressMerkleContext {
        address_merkle_tree_pubkey: remaining_accounts[packed.address_merkle_tree_pubkey_index as usize],
        address_queue_pubkey: remaining_accounts[packed.address_queue_pubkey_index as usize],
    }
}

/// The seed that `light_sdk::address::derive_address_seed` derives from
/// `seeds`, a program id and the key of an address tree.
pub uninterp spec fn address_seed_of(
    seeds: Seq<Seq<u8>>,
    program_id: Seq<u8>,
    address_merkle_tree: Seq<u8>,
) -> Seq<u8>;

/// Calls `light_sdk::address::derive_address_seed`.  Its result is named
/// `address_seed_of` of the seeds, the program id and the address tree's key
/// (the queue's key does not enter, as the source shows); the source clears
/// its first byte so that the seed fits the BN254 field.
#[verifier::external_body]
fn derive_address_seed(
    seeds: &Vec<Vec<u8>>,
    program_id: &[u8; 32],
    address_merkle_context: &AddressMerkleContext,
) -> (seed: [u8; 32])
    ensures
        seed@ == address_seed_of(
            seeds.deep_view(),
            program_id@,
            address_merkle_context.address_merkle_tree_pubkey@,
        ),
        seed[0] == 0,
{
    let slices: Vec<&[u8]> = seeds.iter().map(|s| s.as_slice()).collect();
    let context = light_sdk::merkle_context::AddressMerkleContext {
        address_merkle_tree_pubkey: anchor_lang::prelude::Pubkey::new_from_array(address_merkle_context.address_merkle_tree_pubkey),
        address_queue_pubkey: anchor_lang::prelude::Pubkey::new_from_array(address_merkle_context.address_queue_pubkey),
    };
    let program = anchor_lang::prelude::Pubkey::new_from_array(*program_id);
    light_sdk::address::derive_address_seed(&slices, &program, &context)
}

/// The seed from which the program's CPI signer is derived: the bytes of `cpi_signer`.
pub open spec fn spec_cpi_signer_seed() -> Seq<u8> {
    seq![99u8, 112u8, 105u8, 95u8, 115u8, 105u8, 103u8, 110u8, 101u8, 114u8]
}

/// The seed from which the program's CPI signer is derived.
pub fn cpi_signer_seed() -> (seed: Vec<u8>)
    ensures
        seed@ == spec_cpi_signer_seed(),
{
    let seed: Vec<u8> = vec![99, 112, 105, 95, 115, 105, 103, 110, 101, 114];
    assert(seed@ =~= spec_cpi_signer_seed());
    seed
}

/// What storing a name record hands to the light system program: the record,
/// the seed of its new address, and the bump seed with which the program
/// signs as its CPI signer (`[cpi_signer, [bump]]`).
#[derive(Clone, Debug, PartialEq, Eq)]
pub struct StorePlan {
    pub record: NameRecord,
    pub address_seed: [u8; 32],
    pub signer_bump: u8,
}

/// Builds the plan for a name record of `signer` under `account_name`, from
/// the address seed and bump seed that were derived for it.
pub fn name_record_plan(
    signer: [u8; 32],
    account_name: String,
    rdata: RData,
    address_seed: [u8; 32],
    signer_bump: u8,
) -> (plan: StorePlan)
    ensures
        plan.record.owner == signer,
        plan.record.name@ == account_name@,
        plan.record.rdata == rdata,
        plan.address_seed == address_seed,
        plan.signer_bump == signer_bump,
{
    StorePlan {
        record: NameRecord { owner: signer, name: account_name, rdata },
        address_seed,
        signer_bump,
    }
}

/// The seeds from which the address of `signer`'s record `account_name` is derived.
pub open spec fn record_seeds(signer: [u8; 32], account_name: Seq<char>) -> Seq<Seq<u8>> {
    seq![signer@, vstd::utf8::encode_utf8(account_name)]
}

/// Stores a name record of `signer` under `account_name`.
///
/// The address seed is derived from the signer's key and the UTF-8 bytes of
/// the name, under this program's id and the address tree that `address_merkle_context`
/// points to among `remaining_accounts`; its first byte is zero, so that it
/// lies in the BN254 field.  The CPI signer's bump is derived
/// from the seed `cpi_signer` and `self_program`.  Returns `None` when no
/// bump seed yields a program address.
pub fn store_accounts(
    signer: [u8; 32],
    self_program: [u8; 32],
    address_merkle_context: PackedAddressMerkleContext,
    remaining_accounts: &Vec<[u8; 32]>,
    account_name: String,
    rdata: RData,
) -> (plan: Option<StorePlan>)
    requires
        address_merkle_context.address_merkle_tree_pubkey_index < remaining_accounts.len(),
        address_merkle_context.address_queue_pubkey_index < remaining_accounts.len(),
    ensures
        plan is Some <==> program_address_of(seq![spec_cpi_signer_seed()], self_program@) is Some,
        plan matches Some(plan) ==> {
            &&& plan.record.owner == signer
            &&& plan.record.name@ == account_name@
            &&& plan.record.rdata == rdata
            &&& plan.address_seed@ == address_seed_of(
                seq![signer@, vstd::utf8::encode_utf8(account_name@)],
                spec_program_id(),
                remaining_accounts@[address_merkle_context.address_merkle_tree_pubkey_index as int]@,
            )
            &&& plan.address_seed@ == address_seed_of(
                record_seeds(signer, account_name@),
                spec_program_id(),
                remaining_accounts@[address_merkle_context.address_merkle_tree_pubkey_index as int]@,
            )
            &&& plan.address_seed[0] == 0
            &&& plan.signer_bump == program_address_of(
                seq![spec_cpi_signer_seed()],
                self_program@,
            ).unwrap().1
        },
{
    let context = unpack_address_merkle_context(address_merkle_context, remaining_accounts);
    let mut seeds: Vec<Vec<u8>> = Vec::new();
    seeds.push(array_to_vec(&signer));
    seeds.push(account_name.as_str().as_bytes_vec());
    let id = program_id();
    let address_seed = derive_address_seed(&seeds, &id, &context);
    proof {
        lemma_bytes_deep_view(seeds@[0]);
        lemma_bytes_deep_view(seeds@[1]);
    }
    assert(seeds.deep_view() =~= record_seeds(signer, account_name@));
    let mut signer_seeds: Vec<Vec<u8>> = Vec::new();
    signer_seeds.push(cpi_signer_seed());
    proof {
        lemma_bytes_deep_view(signer_seeds@[0]);
    }
    assert(signer_seeds.deep_view() =~= seq![spec_cpi_signer_seed()]);
    match try_find_program_address(&signer_seeds, &self_program) {
        Some((_, bump)) => Some(name_record_plan(signer, account_name, rdata, address_seed, bump)),
        None => None,
    }
}


/// The seed under which the name service keeps its records: the bytes of `name-service`.
pub open spec fn spec_name_service_seed() -> Seq<u8> {
    seq![110u8, 97u8, 109u8, 101u8, 45u8, 115u8, 101u8, 114u8, 118u8, 105u8, 99u8, 101u8]
}

/// The address that `light_system_program::sdk::address::derive_address`
/// derives from the key of an address tree and a seed, or `None` when it
/// fails.
pub uninterp spec fn address_of(address_merkle_tree: Seq<u8>, seed: Seq<u8>) -> Option<Seq<u8>>;

/// Calls `light_system_program::sdk::address::derive_address`.  Its result
/// is named `address_of` of the tree's key and the seed; an error of the
/// call becomes `None`.
#[verifier::external_body]
fn derive_address(address_merkle_tree: &[u8; 32], seed: &[u8; 32]) -> (address: Option<[u8; 32]>)
    ensures
        address_of(address_merkle_tree@, seed@) == match address {
            Some(a) => Some(a@),
            None => None::<Seq<u8>>,
        },
{
    let tree = anchor_lang::prelude::Pubkey::new_from_array(*address_merkle_tree);
    light_system_program::sdk::address::derive_address(&tree, seed).ok()
}

/// The address seed of the name-service record `name` in the address tree
/// of `context`, and the address derived from it (`None` when the
/// derivation fails).
pub fn name_service_address(name: &str, context: &AddressMerkleContext) -> (derived: ([u8; 32], Option<[u8; 32]>))
    ensures
        derived.0@ == address_seed_of(
            seq![spec_name_service_seed(), vstd::utf8::encode_utf8(name@)],
            spec_program_id(),
            context.address_merkle_tree_pubkey@,
        ),
        derived.0[0] == 0,
        address_of(context.address_merkle_tree_pubkey@, derived.0@) == match derived.1 {
            Some(a) => Some(a@),
            None => None::<Seq<u8>>,
        },
{
    let mut seeds: Vec<Vec<u8>> = Vec::new();
    let prefix: Vec<u8> = vec![110, 97, 109, 101, 45, 115, 101, 114, 118, 105, 99, 101];
    seeds.push(prefix);
    seeds.push(name.as_bytes_vec());
    proof {
        lemma_bytes_deep_view(seeds@[0]);
        lemma_bytes_deep_view(seeds@[1]);
    }
    assert(seeds.deep_view() =~= seq![spec_name_service_seed(), vstd::utf8::encode_utf8(name@)]);
    let id = program_id();
    let seed = derive_address_seed(&seeds, &id, context);
    let address = derive_address(&context.address_merkle_tree_pubkey, &seed);
    (seed, address)
}

/// The canonical-name bytes that are hashed are exactly the name's UTF-8
/// bytes, and they give the name back: decoding them yields the name, so two
/// canonical names are hashed alike only when they are the same name.  The
/// address octets are hashed as they are.
pub proof fn hashed_rdata_keeps_the_whole_value(a: RData, b: RData)
    ensures
        a matches RData::CName(n) ==> rdata_bytes(a).len() == 1 && vstd::utf8::decode_utf8(
            rdata_bytes(a)[0],
        ) == n@ && rdata_bytes(a)[0] == vstd::utf8::encode_utf8(n@),
        a matches RData::A(o) ==> rdata_bytes(a) == seq![o@],
        a matches RData::AAAA(o) ==> rdata_bytes(a) == seq![o@],
        a matches RData::CName(n) ==> (b matches RData::CName(m) ==> (rdata_bytes(a)
            == rdata_bytes(b) ==> n@ == m@)),
{
    broadcast use vstd::utf8::encode_utf8_decode_utf8;
    if let RData::CName(n) = a {
        if let RData::CName(m) = b {
            if rdata_bytes(a) == rdata_bytes(b) {
                assert(rdata_bytes(a)[0] == rdata_bytes(b)[0]);
            }
        }
    }
}

/// The address seed of a name record is derived from the signer's 32 key
/// bytes and all of the UTF-8 bytes of the name, in that order: the name
/// decodes back from its seed input, and distinct (signer, name) pairs give
/// distinct seed inputs.
pub proof fn record_seeds_keep_signer_and_whole_name(
    signer: [u8; 32],
    name: Seq<char>,
    other_signer: [u8; 32],
    other_name: Seq<char>,
)
    ensures
        record_seeds(signer, name).len() == 2,
        record_seeds(signer, name)[0] == signer@,
        record_seeds(signer, name)[1] == vstd::utf8::encode_utf8(name),
        vstd::utf8::decode_utf8(record_seeds(signer, name)[1]) == name,
        record_seeds(signer, name) == record_seeds(other_signer, other_name) ==> signer
            == other_signer && name == other_name,
{
    broadcast use vstd::utf8::encode_utf8_decode_utf8;
    if record_seeds(signer, name) == record_seeds(other_signer, other_name) {
        assert(record_seeds(signer, name)[0] == record_seeds(other_signer, other_name)[0]);
        assert(record_seeds(signer, name)[1] == record_seeds(other_signer, other_name)[1]);
        vstd::utf8::encode_utf8_decode_utf8(name);
        vstd::utf8::encode_utf8_decode_utf8(other_name);
        assert(name == other_name);
        assert(signer@ == other_signer@);
        assert(signer =~= other_signer) by {
            assert forall|i: int| 0 <= i < 32 implies signer[i] == other_signer[i] by {
                assert(signer@[i] == other_signer@[i]);
            }
        }
    }
}

} // verus!
