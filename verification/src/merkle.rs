use vstd::prelude::*;
use account_compression::sdk::create_initialize_address_merkle_tree_and_queue_instruction as sdk_address_tree_instruction;
use account_compression::{AddressMerkleTreeConfig, AddressQueueConfig};
use solana_sdk::pubkey::Pubkey;

use crate::client::{AccountMeta, Instruction};
use crate::pda::spec_account_compression_id;

verus! {

/// The part of an address Merkle tree's configuration that fixes the size
/// of its account.
#[derive(Clone, Copy, Debug, PartialEq, Eq, Structural)]
pub struct AddressTreeConfig {
    pub height: u32,
    pub changelog_size: u64,
    pub roots_size: u64,
    pub canopy_depth: u64,
    pub address_changelog_size: u64,
}

/// Reads the sizing fields of `account_compression::AddressMerkleTreeConfig::default()`;
/// the crate's source sets them to height 26, changelog 1400, roots 2400,
/// canopy depth 10 and address changelog 1400.
#[verifier::external_body]
pub(crate) fn default_address_tree_config() -> (config: AddressTreeConfig)
    ensures
        config == (AddressTreeConfig {
            height: 26,
            changelog_size: 1400,
            roots_size: 2400,
            canopy_depth: 10,
            address_changelog_size: 1400,
        }),
{
    let config = account_compression::AddressMerkleTreeConfig::default();
    AddressTreeConfig {
        height: config.height,
        changelog_size: config.changelog_size,
        roots_size: config.roots_size,
        canopy_depth: config.canopy_depth,
        address_changelog_size: config.address_changelog_size,
    }
}

/// Reads `account_compression::utils::constants::ADDRESS_QUEUE_VALUES`,
/// which the crate's source sets to 28 807.
#[verifier::external_body]
fn address_queue_values() -> (values: u16)
    ensures
        values == 28_807,
{
    account_compression::utils::constants::ADDRESS_QUEUE_VALUES
}

/// The size in bytes that `account_compression::QueueAccount::size` gives
/// for a queue of `capacity` values.
pub uninterp spec fn queue_account_size_of(capacity: u16) -> usize;

/// Calls `account_compression::QueueAccount::size`, which its source always
/// answers with `Ok`.  Its result is named `queue_account_size_of` of the
/// capacity.
#[verifier::external_body]
fn queue_account_size(capacity: u16) -> (size: usize)
    ensures
        size == queue_account_size_of(capacity),
{
    account_compression::QueueAccount::size(capacity as usize).unwrap()
}

/// The size in bytes that `account_compression::AddressMerkleTreeAccount::size`
/// gives for a tree of the given height, changelog, roots, canopy depth and
/// address changelog.
pub uninterp spec fn address_tree_account_size_of(
    height: usize,
    changelog_size: usize,
    roots_size: usize,
    canopy_depth: usize,
    address_changelog_size: usize,
) -> usize;

/// Calls `account_compression::AddressMerkleTreeAccount::size`.  Its result
/// is named `address_tree_account_size_of` of the arguments.  The source adds
/// and multiplies the arguments by the sizes of fixed entries and sizes the
/// canopy as `2^(canopy_depth + 1) - 2` hashes; within the bounds required
/// here none of that overflows.
#[verifier::external_body]
fn address_tree_account_size(
    height: usize,
    changelog_size: usize,
    roots_size: usize,
    canopy_depth: usize,
    address_changelog_size: usize,
) -> (size: usize)
    requires
        height <= 65_535,
        changelog_size <= 65_535,
        roots_size <= 65_535,
        canopy_depth <= 20,
        address_changelog_size <= 65_535,
    ensures
        size == address_tree_account_size_of(
            height,
            changelog_size,
            roots_size,
            canopy_depth,
            address_changelog_size,
        ),
{
    account_compression::AddressMerkleTreeAccount::size(
        height,
        changelog_size,
        roots_size,
        canopy_depth,
        address_changelog_size,
    )
}

/// The sizes in bytes of the queue account and of the tree account of a new
/// address Merkle tree with the default configuration, whose queue holds
/// `ADDRESS_QUEUE_VALUES` values.
pub fn address_tree_account_sizes() -> (sizes: (usize, usize))
    ensures
        sizes.0 == queue_account_size_of(28_807),
        sizes.1 == address_tree_account_size_of(26, 1400, 2400, 10, 1400),
{
    let config = default_address_tree_config();
    let queue_size = queue_account_size(address_queue_values());
    let tree_size = address_tree_account_size(
        config.height as usize,
        config.changelog_size as usize,
        config.roots_size as usize,
        config.canopy_depth as usize,
        config.address_changelog_size as usize,
    );
    (queue_size, tree_size)
}

/// The key bytes of an optional key.
pub open spec fn optional_key(key: Option<[u8; 32]>) -> Option<Seq<u8>> {
    match key {
        Some(k) => Some(k@),
        None => None,
    }
}

/// The data of the account-compression instruction that initialises an
/// address tree and its queue, as
/// `account_compression::sdk::create_initialize_address_merkle_tree_and_queue_instruction`
/// encodes it for `index`, `program_owner` and `forester` with the default
/// tree and queue configurations.
pub uninterp spec fn address_tree_init_data_of(
    index: u64,
    program_owner: Option<Seq<u8>>,
    forester: Option<Seq<u8>>,
) -> Seq<u8>;

/// Calls `account_compression::sdk::create_initialize_address_merkle_tree_and_queue_instruction`
/// with no registered program and the default configurations, and converts
/// the instruction to plain values.  As the source shows, it calls the
/// account-compression program with the payer (a writable signer), the tree,
/// the queue and the program's own id (all writable); its data is named
/// `address_tree_init_data_of` of the index, owner and forester.
#[verifier::external_body]
fn address_tree_sdk_instruction(
    index: u64,
    payer: &[u8; 32],
    program_owner: Option<[u8; 32]>,
    forester: Option<[u8; 32]>,
    merkle_tree: &[u8; 32],
    queue: &[u8; 32],
) -> (instruction: Instruction)
    ensures
        instruction.program_id@ == spec_account_compression_id(),
        instruction.accounts@.len() == 4,
        instruction.accounts@[0] == (AccountMeta { pubkey: *payer, is_signer: true, is_writable: true }),
        instruction.accounts@[1] == (AccountMeta { pubkey: *merkle_tree, is_signer: false, is_writable: true }),
        instruction.accounts@[2] == (AccountMeta { pubkey: *queue, is_signer: false, is_writable: true }),
        instruction.accounts@[3].pubkey@ == spec_account_compression_id(),
        !instruction.accounts@[3].is_signer && instruction.accounts@[3].is_writable,
        instruction.data@ == address_tree_init_data_of(
            index,
            optional_key(program_owner),
            optional_key(forester),
        ),
{
    let key = Pubkey::new_from_array;
    let ix = sdk_address_tree_instruction(index, key(*payer), None, program_owner.map(key), forester.map(key),
        key(*merkle_tree), key(*queue), AddressMerkleTreeConfig::default(), AddressQueueConfig::default());
    let accounts = ix.accounts.iter().map(|m| AccountMeta { pubkey: m.pubkey.to_bytes(), is_signer: m.is_signer, is_writable: m.is_writable }).collect();
    Instruction { program_id: ix.program_id.to_bytes(), accounts, data: ix.data }
}

/// The instruction that initialises a new address tree `merkle_tree` and its
/// queue `queue`, paid by `payer`, under index 0 with the default
/// configurations, no program owner and `forester` as its forester.
pub fn initialize_address_tree_instruction(
    payer: [u8; 32],
    merkle_tree: [u8; 32],
    queue: [u8; 32],
    forester: [u8; 32],
) -> (instruction: Instruction)
    ensures
        instruction.program_id@ == spec_account_compression_id(),
        instruction.accounts@.len() == 4,
        instruction.accounts@[0] == (AccountMeta { pubkey: payer, is_signer: true, is_writable: true }),
        instruction.accounts@[1] == (AccountMeta { pubkey: merkle_tree, is_signer: false, is_writable: true }),
        instruction.accounts@[2] == (AccountMeta { pubkey: queue, is_signer: false, is_writable: true }),
        instruction.accounts@[3].pubkey@ == spec_account_compression_id(),
        !instruction.accounts@[3].is_signer && instruction.accounts@[3].is_writable,
        instruction.data@ == address_tree_init_data_of(0, None, Some(forester@)),
{
    address_tree_sdk_instruction(0, &payer, None, Some(forester), &merkle_tree, &queue)
}

} // verus!
