use std::str::FromStr;

use account_compression::{AddressMerkleTreeAccount, AddressMerkleTreeConfig, QueueAccount};
use anchor_lang::prelude::Pubkey;
use soda_unchained::ids::program_id;
use soda_unchained::pda::server_addresses;

#[test]
fn server_addresses_match_the_programs_helpers() {
    let program = Pubkey::new_from_array(program_id());
    let mint = Pubkey::new_from_array([21u8; 32]);
    let addresses = server_addresses(program.to_bytes(), mint.to_bytes()).unwrap();

    let registered = Pubkey::find_program_address(
        &[light_system_program::ID.to_bytes().as_slice()],
        &account_compression::ID,
    )
    .0;
    assert_eq!(addresses.registered_program_pda, registered.to_bytes());

    let authority = light_system_program::utils::get_cpi_authority_pda(&light_system_program::ID);
    assert_eq!(addresses.account_compression_authority, authority.to_bytes());

    let pool = light_compressed_token::get_token_pool_pda(&mint);
    assert_eq!(addresses.token_pool_pda, pool.to_bytes());

    let (cpi_authority, _) = light_compressed_token::process_transfer::get_cpi_authority_pda();
    assert_eq!(addresses.cpi_authority_pda, cpi_authority.to_bytes());

    let (soda_authority, _) = Pubkey::find_program_address(&[b"soda_authority"], &program);
    assert_eq!(addresses.soda_authority, soda_authority.to_bytes());
}

#[test]
fn token_pool_depends_on_the_mint() {
    let a = server_addresses(program_id(), [1u8; 32]).unwrap();
    let b = server_addresses(program_id(), [2u8; 32]).unwrap();
    assert_ne!(a.token_pool_pda, b.token_pool_pda);
    assert_eq!(a.soda_authority, b.soda_authority);
}

#[test]
fn program_ids_of_the_light_programs() {
    assert_eq!(
        light_system_program::ID,
        Pubkey::from_str("SySTEM1eSU2p4BGQfQpimFEWWSC1XDFeun3Nqzz3rT7").unwrap()
    );
    assert_eq!(
        account_compression::ID,
        Pubkey::from_str("compr6CUsB5m2jS4Y3831ztGSTnDpnKJTKS95d64XVq").unwrap()
    );
}

#[test]
fn default_tree_account_sizes_match_account_compression() {
    let (queue_size, tree_size) = soda_unchained::merkle::address_tree_account_sizes();
    let expected_queue =
        QueueAccount::size(account_compression::utils::constants::ADDRESS_QUEUE_VALUES as usize)
            .unwrap();
    assert_eq!(queue_size, expected_queue);
    let config = AddressMerkleTreeConfig::default();
    let expected_tree = AddressMerkleTreeAccount::size(
        config.height as usize,
        config.changelog_size as usize,
        config.roots_size as usize,
        config.canopy_depth as usize,
        config.address_changelog_size as usize,
    );
    assert_eq!(tree_size, expected_tree);
    assert!(tree_size > queue_size / 1000);
}

#[test]
fn address_tree_instruction_matches_the_account_compression_sdk() {
    let payer = Pubkey::new_from_array([1u8; 32]);
    let tree = Pubkey::new_from_array([2u8; 32]);
    let queue = Pubkey::new_from_array([3u8; 32]);
    let forester = Pubkey::new_from_array([4u8; 32]);
    let expected = account_compression::sdk::create_initialize_address_merkle_tree_and_queue_instruction(
        0,
        payer,
        None,
        None,
        Some(forester),
        tree,
        queue,
        AddressMerkleTreeConfig::default(),
        account_compression::AddressQueueConfig::default(),
    );
    let instruction = soda_unchained::merkle::initialize_address_tree_instruction(
        payer.to_bytes(),
        tree.to_bytes(),
        queue.to_bytes(),
        forester.to_bytes(),
    );
    assert_eq!(instruction.program_id, account_compression::ID.to_bytes());
    assert_eq!(instruction.data, expected.data);
    assert!(!instruction.data.is_empty());
    assert_eq!(instruction.accounts.len(), 4);
    for (meta, want) in instruction.accounts.iter().zip(expected.accounts.iter()) {
        assert_eq!(meta.pubkey, want.pubkey.to_bytes());
        assert_eq!(meta.is_signer, want.is_signer);
        assert_eq!(meta.is_writable, want.is_writable);
    }
    assert_eq!(instruction.accounts[0].pubkey, [1u8; 32]);
    assert_eq!(instruction.accounts[3].pubkey, account_compression::ID.to_bytes());
}

#[test]
fn address_tree_instruction_data_depends_on_the_forester() {
    let a = soda_unchained::merkle::initialize_address_tree_instruction([1; 32], [2; 32], [3; 32], [4; 32]);
    let b = soda_unchained::merkle::initialize_address_tree_instruction([1; 32], [2; 32], [3; 32], [5; 32]);
    assert_ne!(a.data, b.data);
}
