use std::str::FromStr;

use anchor_lang::prelude::Pubkey;
use light_hasher::bytes::AsByteVec;
use soda_unchained::calls::ProgramCall;
use soda_unchained::error::ErrorCode;
use soda_unchained::ids::{admin_id, program_id};
use soda_unchained::initialize::initialize_server;
use soda_unchained::merkle::AddressTreeConfig;
use soda_unchained::membership::manage_membership;
use soda_unchained::transfer::{
    cpi_signer_seed, name_record_plan, name_service_address, store_accounts,
    unpack_address_merkle_context, AddressMerkleContext, PackedAddressMerkleContext, RData,
};

#[test]
fn error_codes_follow_anchor_offset() {
    assert_eq!(ErrorCode::InvalidSigner.code(), 6000);
    assert_eq!(ErrorCode::InvalidParam.code(), 6001);
    assert_eq!(ErrorCode::InvalidSigner.code(), anchor_lang::error::ERROR_CODE_OFFSET);
    assert_ne!(ErrorCode::InvalidSigner.code(), ErrorCode::InvalidParam.code());
}

#[test]
fn error_names_and_messages() {
    assert_eq!(ErrorCode::InvalidSigner.name(), "InvalidSigner");
    assert_eq!(ErrorCode::InvalidParam.name(), "InvalidParam");
    assert_eq!(ErrorCode::InvalidSigner.message(), "Invalid signer");
    assert_eq!(ErrorCode::InvalidParam.message(), "Invalid Param");
}

#[test]
fn ids_match_their_base58_text() {
    let program = Pubkey::from_str("5cqC671u7TqttSQC3MBMTj41KkWC8pTebcg1kbXwP1hZ").unwrap();
    assert_eq!(program_id(), program.to_bytes());
    let admin = Pubkey::from_str("Bn6jUQPC48meSkE5nZ8G8yWyxsuoiGwQwyX127nVmWWZ").unwrap();
    assert_eq!(admin_id(), admin.to_bytes());
}

#[test]
fn initialize_server_creates_pool_and_tree_mints_and_inserts_creator() {
    let creator = [7u8; 32];
    let calls = initialize_server(creator, 42);
    assert_eq!(
        calls,
        vec![
            ProgramCall::CreateTokenPool,
            ProgramCall::AssertAccounts,
            ProgramCall::CreateAddressTree {
                index: 0,
                config: AddressTreeConfig {
                    height: 26,
                    changelog_size: 1400,
                    roots_size: 2400,
                    canopy_depth: 10,
                    address_changelog_size: 1400,
                },
            },
            ProgramCall::MintTo { recipients: vec![creator], amounts: vec![42] },
            ProgramCall::InsertAddresses { addresses: vec![creator] },
        ]
    );
}

#[test]
fn membership_zero_mints_one_token_and_inserts_address() {
    let payer = [3u8; 32];
    let calls = manage_membership(payer, 0).unwrap();
    assert_eq!(
        calls,
        vec![
            ProgramCall::MintTo { recipients: vec![payer], amounts: vec![1] },
            ProgramCall::InsertAddresses { addresses: vec![payer] },
        ]
    );
}

#[test]
fn membership_other_params_are_refused() {
    let payer = [3u8; 32];
    assert_eq!(manage_membership(payer, 1), Err(ErrorCode::InvalidParam));
    assert_eq!(manage_membership(payer, 2), Err(ErrorCode::InvalidParam));
    assert_eq!(manage_membership(payer, 255), Err(ErrorCode::InvalidParam));
}

#[test]
fn rdata_byte_vectors() {
    assert_eq!(RData::A([127, 0, 0, 1]).as_byte_vec(), vec![vec![127, 0, 0, 1]]);
    let v6: [u8; 16] = [0x20, 0x01, 0x0d, 0xb8, 0, 0, 0, 0, 0, 0, 0, 0, 0, 0, 0, 1];
    assert_eq!(RData::AAAA(v6).as_byte_vec(), vec![v6.to_vec()]);
    assert_eq!(
        RData::CName("example.io".to_string()).as_byte_vec(),
        vec![b"example.io".to_vec()]
    );
    assert_eq!(RData::CName("é".to_string()).as_byte_vec(), vec![vec![0xc3, 0xa9]]);
}

#[test]
fn rdata_name_bytes_match_light_hasher() {
    let name = "soda.example".to_string();
    assert_eq!(RData::CName(name.clone()).as_byte_vec(), name.as_byte_vec());
}

#[test]
fn unpack_picks_keys_by_position() {
    let remaining = vec![[1u8; 32], [2u8; 32], [3u8; 32]];
    let packed = PackedAddressMerkleContext {
        address_merkle_tree_pubkey_index: 2,
        address_queue_pubkey_index: 0,
    };
    let context = unpack_address_merkle_context(packed, &remaining);
    assert_eq!(context.address_merkle_tree_pubkey, [3u8; 32]);
    assert_eq!(context.address_queue_pubkey, [1u8; 32]);
}

#[test]
fn cpi_signer_seed_is_its_name() {
    assert_eq!(cpi_signer_seed(), b"cpi_signer".to_vec());
}

#[test]
fn store_accounts_derives_seed_and_bump() {
    let signer = [9u8; 32];
    let self_program = program_id();
    let tree = [4u8; 32];
    let queue = [5u8; 32];
    let remaining = vec![queue, tree];
    let packed = PackedAddressMerkleContext {
        address_merkle_tree_pubkey_index: 1,
        address_queue_pubkey_index: 0,
    };
    let name = "alice.soda".to_string();
    let plan = store_accounts(
        signer,
        self_program,
        packed,
        &remaining,
        name.clone(),
        RData::A([10, 0, 0, 1]),
    )
    .unwrap();
    assert_eq!(plan.record.owner, signer);
    assert_eq!(plan.record.name, name);
    assert_eq!(plan.record.rdata, RData::A([10, 0, 0, 1]));

    let context = light_sdk::merkle_context::AddressMerkleContext {
        address_merkle_tree_pubkey: Pubkey::new_from_array(tree),
        address_queue_pubkey: Pubkey::new_from_array(queue),
    };
    let expected_seed = light_sdk::address::derive_address_seed(
        &[signer.as_slice(), name.as_bytes()],
        &Pubkey::new_from_array(program_id()),
        &context,
    );
    assert_eq!(plan.address_seed, expected_seed);
    assert_eq!(plan.address_seed[0], 0);

    let (_, bump) =
        Pubkey::find_program_address(&[b"cpi_signer"], &Pubkey::new_from_array(self_program));
    assert_eq!(plan.signer_bump, bump);
}

#[test]
fn store_accounts_seed_depends_on_name_and_tree() {
    let signer = [9u8; 32];
    let remaining = vec![[4u8; 32], [6u8; 32]];
    let at = |tree: u8, name: &str| {
        store_accounts(
            signer,
            program_id(),
            PackedAddressMerkleContext {
                address_merkle_tree_pubkey_index: tree,
                address_queue_pubkey_index: 0,
            },
            &remaining,
            name.to_string(),
            RData::CName("x".to_string()),
        )
        .unwrap()
        .address_seed
    };
    assert_ne!(at(0, "a"), at(0, "b"));
    assert_ne!(at(0, "a"), at(1, "a"));
    assert_eq!(at(0, "a"), at(0, "a"));
}

#[test]
fn name_record_plan_keeps_its_inputs() {
    let plan = name_record_plan([1u8; 32], "n".to_string(), RData::CName("c".into()), [2u8; 32], 254);
    assert_eq!(plan.record.owner, [1u8; 32]);
    assert_eq!(plan.record.name, "n");
    assert_eq!(plan.record.rdata, RData::CName("c".into()));
    assert_eq!(plan.address_seed, [2u8; 32]);
    assert_eq!(plan.signer_bump, 254);
}

#[test]
fn name_service_address_matches_light_derivations() {
    let tree = [11u8; 32];
    let context = AddressMerkleContext { address_merkle_tree_pubkey: tree, address_queue_pubkey: [12u8; 32] };
    let (seed, address) = name_service_address("example.io", &context);
    let light_context = light_sdk::merkle_context::AddressMerkleContext {
        address_merkle_tree_pubkey: Pubkey::new_from_array(tree),
        address_queue_pubkey: Pubkey::new_from_array([12u8; 32]),
    };
    let expected_seed = light_sdk::address::derive_address_seed(
        &[b"name-service", b"example.io"],
        &Pubkey::new_from_array(program_id()),
        &light_context,
    );
    assert_eq!(seed, expected_seed);
    let expected_address =
        light_system_program::sdk::address::derive_address(&Pubkey::new_from_array(tree), &seed)
            .unwrap();
    assert_eq!(address, Some(expected_address));
    assert_ne!(address, Some(seed));
}

#[test]
fn server_address_tree_has_the_default_configuration() {
    let calls = initialize_server([1u8; 32], 1);
    let default = account_compression::AddressMerkleTreeConfig::default();
    match &calls[2] {
        ProgramCall::CreateAddressTree { index, config } => {
            assert_eq!(*index, 0);
            assert_eq!(config.height, default.height);
            assert_eq!(config.changelog_size, default.changelog_size);
            assert_eq!(config.roots_size, default.roots_size);
            assert_eq!(config.canopy_depth, default.canopy_depth);
            assert_eq!(config.address_changelog_size, default.address_changelog_size);
        }
        other => panic!("expected the address tree call, got {:?}", other),
    }
}
