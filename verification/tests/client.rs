use std::str::FromStr;

use solana_sdk::pubkey::Pubkey;
use solana_sdk::signature::Signature;
use soda_unchained::client::{
    clear, create_account_instruction, link_message, transaction_link, AccountMeta,
};
use soda_unchained::config::{config_with_program, load_cfg, ConfigError, ConfigField, RawConfig};

const PROGRAM: &str = "5cqC671u7TqttSQC3MBMTj41KkWC8pTebcg1kbXwP1hZ";

fn full_config() -> RawConfig {
    RawConfig {
        http_url: Some("https://api.devnet.solana.com".to_string()),
        ws_url: Some("wss://api.devnet.solana.com".to_string()),
        payer_path: Some("payer.json".to_string()),
        merkle_keypair: Some("merkle".to_string()),
        queue_keypair: Some("queue".to_string()),
        admin_path: Some("admin.json".to_string()),
        soda_unchained_program: Some(PROGRAM.to_string()),
    }
}

#[test]
fn load_cfg_accepts_a_full_config() {
    let config = load_cfg(full_config()).unwrap();
    assert_eq!(config.http_url, "https://api.devnet.solana.com");
    assert_eq!(config.ws_url, "wss://api.devnet.solana.com");
    assert_eq!(config.payer_path, "payer.json");
    assert_eq!(config.merkle_keypair, "merkle");
    assert_eq!(config.queue_keypair, "queue");
    assert_eq!(config.admin_path, "admin.json");
    assert_eq!(config.soda_unchained_program, Pubkey::from_str(PROGRAM).unwrap().to_bytes());
}

#[test]
fn load_cfg_reports_missing_entry() {
    let mut raw = full_config();
    raw.admin_path = None;
    assert_eq!(load_cfg(raw), Err(ConfigError::Missing(ConfigField::AdminPath)));
}

#[test]
fn load_cfg_reports_empty_entry() {
    let mut raw = full_config();
    raw.queue_keypair = Some(String::new());
    assert_eq!(load_cfg(raw), Err(ConfigError::Empty(ConfigField::QueueKeypair)));
}

#[test]
fn load_cfg_reports_first_failing_entry() {
    let mut raw = full_config();
    raw.ws_url = Some(String::new());
    raw.http_url = None;
    raw.admin_path = None;
    assert_eq!(load_cfg(raw), Err(ConfigError::Missing(ConfigField::HttpUrl)));
}

#[test]
fn load_cfg_refuses_bad_program_id() {
    let mut raw = full_config();
    raw.soda_unchained_program = Some("not-a-key".to_string());
    assert_eq!(load_cfg(raw), Err(ConfigError::InvalidProgramId));
    let mut raw = full_config();
    raw.soda_unchained_program = Some("1".repeat(45));
    assert_eq!(load_cfg(raw), Err(ConfigError::InvalidProgramId));
}

#[test]
fn config_keys_and_messages() {
    assert_eq!(ConfigField::SodaUnchainedProgram.key(), "soda_unchained_program");
    assert_eq!(ConfigField::MerkleKeypair.key(), "merkle_keypair");
    assert_eq!(ConfigField::HttpUrl.empty_message(), "http_url must not be empty");
    assert_eq!(ConfigField::MerkleKeypair.empty_message(), "payer_path must not be empty");
    assert_eq!(ConfigField::QueueKeypair.empty_message(), "payer_path must not be empty");
    assert_eq!(
        ConfigField::SodaUnchainedProgram.empty_message(),
        "soda_unchained_program must not be empty"
    );
}

#[test]
fn transaction_link_embeds_base58_signature() {
    let bytes = [5u8; 64];
    let expected = format!(
        "Signature: \nhttps://solscan.io/tx/{}?cluster=custom&customUrl=https://devnet.helius-rpc.com/?api-key=16ef3f61-7567-47d9-9c44-edec13422455",
        Signature::from(bytes)
    );
    assert_eq!(transaction_link(bytes), expected);
    assert!(transaction_link(bytes).contains(&bs58_of(&bytes)));
}

fn bs58_of(bytes: &[u8; 64]) -> String {
    Signature::from(*bytes).to_string()
}

#[test]
fn clear_is_the_ansi_clear_sequence() {
    assert_eq!(clear(), "\x1b[2J\x1b[1;1H");
}

#[test]
fn create_account_instruction_matches_system_program() {
    let payer = [1u8; 32];
    let new_account = [2u8; 32];
    let owner = [3u8; 32];
    let ix = create_account_instruction(payer, 0x0102, 0x0a0b0c, owner, Some(new_account));
    let expected = solana_sdk::system_instruction::create_account(
        &Pubkey::new_from_array(payer),
        &Pubkey::new_from_array(new_account),
        0x0a0b0c,
        0x0102,
        &Pubkey::new_from_array(owner),
    );
    assert_eq!(ix.program_id, [0u8; 32]);
    assert_eq!(ix.program_id, expected.program_id.to_bytes());
    assert_eq!(
        ix.accounts,
        vec![
            AccountMeta { pubkey: payer, is_signer: true, is_writable: true },
            AccountMeta { pubkey: new_account, is_signer: true, is_writable: true },
        ]
    );
    assert_eq!(ix.data, expected.data);
    let mut data = vec![0u8, 0, 0, 0];
    data.extend_from_slice(&0x0a0b0cu64.to_le_bytes());
    data.extend_from_slice(&0x0102u64.to_le_bytes());
    data.extend_from_slice(&owner);
    assert_eq!(ix.data, data);
}

#[test]
fn create_account_instruction_without_keypair_uses_a_fresh_account() {
    let payer = [1u8; 32];
    let ix = create_account_instruction(payer, 8, 1, [3u8; 32], None);
    assert_eq!(ix.accounts.len(), 2);
    assert_eq!(ix.accounts[0].pubkey, payer);
    assert!(ix.accounts[1].is_signer && ix.accounts[1].is_writable);
    assert_ne!(ix.accounts[1].pubkey, payer);
}

#[test]
fn link_message_wraps_the_text() {
    assert_eq!(
        link_message("abc"),
        "Signature: \nhttps://solscan.io/tx/abc?cluster=custom&customUrl=https://devnet.helius-rpc.com/?api-key=16ef3f61-7567-47d9-9c44-edec13422455"
    );
}

#[test]
fn config_with_program_needs_a_key() {
    let s = |t: &str| t.to_string();
    let ok = config_with_program(s("h"), s("w"), s("p"), s("m"), s("q"), s("a"), Some([8u8; 32])).unwrap();
    assert_eq!(ok.http_url, "h");
    assert_eq!(ok.ws_url, "w");
    assert_eq!(ok.payer_path, "p");
    assert_eq!(ok.merkle_keypair, "m");
    assert_eq!(ok.queue_keypair, "q");
    assert_eq!(ok.admin_path, "a");
    assert_eq!(ok.soda_unchained_program, [8u8; 32]);
    let err = config_with_program(s("h"), s("w"), s("p"), s("m"), s("q"), s("a"), None);
    assert_eq!(err, Err(ConfigError::InvalidProgramId));
}
