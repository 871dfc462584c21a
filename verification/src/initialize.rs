use vstd::prelude::*;

use crate::calls::ProgramCall;
use crate::merkle::{default_address_tree_config, AddressTreeConfig};

verus! {

/// The sizing fields of the default address tree configuration.
pub open spec fn spec_default_address_tree_config() -> AddressTreeConfig {
    AddressTreeConfig {
        height: 26,
        changelog_size: 1400,
        roots_size: 2400,
        canopy_depth: 10,
        address_changelog_size: 1400,
    }
}

/// Initialises a server: creates the token pool of the server's new mint,
/// checks the accounts, creates the server's address Merkle tree (with its
/// queue) under index 0 and the default configuration, mints `amount`
/// compressed tokens to the creator, and inserts the creator's address into
/// that tree.
pub fn initialize_server(creator: [u8; 32], amount: u64) -> (calls: Vec<ProgramCall>)
    ensures
        calls@.len() == 5,
        calls@[0] == ProgramCall::CreateTokenPool,
        calls@[1] == ProgramCall::AssertAccounts,
        calls@[2] == (ProgramCall::CreateAddressTree {
            index: 0,
            config: spec_default_address_tree_config(),
        }),
        calls@[3].is_mint_to(seq![creator], seq![amount]),
        calls@[4].is_insert_addresses(seq![creator]),
{
    let mut calls: Vec<ProgramCall> = Vec::new();
    calls.push(ProgramCall::CreateTokenPool);
    calls.push(ProgramCall::AssertAccounts);
    calls.push(ProgramCall::CreateAddressTree { index: 0, config: default_address_tree_config() });
    let mut recipients: Vec<[u8; 32]> = Vec::new();
    recipients.push(creator);
    let mut amounts: Vec<u64> = Vec::new();
    amounts.push(amount);
    calls.push(ProgramCall::MintTo { recipients, amounts });
    let mut addresses: Vec<[u8; 32]> = Vec::new();
    addresses.push(creator);
    calls.push(ProgramCall::InsertAddresses { addresses });
    assert(calls@[3].is_mint_to(seq![creator], seq![amount])) by {
        assert(recipients@ =~= seq![creator]);
        assert(amounts@ =~= seq![amount]);
    }
    assert(addresses@ =~= seq![creator]);
    calls
}

} // verus!
