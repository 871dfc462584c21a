use vstd::prelude::*;

use crate::merkle::AddressTreeConfig;

verus! {

/// A call that an instruction of the program makes into another program,
/// described by the values it passes.  The caller performs the calls in
/// order and stops at the first that fails.
#[derive(Clone, Debug, PartialEq, Eq)]
pub enum ProgramCall {
    /// Create the token pool of the mint in the compressed-token program.
    CreateTokenPool,
    /// Check the accounts that the following calls use.
    AssertAccounts,
    /// Initialise the server's address Merkle tree and its queue in the
    /// account-compression program, under `index`, with the default tree
    /// and queue configuration, whose sizing fields are `config`.
    CreateAddressTree { index: u64, config: AddressTreeConfig },
    /// Mint compressed tokens: `amounts[i]` to `recipients[i]`.
    MintTo { recipients: Vec<[u8; 32]>, amounts: Vec<u64> },
    /// Insert addresses into the address queue of the account-compression program.
    InsertAddresses { addresses: Vec<[u8; 32]> },
}

impl ProgramCall {
    /// This call mints `amounts[i]` to `recipients[i]`, and nothing else.
    pub open spec fn is_mint_to(self, recipients: Seq<[u8; 32]>, amounts: Seq<u64>) -> bool {
        self matches ProgramCall::MintTo { recipients: r, amounts: a } && r@ == recipients && a@
            == amounts
    }

    /// This call inserts exactly `addresses` into the address queue.
    pub open spec fn is_insert_addresses(self, addresses: Seq<[u8; 32]>) -> bool {
        self matches ProgramCall::InsertAddresses { addresses: a } && a@ == addresses
    }
}

} // verus!
