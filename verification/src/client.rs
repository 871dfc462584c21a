use vstd::prelude::*;
use vstd::string::StringExecFns;
use solana_sdk::pubkey::Pubkey;
use solana_sdk::signer::Signer;

verus! {

/// The text that `solana_sdk::signature::Signature` displays for a
/// signature of the given bytes (its base-58 encoding).
pub uninterp spec fn signature_text(signature: Seq<u8>) -> Seq<char>;

/// Displays a signature with the `Display` impl of
/// `solana_sdk::signature::Signature`.  Its result is named `signature_text`
/// of the signature's bytes.
#[verifier::external_body]
fn signature_to_string(signature: &[u8; 64]) -> (text: String)
    ensures
        text@ == signature_text(signature@),
{
    format!("{}", solana_sdk::signature::Signature::from(*signature))
}

/// The text that precedes the signature in a transaction link.
pub open spec fn link_prefix() -> Seq<char> {
    "Signature: \nhttps://solscan.io/tx/"@
}

/// The text that follows the signature in a transaction link.
pub open spec fn link_suffix() -> Seq<char> {
    "?cluster=custom&customUrl=https://devnet.helius-rpc.com/?api-key=16ef3f61-7567-47d9-9c44-edec13422455"@
}

/// The link message for a signature whose text is `text`.
pub fn link_message(text: &str) -> (message: String)
    ensures
        message@ == link_prefix() + text@ + link_suffix(),
{
    let mut message = "Signature: \nhttps://solscan.io/tx/".to_owned();
    message.append(text);
    message.append(
        "?cluster=custom&customUrl=https://devnet.helius-rpc.com/?api-key=16ef3f61-7567-47d9-9c44-edec13422455",
    );
    message
}

/// The message that the client logs after it sends a transaction: a link
/// to the transaction of the given signature on the explorer.
pub fn transaction_link(signature: [u8; 64]) -> (message: String)
    ensures
        message@ == link_prefix() + signature_text(signature@) + link_suffix(),
{
    let text = signature_to_string(&signature);
    link_message(text.as_str())
}

/// The terminal escape sequence that clears the screen and moves the cursor
/// to the top left corner.
pub fn clear() -> (sequence: String)
    ensures
        sequence@ == "\u{1b}[2J\u{1b}[1;1H"@,
{
    "\u{1b}[2J\u{1b}[1;1H".to_owned()
}

/// An account that an instruction reads or writes, with its roles.
#[derive(Clone, Copy, Debug, PartialEq, Eq)]
pub struct AccountMeta {
    pub pubkey: [u8; 32],
    pub is_signer: bool,
    pub is_writable: bool,
}

/// An instruction: the program it calls, the accounts it passes, and its data.
#[derive(Clone, Debug, PartialEq, Eq)]
pub struct Instruction {
    pub program_id: [u8; 32],
    pub accounts: Vec<AccountMeta>,
    pub data: Vec<u8>,
}

/// The system program's id, `11111111111111111111111111111111`: 32 zero bytes.
pub open spec fn system_program_id() -> Seq<u8> {
    Seq::new(32, |i: int| 0u8)
}

/// The eight little-endian bytes of `value`.
pub open spec fn le_bytes(value: u64) -> Seq<u8> {
    Seq::new(8, |i: int| ((value as int / vstd::arithmetic::power::pow(256, i as nat)) % 256) as u8)
}

/// The data of the system program's `CreateAccount` instruction: the
/// variant index 0 as four little-endian bytes, the lamports, the space,
/// and the owner's key.
pub open spec fn create_account_data(lamports: u64, space: u64, owner: Seq<u8>) -> Seq<u8> {
    seq![0u8, 0u8, 0u8, 0u8] + le_bytes(lamports) + le_bytes(space) + owner
}

/// Calls `solana_sdk::system_instruction::create_account` and converts the
/// instruction to plain values.  As the source shows, the instruction calls
/// the system program with the funding and the new account, both as writable
/// signers, and its data is the bincode encoding of
/// `SystemInstruction::CreateAccount { lamports, space, owner }`.
#[verifier::external_body]
fn system_create_account(
    from: &[u8; 32],
    to: &[u8; 32],
    lamports: u64,
    space: u64,
    owner: &[u8; 32],
) -> (instruction: Instruction)
    ensures
        instruction.program_id@ == system_program_id(),
        instruction.accounts@ == seq![
            AccountMeta { pubkey: *from, is_signer: true, is_writable: true },
            AccountMeta { pubkey: *to, is_signer: true, is_writable: true },
        ],
        instruction.data@ == create_account_data(lamports, space, owner@),
{
    let ix = solana_sdk::system_instruction::create_account(
        &Pubkey::new_from_array(*from),
        &Pubkey::new_from_array(*to),
        lamports,
        space,
        &Pubkey::new_from_array(*owner),
    );
    let accounts = ix.accounts.iter().map(|m| AccountMeta { pubkey: m.pubkey.to_bytes(), is_signer: m.is_signer, is_writable: m.is_writable }).collect();
    Instruction { program_id: ix.program_id.to_bytes(), accounts, data: ix.data }
}

/// The public key of a freshly generated `solana_sdk::signature::Keypair`.
/// Nothing is stated of it: it is random.
#[verifier::external_body]
fn new_keypair_pubkey() -> (key: [u8; 32]) {
    solana_sdk::signature::Keypair::new().pubkey().to_bytes()
}

/// An instruction that creates an account of `size` bytes owned by program
/// `id`, funded by `payer` with `rent` lamports.  The new account is the one
/// of `keypair`, given by its public key, or of a freshly generated keypair
/// when none is given.
pub fn create_account_instruction(
    payer: [u8; 32],
    size: usize,
    rent: u64,
    id: [u8; 32],
    keypair: Option<[u8; 32]>,
) -> (instruction: Instruction)
    ensures
        instruction.program_id@ == system_program_id(),
        instruction.accounts@.len() == 2,
        instruction.accounts@[0] == (AccountMeta { pubkey: payer, is_signer: true, is_writable: true }),
        instruction.accounts@[1].is_signer && instruction.accounts@[1].is_writable,
        keypair matches Some(key) ==> instruction.accounts@[1].pubkey == key,
        instruction.data@ == create_account_data(rent, size as u64, id@),
{
    let new_account = match keypair {
        Some(key) => key,
        None => new_keypair_pubkey(),
    };
    system_create_account(&payer, &new_account, rent, size as u64, &id)
}

} // verus!
