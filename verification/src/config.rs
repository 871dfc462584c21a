use vstd::prelude::*;
use std::str::FromStr;

verus! {

/// The entries of the client's configuration file, as read from its
/// `Global` section; `None` where an entry is absent.
#[derive(Clone, Debug, PartialEq, Eq)]
pub struct RawConfig {
    pub http_url: Option<String>,
    pub ws_url: Option<String>,
    pub payer_path: Option<String>,
    pub merkle_keypair: Option<String>,
    pub queue_keypair: Option<String>,
    pub admin_path: Option<String>,
    pub soda_unchained_program: Option<String>,
}

/// The client's configuration.
#[derive(Clone, Debug, PartialEq, Eq)]
pub struct ClientConfig {
    pub http_url: String,
    pub ws_url: String,
    pub payer_path: String,
    pub admin_path: String,
    pub queue_keypair: String,
    pub merkle_keypair: String,
    pub soda_unchained_program: [u8; 32],
}

/// An entry of the configuration, in the order in which it is checked.
#[derive(Clone, Copy, Debug, PartialEq, Eq, Structural)]
pub enum ConfigField {
    HttpUrl,
    WsUrl,
    PayerPath,
    MerkleKeypair,
    QueueKeypair,
    AdminPath,
    SodaUnchainedProgram,
}

/// Why a configuration was refused.
#[derive(Clone, Copy, Debug, PartialEq, Eq, Structural)]
pub enum ConfigError {
    /// The entry is absent.
    Missing(ConfigField),
    /// The entry is present but empty.
    Empty(ConfigField),
    /// The program entry is not the base-58 text of a 32-byte key.
    InvalidProgramId,
}

impl ConfigField {
    /// The key under which the entry stands in the `Global` section.
    pub fn key(&self) -> (key: &'static str)
        ensures
            *self == ConfigField::HttpUrl ==> key@ == "http_url"@,
            *self == ConfigField::WsUrl ==> key@ == "ws_url"@,
            *self == ConfigField::PayerPath ==> key@ == "payer_path"@,
            *self == ConfigField::MerkleKeypair ==> key@ == "merkle_keypair"@,
            *self == ConfigField::QueueKeypair ==> key@ == "queue_keypair"@,
            *self == ConfigField::AdminPath ==> key@ == "admin_path"@,
            *self == ConfigField::SodaUnchainedProgram ==> key@ == "soda_unchained_program"@,
    {
        match self {
            ConfigField::HttpUrl => "http_url",
            ConfigField::WsUrl => "ws_url",
            ConfigField::PayerPath => "payer_path",
            ConfigField::MerkleKeypair => "merkle_keypair",
            ConfigField::QueueKeypair => "queue_keypair",
            ConfigField::AdminPath => "admin_path",
            ConfigField::SodaUnchainedProgram => "soda_unchained_program",
        }
    }

    /// The message with which the client stops when the entry is empty.
    /// The two keypair entries report themselves under `payer_path`.
    pub fn empty_message(&self) -> (msg: &'static str)
        ensures
            *self == ConfigField::HttpUrl ==> msg@ == "http_url must not be empty"@,
            *self == ConfigField::WsUrl ==> msg@ == "ws_url must not be empty"@,
            *self == ConfigField::PayerPath ==> msg@ == "payer_path must not be empty"@,
            *self == ConfigField::MerkleKeypair ==> msg@ == "payer_path must not be empty"@,
            *self == ConfigField::QueueKeypair ==> msg@ == "payer_path must not be empty"@,
            *self == ConfigField::AdminPath ==> msg@ == "admin_path must not be empty"@,
            *self == ConfigField::SodaUnchainedProgram ==> msg@
                == "soda_unchained_program must not be empty"@,
    {
        match self {
            ConfigField::HttpUrl => "http_url must not be empty",
            ConfigField::WsUrl => "ws_url must not be empty",
            ConfigField::PayerPath => "payer_path must not be empty",
            ConfigField::MerkleKeypair => "payer_path must not be empty",
            ConfigField::QueueKeypair => "payer_path must not be empty",
            ConfigField::AdminPath => "admin_path must not be empty",
            ConfigField::SodaUnchainedProgram => "soda_unchained_program must not be empty",
        }
    }
}

/// The key that `solana_sdk::pubkey::Pubkey::from_str` parses from `text`,
/// or `None` when it refuses the text.
pub uninterp spec fn pubkey_from_text(text: Seq<char>) -> Option<Seq<u8>>;

/// Calls `solana_sdk::pubkey::Pubkey::from_str`.  Its result is named
/// `pubkey_from_text` of the text; as its source shows, a text of more than
/// 44 bytes is refused before it is decoded.
#[verifier::external_body]
fn parse_pubkey(text: &str) -> (key: Option<[u8; 32]>)
    ensures
        pubkey_from_text(text@) == match key {
            Some(k) => Some(k@),
            None => None::<Seq<u8>>,
        },
        vstd::utf8::encode_utf8(text@).len() > 44 ==> key is None,
{
    solana_sdk::pubkey::Pubkey::from_str(text).ok().map(|k| k.to_bytes())
}

/// The error that entry `field` with value `value` gives, if any.
pub open spec fn field_error(value: Option<String>, field: ConfigField) -> Option<ConfigError> {
    match value {
        None => Some(ConfigError::Missing(field)),
        Some(s) => if s@.len() == 0 {
            Some(ConfigError::Empty(field))
        } else {
            None
        },
    }
}

/// `first` if it is an error, else `second`.
pub open spec fn first_of(first: Option<ConfigError>, second: Option<ConfigError>) -> Option<ConfigError> {
    match first {
        Some(e) => Some(e),
        None => second,
    }
}

/// The first absent or empty entry of `raw`, in the order in which the
/// entries are checked.
pub open spec fn first_entry_error(raw: RawConfig) -> Option<ConfigError> {
    first_of(
        field_error(raw.http_url, ConfigField::HttpUrl),
        first_of(
            field_error(raw.ws_url, ConfigField::WsUrl),
            first_of(
                field_error(raw.payer_path, ConfigField::PayerPath),
                first_of(
                    field_error(raw.merkle_keypair, ConfigField::MerkleKeypair),
                    first_of(
                        field_error(raw.queue_keypair, ConfigField::QueueKeypair),
                        first_of(
                            field_error(raw.admin_path, ConfigField::AdminPath),
                            field_error(raw.soda_unchained_program, ConfigField::SodaUnchainedProgram),
                        ),
                    ),
                ),
            ),
        ),
    )
}

/// Every entry of `raw` is present and not empty.
pub open spec fn entries_complete(raw: RawConfig) -> bool {
    &&& raw.http_url matches Some(s) && s@.len() > 0
    &&& raw.ws_url matches Some(s) && s@.len() > 0
    &&& raw.payer_path matches Some(s) && s@.len() > 0
    &&& raw.merkle_keypair matches Some(s) && s@.len() > 0
    &&& raw.queue_keypair matches Some(s) && s@.len() > 0
    &&& raw.admin_path matches Some(s) && s@.len() > 0
    &&& raw.soda_unchained_program matches Some(s) && s@.len() > 0
}

/// An entry is refused only when it is absent or empty: an absent entry is
/// reported missing, an empty one empty, and any other value passes, for
/// every field.
pub proof fn only_absent_or_empty_entries_are_refused(value: Option<String>, field: ConfigField)
    ensures
        value is None ==> field_error(value, field) == Some(ConfigError::Missing(field)),
        value matches Some(s) ==> (s@.len() == 0 <==> field_error(value, field) == Some(
            ConfigError::Empty(field),
        )),
        value matches Some(s) ==> (s@.len() > 0 <==> field_error(value, field) is None),
{
}

/// The entries raise no error exactly when every entry is present and not
/// empty; then only the program entry's parse decides.
pub proof fn complete_entries_raise_no_entry_error(raw: RawConfig)
    ensures
        first_entry_error(raw) is None <==> entries_complete(raw),
{
}

/// The entry is present and not empty.
pub open spec fn entry_ok(value: Option<String>) -> bool {
    value matches Some(s) && s@.len() > 0
}

/// The error reported for an entry that is not present and non-empty.
pub open spec fn bad_entry_error(value: Option<String>, field: ConfigField) -> ConfigError {
    if value is None {
        ConfigError::Missing(field)
    } else {
        ConfigError::Empty(field)
    }
}

/// The entries are checked in the order http_url, ws_url, payer_path,
/// merkle_keypair, queue_keypair, admin_path, soda_unchained_program: the
/// error reported is that of the first entry that is absent (missing) or
/// empty, whatever the later entries hold.
pub proof fn entries_are_checked_in_order(raw: RawConfig)
    ensures
        !entry_ok(raw.http_url) ==> first_entry_error(raw) == Some(
            bad_entry_error(raw.http_url, ConfigField::HttpUrl),
        ),
        entry_ok(raw.http_url) && !entry_ok(raw.ws_url) ==> first_entry_error(raw) == Some(
            bad_entry_error(raw.ws_url, ConfigField::WsUrl),
        ),
        entry_ok(raw.http_url) && entry_ok(raw.ws_url) && !entry_ok(raw.payer_path)
            ==> first_entry_error(raw) == Some(bad_entry_error(raw.payer_path, ConfigField::PayerPath)),
        entry_ok(raw.http_url) && entry_ok(raw.ws_url) && entry_ok(raw.payer_path) && !entry_ok(
            raw.merkle_keypair,
        ) ==> first_entry_error(raw) == Some(
            bad_entry_error(raw.merkle_keypair, ConfigField::MerkleKeypair),
        ),
        entry_ok(raw.http_url) && entry_ok(raw.ws_url) && entry_ok(raw.payer_path) && entry_ok(
            raw.merkle_keypair,
        ) && !entry_ok(raw.queue_keypair) ==> first_entry_error(raw) == Some(
            bad_entry_error(raw.queue_keypair, ConfigField::QueueKeypair),
        ),
        entry_ok(raw.http_url) && entry_ok(raw.ws_url) && entry_ok(raw.payer_path) && entry_ok(
            raw.merkle_keypair,
        ) && entry_ok(raw.queue_keypair) && !entry_ok(raw.admin_path) ==> first_entry_error(raw)
            == Some(bad_entry_error(raw.admin_path, ConfigField::AdminPath)),
        entry_ok(raw.http_url) && entry_ok(raw.ws_url) && entry_ok(raw.payer_path) && entry_ok(
            raw.merkle_keypair,
        ) && entry_ok(raw.queue_keypair) && entry_ok(raw.admin_path) && !entry_ok(
            raw.soda_unchained_program,
        ) ==> first_entry_error(raw) == Some(
            bad_entry_error(raw.soda_unchained_program, ConfigField::SodaUnchainedProgram),
        ),
{
}

/// Checks one entry: it must be present and not empty.
fn check_entry(value: Option<String>, field: ConfigField) -> (result: Result<String, ConfigError>)
    ensures
        field_error(value, field) matches Some(e) ==> result == Err::<String, ConfigError>(e),
        field_error(value, field) is None ==> (result matches Ok(s) && value == Some(s)),
        value is None ==> result == Err::<String, ConfigError>(ConfigError::Missing(field)),
        value matches Some(s) ==> (s@.len() == 0 ==> result == Err::<String, ConfigError>(
            ConfigError::Empty(field),
        )),
        value matches Some(s) ==> (s@.len() > 0 ==> result == Ok::<String, ConfigError>(s)),
{
    match value {
        None => Err(ConfigError::Missing(field)),
        Some(s) => {
            if s.as_str().is_empty() {
                Err(ConfigError::Empty(field))
            } else {
                Ok(s)
            }
        },
    }
}

/// Builds the client's configuration from the entries of its file.
///
/// The entries are checked in the order of `ConfigField`; the first that is
/// absent or empty is reported.  When all are present, the program entry
/// must parse as a key.
pub fn load_cfg(raw: RawConfig) -> (result: Result<ClientConfig, ConfigError>)
    ensures
        entries_complete(raw) ==> {
            &&& result is Ok <==> pubkey_from_text(raw.soda_unchained_program.unwrap()@) is Some
            &&& result matches Err(e) ==> e == ConfigError::InvalidProgramId
        },
        first_entry_error(raw) matches Some(e) ==> result == Err::<ClientConfig, ConfigError>(e),
        first_entry_error(raw) is None ==> {
            &&& result is Ok <==> pubkey_from_text(raw.soda_unchained_program.unwrap()@) is Some
            &&& result matches Err(e) ==> e == ConfigError::InvalidProgramId
            &&& result matches Ok(config) ==> {
                &&& raw.http_url == Some(config.http_url)
                &&& raw.ws_url == Some(config.ws_url)
                &&& raw.payer_path == Some(config.payer_path)
                &&& raw.merkle_keypair == Some(config.merkle_keypair)
                &&& raw.queue_keypair == Some(config.queue_keypair)
                &&& raw.admin_path == Some(config.admin_path)
                &&& Some(config.soda_unchained_program@) == pubkey_from_text(
                    raw.soda_unchained_program.unwrap()@,
                )
            }
        },
{
    let http_url = check_entry(raw.http_url, ConfigField::HttpUrl)?;
    let ws_url = check_entry(raw.ws_url, ConfigField::WsUrl)?;
    let payer_path = check_entry(raw.payer_path, ConfigField::PayerPath)?;
    let merkle_keypair = check_entry(raw.merkle_keypair, ConfigField::MerkleKeypair)?;
    let queue_keypair = check_entry(raw.queue_keypair, ConfigField::QueueKeypair)?;
    let admin_path = check_entry(raw.admin_path, ConfigField::AdminPath)?;
    let program = check_entry(raw.soda_unchained_program, ConfigField::SodaUnchainedProgram)?;
    let program_key = parse_pubkey(program.as_str());
    config_with_program(http_url, ws_url, payer_path, merkle_keypair, queue_keypair, admin_path, program_key)
}

/// Completes the configuration once its entries are checked, from the key
/// parsed from the program entry (`None` when it did not parse).
pub fn config_with_program(
    http_url: String,
    ws_url: String,
    payer_path: String,
    merkle_keypair: String,
    queue_keypair: String,
    admin_path: String,
    program_key: Option<[u8; 32]>,
) -> (result: Result<ClientConfig, ConfigError>)
    ensures
        result is Ok <==> program_key is Some,
        result matches Err(e) ==> e == ConfigError::InvalidProgramId,
        result matches Ok(config) ==> {
            &&& config.http_url == http_url
            &&& config.ws_url == ws_url
            &&& config.payer_path == payer_path
            &&& config.merkle_keypair == merkle_keypair
            &&& config.queue_keypair == queue_keypair
            &&& config.admin_path == admin_path
            &&& Some(config.soda_unchained_program) == program_key
        },
{
    match program_key {
        Some(soda_unchained_program) => Ok(
            ClientConfig {
                http_url,
                ws_url,
                payer_path,
                admin_path,
                queue_keypair,
                merkle_keypair,
                soda_unchained_program,
            },
        ),
        None => Err(ConfigError::InvalidProgramId),
    }
}

} // verus!
