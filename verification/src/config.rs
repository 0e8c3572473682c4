//! The configuration kept inside a mount point: a TOML document whose
//! `remote` entry names what to mount there.

use vstd::prelude::*;

verus! {

/// The name of the configuration file inside the mount point.
pub const CONF_FILE_NAME: &'static str = "switsshfs.toml";

/// The entry of the document that names the remote location.
pub const REMOTE_KEY: &'static str = "remote";

/// What a mount point's configuration says.
#[derive(Debug, PartialEq, Eq)]
pub struct Config {
    /// The remote location, as sshfs takes it: `user@host:path`.
    pub remote: String,
}

/// Why a configuration text yields no [`Config`].
#[derive(Debug, PartialEq, Eq)]
pub enum ConfigError {
    /// The text is not a TOML document; `message` is what the parser says of
    /// it.
    Malformed { message: String },
    /// The document has no entry `remote` that is a string.
    MissingRemote,
}

/// A configuration error as plain values.
pub enum ConfigErrorView {
    Malformed { message: Seq<char> },
    MissingRemote,
}

impl View for ConfigError {
    type V = ConfigErrorView;

    open spec fn view(&self) -> ConfigErrorView {
        match self {
            ConfigError::Malformed { message } => ConfigErrorView::Malformed { message: message@ },
            ConfigError::MissingRemote => ConfigErrorView::MissingRemote,
        }
    }
}

/// `toml::map::Map`, the crate's table of keys and values. Nothing of its
/// inside is known here; [`table_strings`] names what is read from it.
#[verifier::external_type_specification]
#[verifier::external_body]
#[verifier::reject_recursive_types(K)]
#[verifier::reject_recursive_types(V)]
pub struct ExTomlMap<K, V>(toml::map::Map<K, V>);

/// `toml::Value`, one value of a TOML document, carried through unread.
#[verifier::external_type_specification]
#[verifier::external_body]
pub struct ExTomlValue(toml::Value);

/// The entries of `table` whose value is a string, each key with that string.
pub uninterp spec fn table_strings(table: toml::map::Map<String, toml::Value>) -> Map<
    Seq<char>,
    Seq<char>,
>;

/// What `toml::from_str` makes of `text`, read as a table: the top-level
/// entries whose value is a string, or, where the parser rejects the text,
/// the text of its error.
pub uninterp spec fn document_strings(text: Seq<char>) -> Result<
    Map<Seq<char>, Seq<char>>,
    Seq<char>,
>;

/// Calls `toml::from_str` for a `toml::Table`. Believed, not proved: the
/// parser's answer depends on `text` alone, so it is [`document_strings`] of
/// it, the table by its string entries and the parser's error by its text.
#[verifier::external_body]
fn parse_document(text: &str) -> (r: Result<toml::map::Map<String, toml::Value>, String>)
    ensures
        match r {
            Ok(table) => document_strings(text@) == Ok::<Map<Seq<char>, Seq<char>>, Seq<char>>(
                table_strings(table),
            ),
            Err(message) => document_strings(text@) == Err::<Map<Seq<char>, Seq<char>>, Seq<char>>(
                message@,
            ),
        },
{
    match toml::from_str::<toml::Table>(text) {
        Ok(table) => Ok(table),
        Err(error) => Err(error.to_string()),
    }
}

/// Calls `toml::map::Map::get`. Believed, not proved: a copy of the string
/// under `key` if the table holds `key` with a string for its value, and
/// `None` if it holds no such key or another kind of value there.
#[verifier::external_body]
fn string_at(table: &toml::map::Map<String, toml::Value>, key: &str) -> (r: Option<String>)
    ensures
        match r {
            Some(found) => table_strings(*table).contains_key(key@) && table_strings(*table)[key@]
                == found@,
            None => !table_strings(*table).contains_key(key@),
        },
{
    match table.get(key) {
        Some(toml::Value::String(found)) => Some(found.clone()),
        _ => None,
    }
}

/// The remote that a parsed document names, or why it names none.
pub open spec fn remote_of(document: Result<Map<Seq<char>, Seq<char>>, Seq<char>>) -> Result<
    Seq<char>,
    ConfigErrorView,
> {
    match document {
        Err(message) => Err(ConfigErrorView::Malformed { message }),
        Ok(strings) => if strings.contains_key(REMOTE_KEY@) {
            Ok(strings[REMOTE_KEY@])
        } else {
            Err(ConfigErrorView::MissingRemote)
        },
    }
}

impl View for Config {
    type V = Seq<char>;

    /// A configuration as plain text: its remote.
    open spec fn view(&self) -> Seq<char> {
        self.remote@
    }
}

/// The outcome of reading a configuration, as plain values.
pub open spec fn outcome_view(outcome: Result<Config, ConfigError>) -> Result<
    Seq<char>,
    ConfigErrorView,
> {
    match outcome {
        Ok(config) => Ok(config@),
        Err(error) => Err(error@),
    }
}

/// Makes the configuration from what the lookup of `remote` found.
pub fn config_from_lookup(found: Option<String>) -> (r: Result<Config, ConfigError>)
    ensures
        outcome_view(r) == (match found {
            Some(remote) => Ok::<Seq<char>, ConfigErrorView>(remote@),
            None => Err::<Seq<char>, ConfigErrorView>(ConfigErrorView::MissingRemote),
        }),
{
    match found {
        Some(remote) => Ok(Config { remote }),
        None => Err(ConfigError::MissingRemote),
    }
}

/// Reads the configuration from the text of the configuration file. The
/// whole document is parsed, so a fault in an entry that the configuration
/// does not use makes the text malformed too.
pub fn parse_config(text: &str) -> (r: Result<Config, ConfigError>)
    ensures
        outcome_view(r) == remote_of(document_strings(text@)),
{
    match parse_document(text) {
        Err(message) => Err(ConfigError::Malformed { message }),
        Ok(table) => config_from_lookup(string_at(&table, REMOTE_KEY)),
    }
}

} // verus!
