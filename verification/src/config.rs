//! The settings that are resolved at start-up: each comes from the
//! environment or, failing that, from the secrets file.

use crate::text::{parse_u64, parsed_u64};
use std::collections::HashMap;
use vstd::prelude::*;
use vstd::string::StringExecFns;

verus! {

/// The key of the chat platform's token.
pub const TOKEN_KEY: &'static str = "DISCORD_TOKEN";

/// The key of the document service's session key.
pub const SESSION_KEY: &'static str = "OVERLEAF_SESSION_KEY";

/// The key of the channel's identifier.
pub const CHANNEL_KEY: &'static str = "DISCORD_CHANNEL";

/// The key of the document's identifier.
pub const DOCUMENT_KEY: &'static str = "OVERLEAF_DOC_ID";

/// Why a setting could not be resolved.
#[derive(Clone, Copy, Debug, PartialEq, Eq, Structural)]
pub enum ConfigError {
    /// The setting is not in the environment, and there is no secrets file.
    NoSecrets,
    /// The secrets file is not a TOML table of strings.
    MalformedSecrets,
    /// The secrets file does not hold the key.
    MissingKey,
    /// The channel's identifier is not a number that fits in 64 bits.
    InvalidChannel,
}

/// `toml::de::Error`, the error of `toml::from_str`. Nothing is known of
/// what it holds.
#[verifier::external_type_specification]
#[verifier::external_body]
pub struct ExTomlError(toml::de::Error);

/// The table that `toml` reads out of `contents` as a map from strings to
/// strings, if `contents` is a TOML document all of whose values are
/// strings.
pub uninterp spec fn toml_strings(contents: Seq<char>) -> Option<Map<Seq<char>, Seq<char>>>;

/// The value of the first of `entries` whose key is `key`, if there is one.
pub open spec fn value_of(entries: Seq<(String, String)>, key: Seq<char>) -> Option<Seq<char>>
    decreases entries.len(),
{
    if entries.len() == 0 {
        None
    } else if entries.first().0@ == key {
        Some(entries.first().1@)
    } else {
        value_of(entries.drop_first(), key)
    }
}

/// `entries` as a map from keys to values. Of two entries with one key the
/// first would count; what is read out of a table holds each key once.
pub open spec fn table_of(entries: Seq<(String, String)>) -> Map<Seq<char>, Seq<char>> {
    Map::new(
        |key: Seq<char>| value_of(entries, key) is Some,
        |key: Seq<char>| value_of(entries, key).unwrap(),
    )
}

/// `toml::from_str` to a `HashMap<String, String>`, whose entries are handed
/// out in the order in which the map is walked. Trusted: the entries make up
/// `toml_strings` of `contents`, and there is an error where that is nothing.
/// Of the order of the entries nothing is known.
#[verifier::external_body]
fn string_entries(contents: &str) -> (parsed: Result<Vec<(String, String)>, toml::de::Error>)
    ensures
        match parsed {
            Ok(entries) => toml_strings(contents@) == Some(table_of(entries@)),
            Err(_) => toml_strings(contents@) is None,
        },
{
    let table: HashMap<String, String> = toml::from_str(contents)?;
    Ok(table.into_iter().collect())
}

/// The value of the first of `entries` whose key is `key`, if there is one.
pub fn lookup(entries: &Vec<(String, String)>, key: &str) -> (value: Option<String>)
    ensures
        value is Some <==> value_of(entries@, key@) is Some,
        value matches Some(found) ==> value_of(entries@, key@) == Some(found@),
{
    let wanted = String::from_str(key);
    let mut index: usize = 0;
    assert(entries@.subrange(0, entries@.len() as int) =~= entries@);
    while index < entries.len()
        invariant
            index <= entries.len(),
            wanted@ == key@,
            value_of(entries@, key@) == value_of(
                entries@.subrange(index as int, entries@.len() as int),
                key@,
            ),
        decreases entries.len() - index,
    {
        let ghost rest = entries@.subrange(index as int, entries@.len() as int);
        assert(rest.first() == entries@[index as int]);
        assert(rest.drop_first() =~= entries@.subrange(index + 1, entries@.len() as int));
        if entries[index].0 == wanted {
            return Some(entries[index].1.clone());
        }
        index += 1;
    }
    None
}

/// The secret under `key` in a secrets file with the contents `contents`.
pub open spec fn secret_in(contents: Seq<char>, key: Seq<char>) -> Result<Seq<char>, ConfigError> {
    match toml_strings(contents) {
        None => Err(ConfigError::MalformedSecrets),
        Some(table) => if table.contains_key(key) {
            Ok(table[key])
        } else {
            Err(ConfigError::MissingKey)
        },
    }
}

/// `text` as plain characters, where there is one.
pub open spec fn plain(text: Result<String, ConfigError>) -> Result<Seq<char>, ConfigError> {
    match text {
        Ok(text) => Ok(text@),
        Err(error) => Err(error),
    }
}

/// The secret under `key` in a secrets file with the contents `contents`:
/// an error where the contents are no TOML table of strings, and where the
/// table does not hold the key.
pub fn secret_from_toml(contents: &str, key: &str) -> (secret: Result<String, ConfigError>)
    ensures
        plain(secret) == secret_in(contents@, key@),
{
    match string_entries(contents) {
        Ok(entries) => match lookup(&entries, key) {
            Some(value) => Ok(value),
            None => Err(ConfigError::MissingKey),
        },
        Err(_) => Err(ConfigError::MalformedSecrets),
    }
}

/// What a setting resolves to: what the environment holds for it, if
/// anything; else what the secrets file holds under its key.
pub open spec fn resolved(from_environment: Option<String>, secrets: Option<&str>, key: Seq<char>)
    -> Result<Seq<char>, ConfigError> {
    match from_environment {
        Some(value) => Ok(value@),
        None => match secrets {
            Some(contents) => secret_in(contents@, key),
            None => Err(ConfigError::NoSecrets),
        },
    }
}

/// Resolves the setting with the key `key`: `from_environment` is what the
/// environment holds for it, `secrets` the contents of the secrets file, if
/// there is one. The environment comes first; the secrets file is looked at
/// only where the environment holds nothing.
pub fn resolve(from_environment: Option<String>, secrets: Option<&str>, key: &str) -> (value:
    Result<String, ConfigError>)
    ensures
        plain(value) == resolved(from_environment, secrets, key@),
{
    match from_environment {
        Some(value) => Ok(value),
        None => match secrets {
            Some(contents) => secret_from_toml(contents, key),
            None => Err(ConfigError::NoSecrets),
        },
    }
}

/// The channel that `text` names: the number that it writes in base ten.
pub fn parse_channel(text: &str) -> (channel: Result<u64, ConfigError>)
    ensures
        channel == match parsed_u64(text@) {
            Some(number) => Ok::<u64, ConfigError>(number),
            None => Err::<u64, ConfigError>(ConfigError::InvalidChannel),
        },
{
    match parse_u64(text) {
        Some(number) => Ok(number),
        None => Err(ConfigError::InvalidChannel),
    }
}

} // verus!
