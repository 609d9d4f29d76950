use wordcount_notifier::config::{
    lookup, parse_channel, resolve, secret_from_toml, ConfigError, CHANNEL_KEY, DOCUMENT_KEY,
    SESSION_KEY, TOKEN_KEY,
};

const SECRETS: &str = r#"
DISCORD_TOKEN = "token-from-file"
OVERLEAF_SESSION_KEY = "session-from-file"
DISCORD_CHANNEL = "1122334455667788990"
OVERLEAF_DOC_ID = "64f0c0ffee"
"#;

#[test]
fn keys_of_the_settings() {
    assert_eq!(TOKEN_KEY, "DISCORD_TOKEN");
    assert_eq!(SESSION_KEY, "OVERLEAF_SESSION_KEY");
    assert_eq!(CHANNEL_KEY, "DISCORD_CHANNEL");
    assert_eq!(DOCUMENT_KEY, "OVERLEAF_DOC_ID");
}

#[test]
fn secret_is_read_out_of_the_file() {
    assert_eq!(secret_from_toml(SECRETS, "DISCORD_TOKEN"), Ok("token-from-file".to_string()));
    assert_eq!(
        secret_from_toml(SECRETS, "OVERLEAF_SESSION_KEY"),
        Ok("session-from-file".to_string())
    );
    assert_eq!(
        secret_from_toml(SECRETS, "DISCORD_CHANNEL"),
        Ok("1122334455667788990".to_string())
    );
    assert_eq!(secret_from_toml(SECRETS, "OVERLEAF_DOC_ID"), Ok("64f0c0ffee".to_string()));
    assert_eq!(secret_from_toml("a = \"\"", "a"), Ok(String::new()));
    assert_eq!(secret_from_toml("'a b' = 'c'", "a b"), Ok("c".to_string()));
}

#[test]
fn missing_key_is_an_error() {
    assert_eq!(secret_from_toml(SECRETS, "OTHER"), Err(ConfigError::MissingKey));
    assert_eq!(secret_from_toml(SECRETS, "discord_token"), Err(ConfigError::MissingKey));
    assert_eq!(secret_from_toml(SECRETS, ""), Err(ConfigError::MissingKey));
    assert_eq!(secret_from_toml("", "DISCORD_TOKEN"), Err(ConfigError::MissingKey));
    assert_eq!(secret_from_toml("# nothing here\n", "DISCORD_TOKEN"), Err(ConfigError::MissingKey));
}

#[test]
fn file_that_is_no_table_of_strings_is_an_error() {
    assert_eq!(
        secret_from_toml("DISCORD_TOKEN = ", "DISCORD_TOKEN"),
        Err(ConfigError::MalformedSecrets)
    );
    assert_eq!(
        secret_from_toml("not toml at all", "DISCORD_TOKEN"),
        Err(ConfigError::MalformedSecrets)
    );
    assert_eq!(
        secret_from_toml("DISCORD_TOKEN = \"a\"\nDISCORD_CHANNEL = 12", "DISCORD_TOKEN"),
        Err(ConfigError::MalformedSecrets)
    );
    assert_eq!(
        secret_from_toml("DISCORD_TOKEN = \"a\"\n[table]\nx = \"y\"", "DISCORD_TOKEN"),
        Err(ConfigError::MalformedSecrets)
    );
    assert_eq!(
        secret_from_toml("a = \"1\"\na = \"2\"", "a"),
        Err(ConfigError::MalformedSecrets)
    );
}

#[test]
fn lookup_finds_the_first_entry() {
    let entries = vec![
        ("a".to_string(), "1".to_string()),
        ("b".to_string(), "2".to_string()),
        ("a".to_string(), "3".to_string()),
    ];
    assert_eq!(lookup(&entries, "a"), Some("1".to_string()));
    assert_eq!(lookup(&entries, "b"), Some("2".to_string()));
    assert_eq!(lookup(&entries, "c"), None);
    assert_eq!(lookup(&entries, ""), None);
    assert_eq!(lookup(&Vec::new(), "a"), None);
}

#[test]
fn environment_comes_first() {
    assert_eq!(
        resolve(Some("from-env".to_string()), Some(SECRETS), "DISCORD_TOKEN"),
        Ok("from-env".to_string())
    );
    assert_eq!(
        resolve(Some("from-env".to_string()), None, "DISCORD_TOKEN"),
        Ok("from-env".to_string())
    );
    assert_eq!(
        resolve(Some("from-env".to_string()), Some("not toml at all"), "DISCORD_TOKEN"),
        Ok("from-env".to_string())
    );
    assert_eq!(resolve(Some(String::new()), Some(SECRETS), "DISCORD_TOKEN"), Ok(String::new()));
}

#[test]
fn secrets_file_is_the_fallback() {
    assert_eq!(resolve(None, Some(SECRETS), "DISCORD_TOKEN"), Ok("token-from-file".to_string()));
    assert_eq!(resolve(None, Some(SECRETS), "OTHER"), Err(ConfigError::MissingKey));
    assert_eq!(
        resolve(None, Some("not toml at all"), "DISCORD_TOKEN"),
        Err(ConfigError::MalformedSecrets)
    );
    assert_eq!(resolve(None, None, "DISCORD_TOKEN"), Err(ConfigError::NoSecrets));
}

#[test]
fn channel_is_a_number() {
    assert_eq!(parse_channel("1122334455667788990"), Ok(1_122_334_455_667_788_990));
    assert_eq!(parse_channel("0"), Ok(0));
    assert_eq!(parse_channel("+12"), Ok(12));
    assert_eq!(parse_channel("18446744073709551615"), Ok(u64::MAX));
}

#[test]
fn channel_that_is_no_number_is_an_error() {
    assert_eq!(parse_channel(""), Err(ConfigError::InvalidChannel));
    assert_eq!(parse_channel("general"), Err(ConfigError::InvalidChannel));
    assert_eq!(parse_channel("-12"), Err(ConfigError::InvalidChannel));
    assert_eq!(parse_channel("12 "), Err(ConfigError::InvalidChannel));
    assert_eq!(parse_channel("18446744073709551616"), Err(ConfigError::InvalidChannel));
}

#[test]
fn channel_out_of_the_secrets_file() {
    let text = resolve(None, Some(SECRETS), CHANNEL_KEY).unwrap();
    assert_eq!(parse_channel(&text), Ok(1_122_334_455_667_788_990));
}
