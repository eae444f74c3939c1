use finance_bot::bootstrap::{bootstrap, start, StartupError};
use finance_bot::config::{count_matches, lookup, setting_value, BotConfig, ConfigError, Setting};

fn vars(pairs: &[(&str, &str)]) -> Vec<(String, String)> {
    pairs.iter().map(|(k, v)| (k.to_string(), v.to_string())).collect()
}

const DATABASE_ID: &str = "11111111-1111-1111-1111-111111111111";

fn full_env() -> Vec<(String, String)> {
    vars(&[
        ("BOT_TOKEN", "abc"),
        ("API_TOKEN", "xyz"),
        ("COLLECTION_ID", DATABASE_ID),
    ])
}

#[test]
fn config_holds_exactly_the_three_values() {
    let config = BotConfig::from_vars(&full_env()).unwrap();
    assert_eq!(config.bot_token, "abc");
    assert_eq!(config.api_token, "xyz");
    assert_eq!(config.collection_id, DATABASE_ID);
}

#[test]
fn config_ignores_other_variables_and_order() {
    let env = vars(&[
        ("PATH", "/usr/bin"),
        ("COLLECTION_ID", "db"),
        ("HOME", "/root"),
        ("API_TOKEN", "api"),
        ("BOT_TOKEN", "bot"),
    ]);
    let config = BotConfig::from_vars(&env).unwrap();
    assert_eq!(config.bot_token, "bot");
    assert_eq!(config.api_token, "api");
    assert_eq!(config.collection_id, "db");
}

#[test]
fn config_names_match_without_ascii_case() {
    let env = vars(&[
        ("bot_token", "a"),
        ("Api_Token", "b"),
        ("collection_ID", "c"),
    ]);
    let config = BotConfig::from_vars(&env).unwrap();
    assert_eq!(config.bot_token, "a");
    assert_eq!(config.api_token, "b");
    assert_eq!(config.collection_id, "c");
}

#[test]
fn config_missing_each_setting_fails() {
    let names = ["BOT_TOKEN", "API_TOKEN", "COLLECTION_ID"];
    let settings = [Setting::BotToken, Setting::ApiToken, Setting::CollectionId];
    for (name, setting) in names.iter().zip(settings.iter()) {
        let env: Vec<(String, String)> = full_env().into_iter().filter(|(k, _)| k != name).collect();
        assert_eq!(BotConfig::from_vars(&env).unwrap_err(), ConfigError::Missing(*setting));
    }
}

#[test]
fn config_reports_the_first_missing_setting() {
    assert_eq!(BotConfig::from_vars(&Vec::new()).unwrap_err(), ConfigError::Missing(Setting::BotToken));
    let env = vars(&[("BOT_TOKEN", "abc")]);
    assert_eq!(BotConfig::from_vars(&env).unwrap_err(), ConfigError::Missing(Setting::ApiToken));
}

#[test]
fn config_empty_value_counts_as_present() {
    let env = vars(&[("BOT_TOKEN", ""), ("API_TOKEN", ""), ("COLLECTION_ID", "")]);
    let config = BotConfig::from_vars(&env).unwrap();
    assert_eq!(config.bot_token, "");
}

#[test]
fn lookup_takes_the_first_match() {
    let env = vars(&[("KEY", "one"), ("key", "two"), ("OTHER", "three")]);
    assert_eq!(lookup(&env, "KEY"), Some("one".to_string()));
    assert_eq!(lookup(&env, "other"), Some("three".to_string()));
    assert_eq!(lookup(&env, "KEYS"), None);
    assert_eq!(lookup(&env, "KE"), None);
}

#[test]
fn setting_variable_names() {
    assert_eq!(Setting::BotToken.var_name(), "BOT_TOKEN");
    assert_eq!(Setting::ApiToken.var_name(), "API_TOKEN");
    assert_eq!(Setting::CollectionId.var_name(), "COLLECTION_ID");
}

#[test]
fn start_with_full_environment_is_ready_to_fetch() {
    let startup = start(&full_env()).ok().unwrap();
    assert_eq!(startup.config.bot_token, "abc");
    assert_eq!(startup.config.api_token, "xyz");
    assert_eq!(startup.config.collection_id, DATABASE_ID);
}

#[test]
fn start_without_api_token_stops_at_the_settings() {
    let env = vars(&[("BOT_TOKEN", "abc"), ("COLLECTION_ID", DATABASE_ID)]);
    match start(&env) {
        Err(e) => assert_eq!(e, StartupError::Config(ConfigError::Missing(Setting::ApiToken))),
        Ok(_) => panic!("startup went on without an API token"),
    }
}

#[test]
fn any_collection_id_text_is_accepted() {
    let env = vars(&[("BOT_TOKEN", "abc"), ("API_TOKEN", "xyz"), ("COLLECTION_ID", "not an id")]);
    let startup = start(&env).ok().unwrap();
    assert_eq!(startup.config.collection_id, "not an id");
}

#[test]
fn token_with_a_newline_is_refused() {
    let config = BotConfig {
        bot_token: "abc".to_string(),
        api_token: "x\ny".to_string(),
        collection_id: DATABASE_ID.to_string(),
    };
    assert_eq!(bootstrap(config).err(), Some(StartupError::InvalidApiToken));
}

#[test]
fn token_with_delete_character_is_refused() {
    let env = vars(&[("BOT_TOKEN", "abc"), ("API_TOKEN", "x\u{7f}"), ("COLLECTION_ID", DATABASE_ID)]);
    assert_eq!(start(&env).err(), Some(StartupError::InvalidApiToken));
}

#[test]
fn token_with_tab_and_non_ascii_is_accepted() {
    let config = BotConfig {
        bot_token: "abc".to_string(),
        api_token: "x\ty\u{e9}".to_string(),
        collection_id: DATABASE_ID.to_string(),
    };
    let startup = bootstrap(config).ok().unwrap();
    assert_eq!(startup.config.api_token, "x\ty\u{e9}");
}

#[test]
fn longer_variable_names_do_not_count() {
    let env = vars(&[
        ("TELEGRAM_BOT_TOKEN", "abc"),
        ("NOTION_API_TOKEN", "xyz"),
        ("FINANCE_COLLECTION_ID", DATABASE_ID),
    ]);
    assert_eq!(BotConfig::from_vars(&env).unwrap_err(), ConfigError::Missing(Setting::BotToken));
}

#[test]
fn config_repeated_setting_fails() {
    let mut env = full_env();
    env.push(("bot_token".to_string(), "other".to_string()));
    assert_eq!(BotConfig::from_vars(&env).unwrap_err(), ConfigError::Repeated(Setting::BotToken));
    let mut env = full_env();
    env.push(("COLLECTION_ID".to_string(), DATABASE_ID.to_string()));
    assert_eq!(BotConfig::from_vars(&env).unwrap_err(), ConfigError::Repeated(Setting::CollectionId));
}

#[test]
fn start_with_repeated_setting_stops_at_the_settings() {
    let mut env = full_env();
    env.push(("Api_Token".to_string(), "xyz".to_string()));
    assert_eq!(start(&env).err(), Some(StartupError::Config(ConfigError::Repeated(Setting::ApiToken))));
}

#[test]
fn count_and_value_of_a_setting() {
    let env = vars(&[("KEY", "one"), ("key", "two"), ("OTHER", "three"), ("API_TOKEN", "t")]);
    assert_eq!(count_matches(&env, "Key"), 2);
    assert_eq!(count_matches(&env, "other"), 1);
    assert_eq!(count_matches(&env, "none"), 0);
    assert_eq!(setting_value(&env, Setting::ApiToken), Ok("t".to_string()));
    assert_eq!(setting_value(&env, Setting::BotToken), Err(ConfigError::Missing(Setting::BotToken)));
}
