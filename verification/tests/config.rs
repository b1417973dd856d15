use ddns_updater::config::{Config, ConfigError, Variable};

fn some(text: &str) -> Option<String> {
    Some(text.to_string())
}

#[test]
fn all_four_settings_give_a_configuration() {
    let config = Config::from_lookups(some("tok"), some("zone"), some("rec"), some("name"))
        .expect("nothing is missing");
    assert_eq!(config.api_token, "tok");
    assert_eq!(config.zone_id, "zone");
    assert_eq!(config.record_id, "rec");
    assert_eq!(config.record_name, "name");
}

#[test]
fn empty_values_count_as_present() {
    let config = Config::from_lookups(some(""), some(""), some(""), some("")).unwrap();
    assert_eq!(config.api_token, "");
    assert_eq!(config.record_name, "");
}

#[test]
fn missing_api_token_is_fatal() {
    let loaded = Config::from_lookups(None, some("zone"), some("rec"), some("name"));
    assert_eq!(loaded.unwrap_err(), ConfigError::Missing(Variable::ApiToken));
}

#[test]
fn missing_zone_id_is_fatal() {
    let loaded = Config::from_lookups(some("tok"), None, some("rec"), some("name"));
    assert_eq!(loaded.unwrap_err(), ConfigError::Missing(Variable::ZoneId));
}

#[test]
fn missing_record_id_is_fatal() {
    let loaded = Config::from_lookups(some("tok"), some("zone"), None, some("name"));
    assert_eq!(loaded.unwrap_err(), ConfigError::Missing(Variable::RecordId));
}

#[test]
fn missing_record_name_is_fatal() {
    let loaded = Config::from_lookups(some("tok"), some("zone"), some("rec"), None);
    assert_eq!(loaded.unwrap_err(), ConfigError::Missing(Variable::RecordName));
}

#[test]
fn any_missing_setting_prevents_a_configuration() {
    for mask in 0u8..15 {
        let pick = |bit: u8| if mask & (1 << bit) != 0 { some("x") } else { None };
        assert!(Config::from_lookups(pick(0), pick(1), pick(2), pick(3)).is_err());
    }
}

#[test]
fn first_missing_setting_is_reported_zone_record_token_name() {
    let loaded = Config::from_lookups(None, None, None, None);
    assert_eq!(loaded.unwrap_err(), ConfigError::Missing(Variable::ZoneId));
    let loaded = Config::from_lookups(None, some("zone"), None, None);
    assert_eq!(loaded.unwrap_err(), ConfigError::Missing(Variable::RecordId));
    let loaded = Config::from_lookups(None, some("zone"), some("rec"), None);
    assert_eq!(loaded.unwrap_err(), ConfigError::Missing(Variable::ApiToken));
}

#[test]
fn variables_have_their_environment_names() {
    assert_eq!(Variable::ApiToken.name(), "CLOUDFLARE_API_TOKEN");
    assert_eq!(Variable::ZoneId.name(), "CLOUDFLARE_ZONE_ID");
    assert_eq!(Variable::RecordId.name(), "CLOUDFLARE_RECORD_ID");
    assert_eq!(Variable::RecordName.name(), "DNS_RECORD_NAME");
}

#[test]
fn error_message_names_the_variable() {
    assert_eq!(
        ConfigError::Missing(Variable::RecordName).message(),
        "environment variable not found: DNS_RECORD_NAME"
    );
    assert_eq!(
        ConfigError::Missing(Variable::ApiToken).message(),
        "environment variable not found: CLOUDFLARE_API_TOKEN"
    );
}
