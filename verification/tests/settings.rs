use devil_bot::config::{
    get_env_var, increment_buns, ConfigError, CounterIncrement, BUNS_TABLE_NAME,
    DEVIL_BOT_TEST_CHANNEL_URL,
};

#[test]
fn setting_names() {
    assert_eq!(BUNS_TABLE_NAME, "BUNS_TABLE_NAME");
    assert_eq!(DEVIL_BOT_TEST_CHANNEL_URL, "DEVIL_BOT_TEST_CHANNEL_URL");
}

#[test]
fn present_setting_is_returned() {
    assert_eq!(get_env_var("ANY", Some("value".to_string())), Ok("value".to_string()));
    assert_eq!(get_env_var("ANY", Some(String::new())), Ok(String::new()));
}

#[test]
fn missing_setting_is_named() {
    assert_eq!(
        get_env_var("BUNS_TABLE_NAME", None),
        Err(ConfigError::MissingConfiguration { name: "BUNS_TABLE_NAME".to_string() })
    );
}

#[test]
fn increment_names_table_key_and_field() {
    assert_eq!(
        increment_buns("E42", Some("buns-table".to_string())),
        Ok(CounterIncrement {
            table: "buns-table".to_string(),
            key_name: "user_id".to_string(),
            key_value: "E42".to_string(),
            field_name: "buns".to_string(),
        })
    );
}

#[test]
fn increment_without_table_is_a_configuration_error() {
    assert_eq!(
        increment_buns("E42", None),
        Err(ConfigError::MissingConfiguration { name: "BUNS_TABLE_NAME".to_string() })
    );
}
