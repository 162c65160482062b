use distill::config::{Config, ConfigError};

#[test]
fn missing_variable_is_rejected() {
    match Config::load(None) {
        Err(e) => assert_eq!(e, ConfigError::Missing),
        Ok(_) => panic!("a missing key was accepted"),
    }
}

#[test]
fn empty_variable_is_rejected() {
    match Config::load(Some(String::new())) {
        Err(e) => assert_eq!(e, ConfigError::Empty),
        Ok(_) => panic!("an empty key was accepted"),
    }
}

#[test]
fn blank_variable_is_rejected() {
    for blank in [" ", "\t", " \n\r\t ", "\u{a0}\u{3000}"] {
        match Config::load(Some(blank.to_string())) {
            Err(e) => assert_eq!(e, ConfigError::Empty, "value {:?}", blank),
            Ok(_) => panic!("a blank key was accepted: {:?}", blank),
        }
    }
}

#[test]
fn key_is_kept_untouched() {
    let config = Config::load(Some("  sk-or-v1-abc \n".to_string())).expect("a key with text");
    assert_eq!(config.openrouter_api_key, "  sk-or-v1-abc \n");
    let config = Config::load(Some("k".to_string())).expect("a one-letter key");
    assert_eq!(config.openrouter_api_key, "k");
}

#[test]
fn variable_name_is_fixed() {
    assert_eq!(Config::variable(), "OPENROUTER_API_KEY");
}

#[test]
fn configuration_messages_name_the_variable() {
    assert_eq!(
        ConfigError::Missing.message(),
        "OPENROUTER_API_KEY environment variable is not set. Please set it to your OpenRouter API key."
    );
    assert_eq!(
        ConfigError::Empty.message(),
        "OPENROUTER_API_KEY environment variable is empty. Please provide a valid API key."
    );
}
