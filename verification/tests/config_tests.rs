use ferris::wifi_handshake::config::{AutoApConfig, ConfigError};

#[test]
fn defaults_are_five_minutes_and_twenty_seconds() {
    let config = AutoApConfig::default();
    assert_eq!(config, AutoApConfig { enable_wait: 300, disconnect_wait: 20, debug: false });
}

#[test]
fn a_device_without_file_has_the_defaults() {
    assert_eq!(AutoApConfig::load(None), Ok(AutoApConfig::default()));
}

#[test]
fn reads_the_three_settings() {
    let text = "# comment\n\nenablewait=2\n disconnectwait = 7 \ndebug=0\n";
    assert_eq!(
        AutoApConfig::parse_bash_config(text),
        Ok(AutoApConfig { enable_wait: 2, disconnect_wait: 7, debug: true })
    );
    assert_eq!(AutoApConfig::load(Some(text)), AutoApConfig::parse_bash_config(text));
}

#[test]
fn debug_is_on_only_at_zero() {
    assert_eq!(AutoApConfig::parse_bash_config("debug=1").unwrap().debug, false);
    assert_eq!(AutoApConfig::parse_bash_config("debug=0").unwrap().debug, true);
    assert_eq!(AutoApConfig::parse_bash_config("debug=0\ndebug=5").unwrap().debug, false);
}

#[test]
fn passes_over_what_it_does_not_know() {
    let text = "colour=red\nno equals sign here\n#enablewait=1\n   \nenablewait=9\r\n";
    assert_eq!(
        AutoApConfig::parse_bash_config(text),
        Ok(AutoApConfig { enable_wait: 9, ..AutoApConfig::default() })
    );
    assert_eq!(AutoApConfig::parse_bash_config(""), Ok(AutoApConfig::default()));
}

#[test]
fn the_last_value_of_a_setting_counts() {
    assert_eq!(AutoApConfig::parse_bash_config("enablewait=1\nenablewait=2").unwrap().enable_wait, 2);
}

#[test]
fn a_value_that_is_no_number_is_an_error() {
    assert_eq!(AutoApConfig::parse_bash_config("enablewait=soon"), Err(ConfigError::EnableWait));
    assert_eq!(AutoApConfig::parse_bash_config("enablewait="), Err(ConfigError::EnableWait));
    assert_eq!(AutoApConfig::parse_bash_config("enablewait=-1"), Err(ConfigError::EnableWait));
    assert_eq!(
        AutoApConfig::parse_bash_config("disconnectwait=1.5"),
        Err(ConfigError::DisconnectWait)
    );
    assert_eq!(
        AutoApConfig::parse_bash_config("disconnectwait=18446744073709551616"),
        Err(ConfigError::DisconnectWait)
    );
    assert_eq!(AutoApConfig::parse_bash_config("debug=yes"), Err(ConfigError::Debug));
    assert_eq!(AutoApConfig::parse_bash_config("debug=4294967296"), Err(ConfigError::Debug));
    assert_eq!(
        AutoApConfig::parse_bash_config("enablewait=3\ndebug=x\nenablewait=y"),
        Err(ConfigError::Debug)
    );
}

#[test]
fn writes_the_errors_of_the_settings() {
    assert_eq!(ConfigError::EnableWait.to_string(), "Failed to parse enablewait");
    assert_eq!(ConfigError::DisconnectWait.to_string(), "Failed to parse disconnectwait");
    assert_eq!(ConfigError::Debug.to_string(), "Failed to parse debug flag");
}

#[test]
fn writes_the_settings_file() {
    let config = AutoApConfig { enable_wait: 300, disconnect_wait: 20, debug: false };
    let expected = "#\n# enablewait\n#  In AP mode, number of seconds to wait before retrying regular WiFi connection\n#\nenablewait=300\n#\n# disconnectwait\n#  number of seconds to wait after last AP client disconnects before retrying regular WiFi connection\n#\ndisconnectwait=20\n#\n# debug logging\n#  0:debug logging on\n#  1:debug logging off\n#\ndebug=1\n";
    assert_eq!(config.save(), expected);
}

#[test]
fn settings_are_read_back_from_what_they_write() {
    for config in [
        AutoApConfig::default(),
        AutoApConfig { enable_wait: 0, disconnect_wait: u64::MAX, debug: true },
        AutoApConfig { enable_wait: 2, disconnect_wait: 1, debug: false },
    ] {
        assert_eq!(AutoApConfig::parse_bash_config(&config.save()), Ok(config));
    }
}
