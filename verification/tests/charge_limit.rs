use macmon_tui::charge_limit::{
    configured_charge_limit, is_whitespace, parse_charge_limit, pmset_field,
};

fn field(entry: &str, key: &str) -> Option<String> {
    let entry: Vec<char> = entry.chars().collect();
    pmset_field(&entry, key).map(|value| value.iter().collect::<String>())
}

#[test]
fn parses_active_pmset_charge_limits() {
    let limits = r#"Battery level limits:
      ( { chargeSocLimitReason = optimizedCharging; chargeSocLimitSoc = 85; Terminated = 0; },
        { chargeSocLimitReason = manualChargeLimit; chargeSocLimitSoc = 90; Terminated = 0; },
        { chargeSocLimitReason = manualChargeLimit; chargeSocLimitSoc = 80; Terminated = 1; } )"#;
    assert_eq!(parse_charge_limit(limits), Some(90));

    let fallback = r#"( { chargeSocLimitSoc = 95; Terminated = 0; },
      { chargeSocLimitSoc = 85; Terminated = 0; },
      { chargeSocLimitSoc = 70; Terminated = 0; } )"#;
    assert_eq!(parse_charge_limit(fallback), Some(85));
    assert_eq!(parse_charge_limit("No battery level limits set"), None);
}

#[test]
fn fields_end_at_separators() {
    assert_eq!(field("a = 1; b=2,c =\t3 d", "a"), Some("1".to_string()));
    assert_eq!(field("a = 1; b=2,c =\t3 d", "b"), Some("2".to_string()));
    assert_eq!(field("a = 1; b=2,c =\t3 d", "c"), Some("3".to_string()));
    assert_eq!(field("key = ; x", "key"), Some(String::new()));
    assert_eq!(field("key =", "key"), Some(String::new()));
    assert_eq!(field("key : 1", "key"), None);
    assert_eq!(field("key", "key"), None);
    assert_eq!(field("", "key"), None);
    // The first place where the name stands decides, also within a longer one.
    assert_eq!(field("keys = 1; key = 2", "key"), None);
}

#[test]
fn limits_are_whole_numbers_of_one_byte() {
    let limit = |value: &str| {
        parse_charge_limit(&format!("{{ Terminated = 0; chargeSocLimitSoc = {value}; }}"))
    };
    assert_eq!(limit("80"), Some(80));
    assert_eq!(limit("+90"), Some(90));
    assert_eq!(limit("00085"), Some(85));
    assert_eq!(limit("100"), Some(100));
    for value in ["79", "101", "256", "340", "99999999999999999999", "+", "-85", "8x", "++85", ""] {
        assert_eq!(limit(value), None);
    }
}

#[test]
fn the_lowest_limit_of_a_kind_counts() {
    let output = "{ Terminated = 0; chargeSocLimitSoc = 95; chargeSocLimitReason = manualChargeLimit; }\
                  { Terminated = 0; chargeSocLimitSoc = 90; chargeSocLimitReason = manualChargeLimit; }\
                  { Terminated = 0; chargeSocLimitSoc = 80; }";
    assert_eq!(parse_charge_limit(output), Some(90));
    // An entry after the last brace counts too.
    assert_eq!(parse_charge_limit("Terminated = 0; chargeSocLimitSoc = 88"), Some(88));
}

#[test]
fn white_space_is_that_of_unicode() {
    for c in '\0'..=char::MAX {
        assert_eq!(is_whitespace(c), c.is_whitespace());
    }
}

#[test]
fn a_failed_command_sets_no_limit() {
    let output = b"{ Terminated = 0; chargeSocLimitSoc = 85; }";
    assert_eq!(configured_charge_limit(true, output), Some(85));
    assert_eq!(configured_charge_limit(false, output), None);
    // What is no UTF-8 is read as a replacement character, which ends no value.
    assert_eq!(configured_charge_limit(true, b"\xff{ Terminated = 0; chargeSocLimitSoc = 85;"), Some(85));
    assert_eq!(configured_charge_limit(true, b"{ Terminated = 0; chargeSocLimitSoc = 85\xff; }"), None);
}
