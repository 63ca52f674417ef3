use beer_mcp::settings::Settings;

fn some(value: &str) -> Option<String> {
    Some(value.to_string())
}

#[test]
fn settings_have_defaults() {
    let settings = Settings::from_values(None, None, None);
    assert_eq!(settings.port, 3000);
    assert_eq!(settings.required_role, "susecon-beer");
    assert!(settings.rancher_tls_verify);
    assert_eq!(settings.bind_address(), "0.0.0.0:3000");
}

#[test]
fn settings_can_be_overridden() {
    let settings = Settings::from_values(some("8080"), some("admin"), some("false"));
    assert_eq!(settings.port, 8080);
    assert_eq!(settings.required_role, "admin");
    assert!(!settings.rancher_tls_verify);
    assert_eq!(settings.bind_address(), "0.0.0.0:8080");
}

#[test]
fn port_that_is_none_falls_back() {
    for value in ["", "+", "-1", "65536", "80 ", " 80", "http", "0x50", "8_0", "++1", "99999999999"] {
        assert_eq!(Settings::from_values(some(value), None, None).port, 3000, "{value}");
    }
    assert_eq!(Settings::from_values(some("0"), None, None).port, 0);
    assert_eq!(Settings::from_values(some("+0080"), None, None).port, 80);
    assert_eq!(Settings::from_values(some("65535"), None, None).port, 65535);
}

#[test]
fn tls_verification_is_switched_off_by_two_words_only() {
    assert!(!Settings::from_values(None, None, some("0")).rancher_tls_verify);
    for value in ["", "true", "1", "False", "no", "00", "false "] {
        assert!(Settings::from_values(None, None, some(value)).rancher_tls_verify, "{value}");
    }
}

#[test]
fn empty_role_is_kept() {
    assert_eq!(Settings::from_values(None, some(""), None).required_role, "");
}

#[test]
fn every_port_is_honoured() {
    for port in 0..=u16::MAX {
        let settings = Settings::from_values(Some(port.to_string()), None, None);
        assert_eq!(settings.port, port);
        assert_eq!(settings.bind_address(), format!("0.0.0.0:{port}"));
    }
}
