use cursor_pro_helper::config::{generate_default_machine_config, IdentityConfig};
use cursor_pro_helper::IdBundle;

fn sample_bundle() -> IdBundle {
    IdBundle {
        machine_id: "m1".to_string(),
        telemetry_machine_id: "t1".to_string(),
        mac_machine_id: "c1".to_string(),
        dev_device_id: "d1".to_string(),
        sqm_id: "{S1}".to_string(),
    }
}

#[test]
fn overlay_preserves_unrelated_keys() {
    let text = "{\"custom\": 42, \"theme\": \"dark\", \"telemetry.machineId\": \"old\"}";
    let mut cfg = IdentityConfig::from_text(text).unwrap();
    cfg.apply_update(&sample_bundle());

    // unrelated keys keep their values
    assert_eq!(cfg.get_value_text("custom").unwrap(), "42");
    assert_eq!(cfg.get_string_key("theme").unwrap(), "dark");

    // the five identity keys carry the new values
    assert_eq!(cfg.get_string_key("machineId").unwrap(), "m1");
    assert_eq!(cfg.get_string_key("telemetry.machineId").unwrap(), "t1");
    assert_eq!(cfg.get_string_key("telemetry.macMachineId").unwrap(), "c1");
    assert_eq!(cfg.get_string_key("telemetry.devDeviceId").unwrap(), "d1");
    assert_eq!(cfg.get_string_key("telemetry.sqmId").unwrap(), "{S1}");
}

#[test]
fn text_round_trip_preserves_map() {
    let text = "{\"a\": [1, 2], \"b\": {\"c\": true}, \"s\": \"x\"}";
    let cfg = IdentityConfig::from_text(text).unwrap();
    let out = cfg.to_text();
    let cfg2 = IdentityConfig::from_text(out.as_str()).unwrap();
    assert_eq!(cfg2.get_value_text("a").unwrap(), "[1,2]");
    assert_eq!(cfg2.get_value_text("b").unwrap(), "{\"c\":true}");
    assert_eq!(cfg2.get_string_key("s").unwrap(), "x");
}

#[test]
fn set_string_key_escapes_and_round_trips() {
    let mut cfg = IdentityConfig::new();
    cfg.set_string_key("k", "a\"b\\c");
    let text = cfg.to_text();
    let back = IdentityConfig::from_text(text.as_str()).unwrap();
    assert_eq!(back.get_string_key("k").unwrap(), "a\"b\\c");
}

#[test]
fn from_text_rejects_invalid_json() {
    assert!(IdentityConfig::from_text("{oops").is_err());
    assert!(IdentityConfig::from_text("[1,2]").is_err());
}

#[test]
fn get_string_key_is_none_for_non_strings() {
    let cfg = IdentityConfig::from_text("{\"n\": 7}").unwrap();
    assert!(cfg.get_string_key("n").is_none());
    assert!(cfg.get_string_key("absent").is_none());
    assert!(cfg.contains_key("n"));
    assert!(!cfg.contains_key("absent"));
}

#[test]
fn default_config_has_exactly_the_identity_keys() {
    let cfg = generate_default_machine_config();
    let machine_id = cfg.get_string_key("machineId").unwrap();
    assert_eq!(machine_id.len(), 64);
    let telemetry = cfg.get_string_key("telemetry.machineId").unwrap();
    assert_eq!(telemetry.len(), 64);
    let mac = cfg.get_string_key("telemetry.macMachineId").unwrap();
    assert_eq!(mac.len(), 64);
    let dev = cfg.get_string_key("telemetry.devDeviceId").unwrap();
    assert_eq!(dev.len(), 36);
    let sqm = cfg.get_string_key("telemetry.sqmId").unwrap();
    assert_eq!(sqm.len(), 38);
    assert!(sqm.starts_with('{') && sqm.ends_with('}'));
}
