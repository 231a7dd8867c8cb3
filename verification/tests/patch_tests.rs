use cursor_pro_helper::fsmodel::FileState;
use cursor_pro_helper::patch::{
    replace_in_data, PatchError, PatchFaults, PatchOutcome, Patcher,
};
use cursor_pro_helper::store::{BackupFaults, RestoreFaults};

// A bundle text holding all four virgin slots.
fn full_bundle_text() -> String {
    let mut t = String::new();
    t.push_str("var a=xtimeouty5e3zz,\n");
    t.push_str("function getMac(){ throw new Error(\"Unable to retrieve mac address too\"); }\n");
    t.push_str("sqm: return reg.GetStringRegKey(HKEY_LOCAL_MACHINE, MachineId) || \"\"\n");
    t.push_str("dev: return st(vscode/deviceid, id.getDeviceId())\n");
    t
}

fn patcher_with(text: &str) -> Patcher {
    Patcher::new(
        "main.js".to_string(),
        FileState::with_content(text.to_string()),
        FileState::absent(),
        false,
    )
    .unwrap()
}

#[test]
fn virgin_machine_id_slot_is_patched_once() {
    // only the virgin machine-id pattern is present, no probe
    let mut p = patcher_with("var a=xtimeouty5e3zz,rest");
    let report = p
        .patch(Some("deadbeef".to_string()), None, None, None, &PatchFaults::none())
        .unwrap();
    assert_eq!(report.machine_id, PatchOutcome::FullyPatched(1));
    assert_eq!(report.sqm_id, PatchOutcome::NotFound);
    assert_eq!(report.dev_device_id, PatchOutcome::NotFound);

    let (machine, mac, dev, sqm) = p.get_current_ids().unwrap();
    assert_eq!(machine, "deadbeef");
    assert_eq!(mac, "");
    assert_eq!(dev, "");
    assert_eq!(sqm, "");
    assert!(p.data.contains("/*csp1*/\"deadbeef\"/*1csp*/"));
    assert_eq!(p.live.content, p.data);
}

#[test]
fn patch_twice_keeps_the_second_values() {
    let mut p = patcher_with(full_bundle_text().as_str());
    p.patch_with("M1", "AA:BB:CC:DD:EE:01", "{S1}", "D1", &PatchFaults::none()).unwrap();
    let (m, mac, d, s) = p.get_current_ids().unwrap();
    assert_eq!((m.as_str(), mac.as_str(), d.as_str(), s.as_str()), ("M1", "AA:BB:CC:DD:EE:01", "D1", "{S1}"));

    p.patch_with("M2", "AA:BB:CC:DD:EE:02", "{S2}", "D2", &PatchFaults::none()).unwrap();
    let (m, mac, d, s) = p.get_current_ids().unwrap();
    assert_eq!((m.as_str(), mac.as_str(), d.as_str(), s.as_str()), ("M2", "AA:BB:CC:DD:EE:02", "D2", "{S2}"));

    // patching the same values again leaves the probe captures unchanged
    p.patch_with("M2", "AA:BB:CC:DD:EE:02", "{S2}", "D2", &PatchFaults::none()).unwrap();
    let (m, mac, d, s) = p.get_current_ids().unwrap();
    assert_eq!((m.as_str(), mac.as_str(), d.as_str(), s.as_str()), ("M2", "AA:BB:CC:DD:EE:02", "D2", "{S2}"));
}

#[test]
fn patch_writes_back_and_backs_up_once() {
    let text = full_bundle_text();
    let mut p = patcher_with(text.as_str());
    p.patch_with("M1", "AA:BB:CC:DD:EE:01", "{S1}", "D1", &PatchFaults::none()).unwrap();
    // the first patch made a backup of the original
    assert!(p.backup.exists);
    assert_eq!(p.backup.content, text);
    // a second patch does not overwrite the backup
    p.patch_with("M2", "AA:BB:CC:DD:EE:02", "{S2}", "D2", &PatchFaults::none()).unwrap();
    assert_eq!(p.backup.content, text);
}

#[test]
fn replace_in_data_not_found_returns_text_unchanged() {
    let (out, outcome) =
        replace_in_data("nothing to see", "=.{0,50}timeout.{0,10}5e3.*?,", "X", "=/\\*csp1\\*/.*?/\\*1csp\\*/,")
            .unwrap();
    assert_eq!(out, "nothing to see");
    assert_eq!(outcome, PatchOutcome::NotFound);
}

#[test]
fn replace_in_data_rejects_bad_patterns() {
    assert!(replace_in_data("t", "(", "X", "probe").is_err());
}

#[test]
fn missing_bundle_is_reported() {
    let r = Patcher::new(
        "main.js".to_string(),
        FileState::absent(),
        FileState::absent(),
        false,
    );
    assert!(matches!(r, Err(PatchError::BundleNotFoundError)));
}

#[test]
fn bundle_backup_then_restore_is_a_no_op() {
    let text = full_bundle_text();
    let mut p = patcher_with(text.as_str());
    p.backup(&BackupFaults::none()).unwrap();
    assert!(p.backup.readonly);
    p.restore(&RestoreFaults::none()).unwrap();
    assert_eq!(p.live.content, text);
}

#[test]
fn bundle_restore_without_backup_is_missing_backup() {
    let mut p = patcher_with("x");
    let r = p.restore(&RestoreFaults::none());
    assert!(matches!(r, Err(PatchError::BackupMissingError)));
}

#[test]
fn restore_original_without_backup_does_nothing() {
    let mut p = patcher_with("x");
    p.restore_original(false).unwrap();
    assert_eq!(p.live.content, "x");
}

#[test]
fn faulted_write_is_an_io_error() {
    let mut p = patcher_with("var a=xtimeouty5e3zz,rest");
    let mut faults = PatchFaults::none();
    faults.write = true;
    let r = p.patch(Some("v".to_string()), None, None, None, &faults);
    assert!(matches!(r, Err(PatchError::IoError)));
    // the in-memory text is untouched on failure
    assert_eq!(p.data, "var a=xtimeouty5e3zz,rest");
}

#[test]
fn generated_mac_is_usable() {
    let mac = Patcher::generate_mac_address();
    assert_eq!(mac.len(), 17);
    assert_ne!(mac, "00:00:00:00:00:00");
}

#[test]
fn js_path_is_kept() {
    let p = patcher_with("x");
    assert_eq!(p.get_js_path(), "main.js");
    let ids = p.get_mainjs_ids().unwrap();
    assert_eq!(ids.js_path, "main.js");
    assert_eq!(ids.machine_id, "");
}
