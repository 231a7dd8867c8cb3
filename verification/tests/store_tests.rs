use cursor_pro_helper::config::IdentityConfig;
use cursor_pro_helper::fsmodel::FileState;
use cursor_pro_helper::store::{
    BackupFaults, MachineService, RestoreFaults, RotateFaults, StoreError,
};
use cursor_pro_helper::IdBundle;

fn bundle() -> IdBundle {
    IdBundle {
        machine_id: "new-machine".to_string(),
        telemetry_machine_id: "new-telemetry".to_string(),
        mac_machine_id: "new-mac".to_string(),
        dev_device_id: "new-dev".to_string(),
        sqm_id: "{NEW}".to_string(),
    }
}

fn service_with(text: &str) -> MachineService {
    MachineService::new(
        "storage.json".to_string(),
        FileState::with_content(text.to_string()),
        FileState::absent(),
        false,
    )
    .unwrap()
}

#[test]
fn rotate_replaces_identity_keys_and_preserves_others() {
    let text = "{\"custom\": \"keep\", \"telemetry.machineId\": \"old\"}";
    let mut svc = service_with(text);
    svc.update_machine_id_with(&bundle(), &RotateFaults::none()).unwrap();

    // the live file ends read-only and holds the merged config
    assert!(svc.live.readonly);
    let cfg = IdentityConfig::from_text(svc.live.content.as_str()).unwrap();
    assert_eq!(cfg.get_string_key("custom").unwrap(), "keep");
    assert_eq!(cfg.get_string_key("telemetry.machineId").unwrap(), "new-telemetry");
    assert_eq!(cfg.get_string_key("machineId").unwrap(), "new-machine");

    // the backup holds the pre-rotation content
    assert!(svc.backup.exists);
    assert_eq!(svc.backup.content, text);
}

#[test]
fn rotate_generates_fresh_values() {
    let text = "{\"custom\": \"keep\", \"telemetry.machineId\": \"old\"}";
    let mut svc = service_with(text);
    svc.update_machine_id(&RotateFaults::none()).unwrap();
    let cfg = IdentityConfig::from_text(svc.live.content.as_str()).unwrap();
    assert_eq!(cfg.get_string_key("custom").unwrap(), "keep");
    let machine = cfg.get_string_key("telemetry.machineId").unwrap();
    assert_eq!(machine.len(), 64);
    assert_ne!(machine, "old");
    assert_eq!(cfg.get_string_key("telemetry.devDeviceId").unwrap().len(), 36);
    let sqm = cfg.get_string_key("telemetry.sqmId").unwrap();
    assert_eq!(sqm.len(), 38);
    assert!(sqm.starts_with('{') && sqm.ends_with('}'));
    assert!(svc.live.readonly);
}

#[test]
fn rotate_failure_leaves_file_read_only() {
    let mut svc = service_with("{\"telemetry.machineId\": \"old\"}");
    svc.live.readonly = true;
    let mut faults = RotateFaults::none();
    faults.write = true;
    let r = svc.update_machine_id_with(&bundle(), &faults);
    assert_eq!(r, Err(StoreError::IoError));
    assert!(svc.live.readonly);
    assert_eq!(svc.live.content, "{\"telemetry.machineId\": \"old\"}");
}

#[test]
fn rotate_decode_failure_restores_read_only() {
    let mut svc = service_with("not json at all");
    svc.live.readonly = true;
    let r = svc.update_machine_id_with(&bundle(), &RotateFaults::none());
    assert_eq!(r, Err(StoreError::DecodeError));
    assert!(svc.live.readonly);
}

#[test]
fn rotate_reports_unverified_permissions() {
    let mut svc = service_with("{}");
    let mut faults = RotateFaults::none();
    faults.protect_1 = true;
    faults.protect_2 = true;
    faults.protect_3 = true;
    let r = svc.update_machine_id_with(&bundle(), &faults);
    assert_eq!(r, Err(StoreError::PermissionVerificationError));
}

#[test]
fn rotate_protect_retry_succeeds_on_second_attempt() {
    let mut svc = service_with("{}");
    let mut faults = RotateFaults::none();
    faults.protect_1 = true;
    svc.update_machine_id_with(&bundle(), &faults).unwrap();
    assert!(svc.live.readonly);
}

#[test]
fn backup_then_restore_is_a_no_op() {
    let text = "{\"telemetry.machineId\": \"v\"}";
    let mut svc = service_with(text);
    svc.backup_config(&BackupFaults::none()).unwrap();
    svc.restore_config(&RestoreFaults::none()).unwrap();
    assert_eq!(svc.live.content, text);
    assert!(svc.live.exists);
}

#[test]
fn restore_without_backup_is_missing_backup() {
    let mut svc = service_with("{}");
    let r = svc.restore_config(&RestoreFaults::none());
    assert_eq!(r, Err(StoreError::BackupMissingError));
}

#[test]
fn backup_protects_the_copy() {
    let mut svc = service_with("{\"x\": 1}");
    svc.backup_config(&BackupFaults::none()).unwrap();
    assert!(svc.backup.exists);
    assert!(svc.backup.readonly);
    assert_eq!(svc.backup.content, "{\"x\": 1}");
    // the live file is untouched
    assert!(!svc.live.readonly);
}

#[test]
fn missing_file_gets_a_fresh_default_config() {
    let mut svc = MachineService::new(
        "storage.json".to_string(),
        FileState::absent(),
        FileState::absent(),
        false,
    )
    .unwrap();
    let id = svc.get_machine_id(false).unwrap();
    assert_eq!(id.len(), 64);
    let all = svc.get_all_ids(false).unwrap();
    assert_eq!(all.machine_id, id);
    assert_eq!(all.config_path, "storage.json");
    assert_eq!(all.dev_device_id.len(), 36);
    assert_eq!(all.sqm_id.len(), 38);
}

#[test]
fn getters_return_empty_for_absent_keys() {
    let mut svc = service_with("{\"other\": true}");
    assert_eq!(svc.get_machine_id(false).unwrap(), "");
    assert_eq!(svc.get_mac_machine_id(false).unwrap(), "");
    assert_eq!(svc.get_dev_device_id(false).unwrap(), "");
    assert_eq!(svc.get_sqm_id(false).unwrap(), "");
}

#[test]
fn read_config_io_error_when_faulted() {
    let mut svc = service_with("{}");
    let r = svc.read_config(true);
    assert!(matches!(r, Err(StoreError::IoError)));
}

#[test]
fn read_config_synthesizes_a_default_on_absent_file() {
    let mut svc = MachineService {
        config_path: "storage.json".to_string(),
        live: FileState::absent(),
        backup: FileState::absent(),
    };
    let cfg = svc.read_config(false).unwrap();
    // the default was persisted to the live file
    assert!(svc.live.exists);
    let machine = cfg.get_string_key("telemetry.machineId").unwrap();
    assert_eq!(machine.len(), 64);
    // a second read now parses the persisted file and agrees
    let again = svc.read_config(false).unwrap();
    assert_eq!(again.get_string_key("telemetry.machineId").unwrap(), machine);
}

#[test]
fn getters_create_the_default_when_the_file_is_absent() {
    let mut svc = MachineService {
        config_path: "storage.json".to_string(),
        live: FileState::absent(),
        backup: FileState::absent(),
    };
    let id = svc.get_machine_id(false).unwrap();
    assert_eq!(id.len(), 64);
    assert!(svc.live.exists);
    assert_eq!(svc.get_machine_id(false).unwrap(), id);
}
