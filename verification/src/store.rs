//! The identity config store: it owns the live JSON identity file and its
//! single backup slot, keeps the live file read-only outside its own
//! rewrite window, and rotates the five identity keys in place.

use vstd::prelude::*;

use crate::config::{is_identity_key, IdentityConfig};
use crate::fsmodel::{
    copy_file, read_file, remove_file_if_exists, set_file_permissions, write_file, FileState, FileV,
};
use crate::jsontext::{json_obj, json_str_of};
use crate::IdBundle;

verus! {

/// Errors of the identity config store.
#[derive(Clone, Copy, PartialEq, Eq, Structural, Debug)]
pub enum StoreError {
    /// A file could not be read, written, copied, removed, or re-flagged.
    IoError,
    /// The live file does not hold a valid JSON object.
    DecodeError,
    /// A restore was asked for while no backup exists.
    BackupMissingError,
    /// The live file could not be verified read-only after a rotation.
    PermissionVerificationError,
}

/// Which steps of a backup the environment fails.
#[derive(Clone, Copy, PartialEq, Eq, Structural, Debug)]
pub struct BackupFaults {
    pub remove_old: bool,
    pub copy: bool,
    pub protect: bool,
}

impl BackupFaults {
    /// A plan on which every step succeeds.
    pub fn none() -> (r: BackupFaults)
        ensures
            r == (BackupFaults { remove_old: false, copy: false, protect: false }),
    {
        BackupFaults { remove_old: false, copy: false, protect: false }
    }
}

/// Which steps of a restore the environment fails.
#[derive(Clone, Copy, PartialEq, Eq, Structural, Debug)]
pub struct RestoreFaults {
    pub remove_live: bool,
    pub copy: bool,
}

impl RestoreFaults {
    /// A plan on which every step succeeds.
    pub fn none() -> (r: RestoreFaults)
        ensures
            r == (RestoreFaults { remove_live: false, copy: false }),
    {
        RestoreFaults { remove_live: false, copy: false }
    }
}

/// Which steps of a rotation the environment fails.
#[derive(Clone, Copy, PartialEq, Eq, Structural, Debug)]
pub struct RotateFaults {
    /// Step 1: clearing the read-only bit on the live file.
    pub clear_readonly: bool,
    /// Step 2: the backup.
    pub backup: BackupFaults,
    /// Step 3: reading the live file.
    pub read: bool,
    /// Step 4: writing the merged config.
    pub write: bool,
    /// The compensating re-protection after a failed step.
    pub restore_readonly: bool,
    /// Step 5: the three attempts to re-apply the read-only bit.
    pub protect_1: bool,
    pub protect_2: bool,
    pub protect_3: bool,
}

impl RotateFaults {
    /// A plan on which every step succeeds.
    pub fn none() -> (r: RotateFaults)
        ensures
            r == (RotateFaults {
                clear_readonly: false,
                backup: BackupFaults { remove_old: false, copy: false, protect: false },
                read: false,
                write: false,
                restore_readonly: false,
                protect_1: false,
                protect_2: false,
                protect_3: false,
            }),
    {
        RotateFaults {
            clear_readonly: false,
            backup: BackupFaults::none(),
            read: false,
            write: false,
            restore_readonly: false,
            protect_1: false,
            protect_2: false,
            protect_3: false,
        }
    }
}

/// The mathematical view of a store: its path and its two files.
pub ghost struct StoreV {
    pub config_path: Seq<char>,
    pub live: FileV,
    pub backup: FileV,
}

/// The identity config store.
pub struct MachineService {
    pub config_path: String,
    pub live: FileState,
    pub backup: FileState,
}

impl View for MachineService {
    type V = StoreV;

    open spec fn view(&self) -> StoreV {
        StoreV { config_path: self.config_path@, live: self.live@, backup: self.backup@ }
    }
}

/// The store after a successful backup: the backup slot holds a read-only
/// copy of the live file; the live file is untouched.
pub open spec fn spec_backup(s: StoreV) -> StoreV {
    StoreV {
        backup: FileV { exists: true, readonly: true, content: s.live.content },
        ..s
    }
}

/// The store after a successful restore: the live file is a copy of the
/// backup slot; the backup slot is untouched.
pub open spec fn spec_restore(s: StoreV) -> StoreV {
    StoreV {
        live: FileV { exists: true, readonly: s.backup.readonly, content: s.backup.content },
        ..s
    }
}

/// Whether every step of a backup succeeds on this store and plan.
pub open spec fn backup_ok(s: StoreV, f: BackupFaults) -> bool {
    &&& !(s.backup.exists && f.remove_old)
    &&& s.live.exists
    &&& !f.copy
    &&& !f.protect
}

/// Whether a rotation runs to completion on this store and plan.
pub open spec fn rotate_ok(s: StoreV, f: RotateFaults) -> bool {
    &&& s.live.exists
    &&& !f.clear_readonly
    &&& backup_ok(StoreV { live: FileV { readonly: false, ..s.live }, ..s }, f.backup)
    &&& !f.read
    &&& json_obj(s.live.content) is Some
    &&& !f.write
    &&& !(f.protect_1 && f.protect_2 && f.protect_3)
}

/// The exact result of a rotation on this store and plan: which step
/// fails first, and with which error.
pub open spec fn spec_rotate_result(s: StoreV, f: RotateFaults) -> Result<(), StoreError> {
    if !(s.live.exists && !f.clear_readonly) {
        Err(StoreError::IoError)
    } else if !backup_ok(StoreV { live: FileV { readonly: false, ..s.live }, ..s }, f.backup) {
        Err(StoreError::IoError)
    } else if f.read {
        Err(StoreError::IoError)
    } else if json_obj(s.live.content) is None {
        Err(StoreError::DecodeError)
    } else if f.write {
        Err(StoreError::IoError)
    } else if f.protect_1 && f.protect_2 && f.protect_3 {
        Err(StoreError::PermissionVerificationError)
    } else {
        Ok(())
    }
}

/// The string value a config map holds under a key, or the empty string
/// when the key is absent or not a string.
pub open spec fn str_key_or_empty(m: Map<Seq<char>, Seq<char>>, k: Seq<char>) -> Seq<char> {
    if m.contains_key(k) && json_str_of(m[k]) is Some {
        json_str_of(m[k])->0
    } else {
        Seq::empty()
    }
}

impl MachineService {
    /// Sets up a store over the given files; when the live file is absent,
    /// a freshly generated default config is written to it first.
    pub fn new(config_path: String, live: FileState, backup: FileState, write_fault: bool) -> (r:
        Result<MachineService, StoreError>)
        ensures
            live@.exists ==> (r is Ok && r->Ok_0@ == (StoreV {
                config_path: config_path@,
                live: live@,
                backup: backup@,
            })),
            !live@.exists ==> (r is Ok <==> !write_fault),
            r is Ok ==> r->Ok_0@.live.exists,
            r is Ok ==> r->Ok_0@.config_path == config_path@,
            r is Ok ==> r->Ok_0@.backup == backup@,
            r is Ok ==> !live@.exists ==> json_obj(r->Ok_0@.live.content) is Some
                && crate::config::has_fresh_identity_keys(json_obj(r->Ok_0@.live.content)->0),
            r is Err ==> r->Err_0 == StoreError::IoError,
    {
        let mut live = live;
        if !live.exists {
            let cfg = crate::config::generate_default_machine_config();
            let text = cfg.to_text();
            match write_file(&mut live, text.as_str(), write_fault) {
                Ok(()) => {},
                Err(_) => {
                    return Err(StoreError::IoError);
                },
            }
        }
        Ok(MachineService { config_path, live, backup })
    }

    /// The path of the live config file.
    pub fn get_config_path_string(&self) -> (r: String)
        ensures
            r@ == self@.config_path,
    {
        self.config_path.clone()
    }

    /// Reads and parses the live config file. When the file is absent, a
    /// freshly generated default config is written to it first and then
    /// returned. The fault stands for whichever file operation the call
    /// performs failing.
    pub fn read_config(&mut self, fault: bool) -> (r: Result<IdentityConfig, StoreError>)
        ensures
            r is Ok <==> (!fault && (!old(self)@.live.exists || json_obj(
                old(self)@.live.content,
            ) is Some)),
            r is Err ==> r->Err_0 == (if fault {
                StoreError::IoError
            } else {
                StoreError::DecodeError
            }),
            r is Err ==> final(self)@ == old(self)@,
            old(self)@.live.exists ==> final(self)@ == old(self)@,
            r is Ok ==> r->Ok_0.wf(),
            r is Ok ==> final(self)@.live.exists && json_obj(final(self)@.live.content) == Some(
                r->Ok_0.map_view(),
            ),
            (r is Ok && old(self)@.live.exists) ==> r->Ok_0.map_view() == json_obj(
                old(self)@.live.content,
            )->0,
            (r is Ok && !old(self)@.live.exists) ==> {
                &&& crate::config::has_fresh_identity_keys(r->Ok_0.map_view())
                &&& forall|k: Seq<char>|
                    r->Ok_0.map_view().contains_key(k) ==> is_identity_key(k)
            },
            final(self)@.backup == old(self)@.backup,
            final(self)@.config_path == old(self)@.config_path,
    {
        if !self.live.exists {
            let cfg = crate::config::generate_default_machine_config();
            let text = cfg.to_text();
            return match write_file(&mut self.live, text.as_str(), fault) {
                Ok(()) => Ok(cfg),
                Err(_) => Err(StoreError::IoError),
            };
        }
        match read_file(&self.live, fault) {
            Ok(text) => match IdentityConfig::from_text(text.as_str()) {
                Ok(cfg) => Ok(cfg),
                Err(_) => Err(StoreError::DecodeError),
            },
            Err(_) => Err(StoreError::IoError),
        }
    }

    /// Serializes and writes a config to the live file.
    pub fn write_config(&mut self, cfg: &IdentityConfig, fault: bool) -> (r: Result<
        (),
        StoreError,
    >)
        requires
            cfg.wf(),
        ensures
            r is Ok <==> (!(old(self)@.live.exists && old(self)@.live.readonly) && !fault),
            r is Ok ==> json_obj(final(self)@.live.content) == Some(cfg.map_view()),
            r is Ok ==> final(self)@.live.exists && !final(self)@.live.readonly,
            r is Ok ==> final(self)@.backup == old(self)@.backup && final(self)@.config_path
                == old(self)@.config_path,
            r is Err ==> final(self)@ == old(self)@,
            r is Err ==> r->Err_0 == StoreError::IoError,
    {
        let text = cfg.to_text();
        match write_file(&mut self.live, text.as_str(), fault) {
            Ok(()) => Ok(()),
            Err(_) => Err(StoreError::IoError),
        }
    }

    /// Sets or clears the read-only bit of the live config file.
    pub fn set_readonly(&mut self, readonly: bool, fault: bool) -> (r: Result<(), StoreError>)
        ensures
            r is Ok <==> (old(self)@.live.exists && !fault),
            r is Ok ==> final(self)@ == (StoreV {
                live: FileV { readonly, ..old(self)@.live },
                ..old(self)@
            }),
            r is Err ==> final(self)@ == old(self)@,
            r is Err ==> r->Err_0 == StoreError::IoError,
    {
        match set_file_permissions(&mut self.live, readonly, fault) {
            Ok(()) => Ok(()),
            Err(_) => Err(StoreError::IoError),
        }
    }

    /// Backs the live file up: removes any previous backup, copies the live
    /// file into the backup slot and write-protects the copy. The live
    /// file is never touched.
    pub fn backup_config(&mut self, faults: &BackupFaults) -> (r: Result<(), StoreError>)
        ensures
            r is Ok <==> backup_ok(old(self)@, *faults),
            r is Ok ==> final(self)@ == spec_backup(old(self)@),
            r is Err ==> r->Err_0 == StoreError::IoError,
            final(self)@.live == old(self)@.live,
            final(self)@.config_path == old(self)@.config_path,
    {
        match remove_file_if_exists(&mut self.backup, faults.remove_old) {
            Ok(()) => {},
            Err(_) => {
                return Err(StoreError::IoError);
            },
        }
        match copy_file(&self.live, &mut self.backup, faults.copy) {
            Ok(()) => {},
            Err(_) => {
                return Err(StoreError::IoError);
            },
        }
        match set_file_permissions(&mut self.backup, true, faults.protect) {
            Ok(()) => {},
            Err(_) => {
                return Err(StoreError::IoError);
            },
        }
        Ok(())
    }

    /// Restores the live file from the backup slot. Fails with
    /// `BackupMissingError` exactly when no backup exists.
    pub fn restore_config(&mut self, faults: &RestoreFaults) -> (r: Result<(), StoreError>)
        ensures
            r is Ok <==> (old(self)@.backup.exists && !(old(self)@.live.exists
                && faults.remove_live) && !faults.copy),
            r is Ok ==> final(self)@ == spec_restore(old(self)@),
            r is Err ==> (r->Err_0 == StoreError::BackupMissingError <==> !old(
                self,
            )@.backup.exists),
            (r is Err && !old(self)@.backup.exists) ==> final(self)@.live == old(self)@.live,
            (r is Err && old(self)@.backup.exists) ==> r->Err_0 == StoreError::IoError,
            final(self)@.backup == old(self)@.backup,
            final(self)@.config_path == old(self)@.config_path,
    {
        if !self.backup.exists {
            return Err(StoreError::BackupMissingError);
        }
        match remove_file_if_exists(&mut self.live, faults.remove_live) {
            Ok(()) => {},
            Err(_) => {
                return Err(StoreError::IoError);
            },
        }
        match copy_file(&self.backup, &mut self.live, faults.copy) {
            Ok(()) => {},
            Err(_) => {
                return Err(StoreError::IoError);
            },
        }
        Ok(())
    }

    /// Rotates the five identity keys to the given values: clears the
    /// read-only bit, backs the file up, merges the values over the
    /// parsed config, writes it back, and re-protects the file, retrying
    /// the protection up to three times. Any failure inside the rewrite
    /// window triggers a compensating re-protection.
    pub fn update_machine_id_with(&mut self, ids: &IdBundle, faults: &RotateFaults) -> (r:
        Result<(), StoreError>)
        ensures
            r == spec_rotate_result(old(self)@, *faults),
            r is Ok <==> rotate_ok(old(self)@, *faults),
            // On success the file holds the merged config, write-protected.
            r is Ok ==> final(self)@.live.exists && final(self)@.live.readonly,
            r is Ok ==> json_obj(final(self)@.live.content) is Some,
            r is Ok ==> {
                let m0 = json_obj(old(self)@.live.content)->0;
                let m1 = json_obj(final(self)@.live.content)->0;
                &&& m1.dom() =~= m0.dom().insert("machineId"@).insert("telemetry.machineId"@)
                    .insert("telemetry.macMachineId"@).insert("telemetry.devDeviceId"@).insert(
                    "telemetry.sqmId"@,
                )
                &&& forall|k: Seq<char>|
                    !is_identity_key(k) && m0.contains_key(k) ==> m1[k] == m0[k]
                &&& json_str_of(m1["machineId"@]) == Some(ids.machine_id@)
                &&& json_str_of(m1["telemetry.machineId"@]) == Some(ids.telemetry_machine_id@)
                &&& json_str_of(m1["telemetry.macMachineId"@]) == Some(ids.mac_machine_id@)
                &&& json_str_of(m1["telemetry.devDeviceId"@]) == Some(ids.dev_device_id@)
                &&& json_str_of(m1["telemetry.sqmId"@]) == Some(ids.sqm_id@)
            },
            // On success the backup slot holds the pre-rotation content.
            r is Ok ==> final(self)@.backup.exists && final(self)@.backup.readonly && final(self)@.backup.content == old(self)@.live.content,
            // Whenever the re-protection steps themselves are not the
            // failing ones, a live file that was protected before the call
            // is protected after it, on every path.
            (!faults.restore_readonly && !(faults.protect_1 && faults.protect_2
                && faults.protect_3) && old(self)@.live.readonly) ==> final(self)@.live.readonly,
            final(self)@.config_path == old(self)@.config_path,
    {
        // 1. clear the read-only bit
        if let Err(e) = self.set_readonly(false, faults.clear_readonly) {
            return Err(e);
        }
        // 2. back up the current file
        if let Err(e) = self.backup_config(&faults.backup) {
            let _ = self.set_readonly(true, faults.restore_readonly);
            return Err(e);
        }
        // 3. read the current config
        let cfg = match self.read_config(faults.read) {
            Ok(cfg) => cfg,
            Err(e) => {
                let _ = self.set_readonly(true, faults.restore_readonly);
                return Err(e);
            },
        };
        // 4. merge fresh identifiers and write the file
        let mut cfg = cfg;
        cfg.apply_update(ids);
        if let Err(e) = self.write_config(&cfg, faults.write) {
            let _ = self.set_readonly(true, faults.restore_readonly);
            return Err(e);
        }
        // 5. re-apply the read-only bit, up to three attempts
        let mut protected = self.set_readonly(true, faults.protect_1).is_ok();
        if !protected {
            protected = self.set_readonly(true, faults.protect_2).is_ok();
        }
        if !protected {
            protected = self.set_readonly(true, faults.protect_3).is_ok();
        }
        // 6. verify the file ended up read-only
        if !self.live.readonly {
            return Err(StoreError::PermissionVerificationError);
        }
        Ok(())
    }

    /// Rotates the five identity keys to freshly generated values, as a
    /// rotation with no explicit overrides does.
    pub fn update_machine_id(&mut self, faults: &RotateFaults) -> (r: Result<(), StoreError>)
        ensures
            r == spec_rotate_result(old(self)@, *faults),
            r is Ok <==> rotate_ok(old(self)@, *faults),
            r is Ok ==> final(self)@.live.exists && final(self)@.live.readonly,
            r is Ok ==> json_obj(final(self)@.live.content) is Some,
            r is Ok ==> {
                let m0 = json_obj(old(self)@.live.content)->0;
                let m1 = json_obj(final(self)@.live.content)->0;
                &&& m1.dom() =~= m0.dom().insert("machineId"@).insert("telemetry.machineId"@)
                    .insert("telemetry.macMachineId"@).insert("telemetry.devDeviceId"@).insert(
                    "telemetry.sqmId"@,
                )
                &&& forall|k: Seq<char>|
                    !is_identity_key(k) && m0.contains_key(k) ==> m1[k] == m0[k]
                &&& crate::config::has_fresh_identity_keys(m1)
            },
            r is Ok ==> final(self)@.backup.exists && final(self)@.backup.readonly && final(self)@.backup.content == old(self)@.live.content,
            (!faults.restore_readonly && !(faults.protect_1 && faults.protect_2
                && faults.protect_3) && old(self)@.live.readonly) ==> final(self)@.live.readonly,
            final(self)@.config_path == old(self)@.config_path,
    {
        let ids = crate::config::generate_id_bundle();
        self.update_machine_id_with(&ids, faults)
    }
}

/// The four identity values and the config path, as read from the live
/// file.
pub struct MachineIds {
    pub machine_id: String,
    pub mac_machine_id: String,
    pub dev_device_id: String,
    pub sqm_id: String,
    pub config_path: String,
}

impl MachineService {
    fn get_string_id(&mut self, key: &str, fault: bool) -> (r: Result<String, StoreError>)
        ensures
            r is Ok <==> (!fault && (!old(self)@.live.exists || json_obj(
                old(self)@.live.content,
            ) is Some)),
            r is Err ==> r->Err_0 == (if fault {
                StoreError::IoError
            } else {
                StoreError::DecodeError
            }),
            r is Err ==> final(self)@ == old(self)@,
            old(self)@.live.exists ==> final(self)@ == old(self)@,
            r is Ok ==> final(self)@.live.exists && json_obj(final(self)@.live.content) is Some
                && r->Ok_0@ == str_key_or_empty(json_obj(final(self)@.live.content)->0, key@),
            (r is Ok && !old(self)@.live.exists) ==> crate::config::has_fresh_identity_keys(
                json_obj(final(self)@.live.content)->0,
            ),
            final(self)@.backup == old(self)@.backup,
            final(self)@.config_path == old(self)@.config_path,
    {
        let cfg = match self.read_config(fault) {
            Ok(cfg) => cfg,
            Err(e) => {
                return Err(e);
            },
        };
        match cfg.get_string_key(key) {
            Some(v) => Ok(v),
            None => Ok(String::new()),
        }
    }

    /// The `telemetry.machineId` value, or the empty string if the key is
    /// absent; an absent file first gets a fresh default config.
    pub fn get_machine_id(&mut self, fault: bool) -> (r: Result<String, StoreError>)
        ensures
            r is Ok <==> (!fault && (!old(self)@.live.exists || json_obj(
                old(self)@.live.content,
            ) is Some)),
            r is Err ==> r->Err_0 == (if fault {
                StoreError::IoError
            } else {
                StoreError::DecodeError
            }),
            r is Err ==> final(self)@ == old(self)@,
            old(self)@.live.exists ==> final(self)@ == old(self)@,
            r is Ok ==> final(self)@.live.exists && json_obj(final(self)@.live.content) is Some
                && r->Ok_0@ == str_key_or_empty(
                json_obj(final(self)@.live.content)->0,
                "telemetry.machineId"@,
            ),
            final(self)@.backup == old(self)@.backup,
            final(self)@.config_path == old(self)@.config_path,
    {
        self.get_string_id("telemetry.machineId", fault)
    }

    /// The `telemetry.macMachineId` value, or the empty string if the key
    /// is absent; an absent file first gets a fresh default config.
    pub fn get_mac_machine_id(&mut self, fault: bool) -> (r: Result<String, StoreError>)
        ensures
            r is Ok <==> (!fault && (!old(self)@.live.exists || json_obj(
                old(self)@.live.content,
            ) is Some)),
            r is Err ==> r->Err_0 == (if fault {
                StoreError::IoError
            } else {
                StoreError::DecodeError
            }),
            r is Err ==> final(self)@ == old(self)@,
            old(self)@.live.exists ==> final(self)@ == old(self)@,
            r is Ok ==> final(self)@.live.exists && json_obj(final(self)@.live.content) is Some
                && r->Ok_0@ == str_key_or_empty(
                json_obj(final(self)@.live.content)->0,
                "telemetry.macMachineId"@,
            ),
            final(self)@.backup == old(self)@.backup,
            final(self)@.config_path == old(self)@.config_path,
    {
        self.get_string_id("telemetry.macMachineId", fault)
    }

    /// The `telemetry.devDeviceId` value, or the empty string if the key
    /// is absent; an absent file first gets a fresh default config.
    pub fn get_dev_device_id(&mut self, fault: bool) -> (r: Result<String, StoreError>)
        ensures
            r is Ok <==> (!fault && (!old(self)@.live.exists || json_obj(
                old(self)@.live.content,
            ) is Some)),
            r is Err ==> r->Err_0 == (if fault {
                StoreError::IoError
            } else {
                StoreError::DecodeError
            }),
            r is Err ==> final(self)@ == old(self)@,
            old(self)@.live.exists ==> final(self)@ == old(self)@,
            r is Ok ==> final(self)@.live.exists && json_obj(final(self)@.live.content) is Some
                && r->Ok_0@ == str_key_or_empty(
                json_obj(final(self)@.live.content)->0,
                "telemetry.devDeviceId"@,
            ),
            final(self)@.backup == old(self)@.backup,
            final(self)@.config_path == old(self)@.config_path,
    {
        self.get_string_id("telemetry.devDeviceId", fault)
    }

    /// The `telemetry.sqmId` value, or the empty string if the key is
    /// absent; an absent file first gets a fresh default config.
    pub fn get_sqm_id(&mut self, fault: bool) -> (r: Result<String, StoreError>)
        ensures
            r is Ok <==> (!fault && (!old(self)@.live.exists || json_obj(
                old(self)@.live.content,
            ) is Some)),
            r is Err ==> r->Err_0 == (if fault {
                StoreError::IoError
            } else {
                StoreError::DecodeError
            }),
            r is Err ==> final(self)@ == old(self)@,
            old(self)@.live.exists ==> final(self)@ == old(self)@,
            r is Ok ==> final(self)@.live.exists && json_obj(final(self)@.live.content) is Some
                && r->Ok_0@ == str_key_or_empty(
                json_obj(final(self)@.live.content)->0,
                "telemetry.sqmId"@,
            ),
            final(self)@.backup == old(self)@.backup,
            final(self)@.config_path == old(self)@.config_path,
    {
        self.get_string_id("telemetry.sqmId", fault)
    }

    /// All four identity values and the config path in one read; an
    /// absent file first gets a fresh default config.
    pub fn get_all_ids(&mut self, fault: bool) -> (r: Result<MachineIds, StoreError>)
        ensures
            r is Ok <==> (!fault && (!old(self)@.live.exists || json_obj(
                old(self)@.live.content,
            ) is Some)),
            r is Err ==> r->Err_0 == (if fault {
                StoreError::IoError
            } else {
                StoreError::DecodeError
            }),
            r is Err ==> final(self)@ == old(self)@,
            old(self)@.live.exists ==> final(self)@ == old(self)@,
            r is Ok ==> final(self)@.live.exists && json_obj(final(self)@.live.content) is Some
                && {
                let m = json_obj(final(self)@.live.content)->0;
                &&& r->Ok_0.machine_id@ == str_key_or_empty(m, "telemetry.machineId"@)
                &&& r->Ok_0.mac_machine_id@ == str_key_or_empty(m, "telemetry.macMachineId"@)
                &&& r->Ok_0.dev_device_id@ == str_key_or_empty(m, "telemetry.devDeviceId"@)
                &&& r->Ok_0.sqm_id@ == str_key_or_empty(m, "telemetry.sqmId"@)
                &&& r->Ok_0.config_path@ == old(self)@.config_path
            },
            final(self)@.backup == old(self)@.backup,
            final(self)@.config_path == old(self)@.config_path,
    {
        let machine_id = match self.get_machine_id(fault) {
            Ok(v) => v,
            Err(e) => {
                return Err(e);
            },
        };
        let mac_machine_id = match self.get_mac_machine_id(fault) {
            Ok(v) => v,
            Err(e) => {
                return Err(e);
            },
        };
        let dev_device_id = match self.get_dev_device_id(fault) {
            Ok(v) => v,
            Err(e) => {
                return Err(e);
            },
        };
        let sqm_id = match self.get_sqm_id(fault) {
            Ok(v) => v,
            Err(e) => {
                return Err(e);
            },
        };
        Ok(MachineIds {
            machine_id,
            mac_machine_id,
            dev_device_id,
            sqm_id,
            config_path: self.get_config_path_string(),
        })
    }
}

/// Law: a backup followed immediately by a restore leaves the live file's
/// content exactly as it was before the backup.
pub proof fn lemma_backup_restore_noop(s: StoreV)
    requires
        s.live.exists,
    ensures
        spec_restore(spec_backup(s)).live.content == s.live.content,
        spec_restore(spec_backup(s)).live.exists,
{
}

} // verus!
