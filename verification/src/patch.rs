//! The bundle patch engine. Four identifier slots inside the target
//! application's script bundle are each recognized by a pair of regexes: a
//! virgin pattern matching the original code and a probe pattern matching a
//! previously inserted marker. Replacement overwrites probe matches first,
//! then virgin matches, and reports how many of the expected occurrences
//! were actually rewritten.

use vstd::prelude::*;

use crate::fsmodel::{copy_file, remove_file_if_exists, set_file_permissions, write_file, FileState, FileV};
use crate::idgen::generate_mac_address;

verus! {

/// The pattern a compiled regex was built from. Every regex in this
/// crate is made by `regex_new` through `regex::Regex::new`, that is with
/// the crate's default configuration; the names below are read under
/// that build.
pub uninterp spec fn re_pattern(re: regex::Regex) -> Seq<char>;

/// Whether regex::Regex::new accepts a pattern.
pub uninterp spec fn re_compiles(pat: Seq<char>) -> bool;

/// The number of non-overlapping matches of a pattern in a text.
pub uninterp spec fn re_count(pat: Seq<char>, text: Seq<char>) -> nat;

/// The text after replacing every non-overlapping match of a pattern,
/// with capture-group references in the replacement expanded.
pub uninterp spec fn re_replaced(pat: Seq<char>, text: Seq<char>, rep: Seq<char>) -> Seq<char>;

/// The first capture group of the first match, if any.
pub uninterp spec fn re_capture1(pat: Seq<char>, text: Seq<char>) -> Option<Seq<char>>;

#[verifier::external_type_specification]
#[verifier::external_body]
pub struct ExRegex(regex::Regex);

/// Errors of the patch engine.
#[derive(Clone, Copy, PartialEq, Eq, Structural, Debug)]
pub enum PatchError {
    /// The bundle file does not exist.
    BundleNotFoundError,
    /// A file could not be read, written, copied, or re-flagged.
    IoError,
    /// A slot's regex did not compile.
    PatternError,
    /// A restore was asked for while no backup exists.
    BackupMissingError,
}

/// Relies on regex::Regex::new: compiles the pattern, failing exactly on
/// the patterns the regex crate rejects.
#[verifier::external_body]
fn regex_new(pat: &str) -> (r: Result<regex::Regex, PatchError>)
    ensures
        r is Ok <==> re_compiles(pat@),
        r is Ok ==> re_pattern(r->Ok_0) == pat@,
        r is Err ==> r->Err_0 == PatchError::PatternError,
{
    match regex::Regex::new(pat) {
        Ok(re) => Ok(re),
        Err(_) => Err(PatchError::PatternError),
    }
}

/// Relies on regex::Regex::find_iter: the number of non-overlapping
/// matches in the text. Non-overlapping matches start at distinct
/// positions, so there are at most `len + 1` of them.
#[verifier::external_body]
fn regex_count(re: &regex::Regex, text: &str) -> (n: usize)
    ensures
        n == re_count(re_pattern(*re), text@),
        n <= text@.len() + 1,
{
    re.find_iter(text).count()
}

/// Relies on regex::Regex::replace_all: every non-overlapping match
/// replaced, with `$n` references in the replacement expanded.
#[verifier::external_body]
fn regex_replace_all(re: &regex::Regex, text: &str, rep: &str) -> (r: String)
    ensures
        r@ == re_replaced(re_pattern(*re), text@, rep@),
{
    re.replace_all(text, rep).into_owned()
}

/// Relies on regex::Regex::captures: the first capture group of the first
/// match in the text, if the pattern matches at all.
#[verifier::external_body]
fn regex_capture1(re: &regex::Regex, text: &str) -> (r: Option<String>)
    ensures
        r is Some <==> re_capture1(re_pattern(*re), text@) is Some,
        r is Some ==> r->0@ == re_capture1(re_pattern(*re), text@)->0,
{
    re.captures(text).and_then(|c| c.get(1)).map(|m| m.as_str().to_string())
}

/// What one replacement pass achieved.
#[derive(Clone, Copy, PartialEq, Eq, Structural, Debug)]
pub enum PatchOutcome {
    /// Neither the virgin pattern nor the probe matched; the text is
    /// unchanged.
    NotFound,
    /// Every expected occurrence was rewritten; carries the count.
    FullyPatched(usize),
    /// Fewer occurrences were rewritten than expected; carries the
    /// rewritten and the expected count.
    PartiallyPatched(usize, usize),
}

/// The text after the probe pass: probe matches are overwritten first so
/// that re-patching supersedes previously inserted values.
pub open spec fn spec_probe_pass(probe: Seq<char>, rep: Seq<char>, data: Seq<char>) -> Seq<
    char,
> {
    if re_count(probe, data) > 0 {
        re_replaced(probe, data, rep)
    } else {
        data
    }
}

/// The text after both passes; when neither pattern matches, the text is
/// returned unchanged.
pub open spec fn spec_replace_text(
    pat: Seq<char>,
    probe: Seq<char>,
    rep: Seq<char>,
    data: Seq<char>,
) -> Seq<char> {
    let v = re_count(pat, data);
    let p = re_count(probe, data);
    if v == 0 && p == 0 {
        data
    } else {
        let t1 = spec_probe_pass(probe, rep, data);
        if v > 0 {
            re_replaced(pat, t1, rep)
        } else {
            t1
        }
    }
}

/// How many occurrences a pass actually removed: the matches that remain
/// after the pass count as not replaced.
pub open spec fn spec_removed(before: nat, after: nat) -> nat {
    if after <= before {
        (before - after) as nat
    } else {
        0
    }
}

/// Addition capped at the largest representable count.
pub open spec fn sat_add(a: nat, b: nat) -> nat {
    if a + b > usize::MAX {
        usize::MAX as nat
    } else {
        a + b
    }
}

/// The outcome of the two replacement passes over a text.
pub open spec fn spec_outcome(
    pat: Seq<char>,
    probe: Seq<char>,
    rep: Seq<char>,
    data: Seq<char>,
) -> PatchOutcome {
    let v = re_count(pat, data);
    let p = re_count(probe, data);
    if v == 0 && p == 0 {
        PatchOutcome::NotFound
    } else {
        let t1 = spec_probe_pass(probe, rep, data);
        let t2 = spec_replace_text(pat, probe, rep, data);
        let replaced1 = if p > 0 {
            spec_removed(p, re_count(probe, t1))
        } else {
            0
        };
        let replaced2 = if v > 0 {
            spec_removed(v, re_count(pat, t2))
        } else {
            0
        };
        if replaced1 == p && replaced2 == v {
            PatchOutcome::FullyPatched(sat_add(replaced1, replaced2) as usize)
        } else {
            PatchOutcome::PartiallyPatched(
                sat_add(replaced1, replaced2) as usize,
                sat_add(v, p) as usize,
            )
        }
    }
}

/// The two-pass replace over one slot: counts virgin and probe matches,
/// overwrites probe matches first, then virgin matches, and reports how
/// much of the expected work was done. A text where neither pattern
/// occurs is returned unchanged.
pub fn replace_in_data(data: &str, pattern: &str, replacement: &str, probe: &str) -> (r: Result<
    (String, PatchOutcome),
    PatchError,
>)
    ensures
        r is Ok <==> (re_compiles(pattern@) && re_compiles(probe@)),
        r is Err ==> r->Err_0 == PatchError::PatternError,
        r is Ok ==> r->Ok_0.0@ == spec_replace_text(pattern@, probe@, replacement@, data@),
        r is Ok ==> r->Ok_0.1 == spec_outcome(pattern@, probe@, replacement@, data@),
{
    let regex = regex_new(pattern)?;
    let probe_regex = regex_new(probe)?;

    let count = regex_count(&regex, data);
    let patched_count = regex_count(&probe_regex, data);

    if count == 0 && patched_count == 0 {
        return Ok((data.to_owned(), PatchOutcome::NotFound));
    }

    let mut result = data.to_owned();
    let mut replaced1: usize = 0;
    let mut replaced2: usize = 0;

    if patched_count > 0 {
        let new_result = regex_replace_all(&probe_regex, result.as_str(), replacement);
        let remaining = regex_count(&probe_regex, new_result.as_str());
        replaced1 = if remaining <= patched_count {
            patched_count - remaining
        } else {
            0
        };
        result = new_result;
    }

    if count > 0 {
        let new_result = regex_replace_all(&regex, result.as_str(), replacement);
        let remaining = regex_count(&regex, new_result.as_str());
        replaced2 = if remaining <= count {
            count - remaining
        } else {
            0
        };
        result = new_result;
    }

    let total = if replaced1 <= usize::MAX - replaced2 {
        replaced1 + replaced2
    } else {
        usize::MAX
    };
    let expected = if count <= usize::MAX - patched_count {
        count + patched_count
    } else {
        usize::MAX
    };
    let outcome = if replaced1 == patched_count && replaced2 == count {
        PatchOutcome::FullyPatched(total)
    } else {
        PatchOutcome::PartiallyPatched(total, expected)
    };
    Ok((result, outcome))
}

/// The virgin pattern of the machine-id slot.
pub open spec fn machine_id_pattern() -> Seq<char> {
    "=.{0,50}timeout.{0,10}5e3.*?,"@
}

/// The probe pattern of the machine-id slot.
pub open spec fn machine_id_probe() -> Seq<char> {
    "=/\\*csp1\\*/.*?/\\*1csp\\*/,"@
}

/// The replacement for the machine-id slot, wrapping the value in the
/// slot's sentinel comment pair.
pub open spec fn machine_id_template(v: Seq<char>) -> Seq<char> {
    "=/*csp1*/\""@ + v + "\"/*1csp*/,"@
}

/// The virgin pattern of the MAC-address slot.
pub open spec fn mac_pattern() -> Seq<char> {
    "(function .{0,50}\\{).{0,300}Unable to retrieve mac address.*?(\\})"@
}

/// The probe pattern of the MAC-address slot.
pub open spec fn mac_probe() -> Seq<char> {
    "()return/\\*csp2\\*/.*?/\\*2csp\\*/;()"@
}

/// The replacement for the MAC-address slot.
pub open spec fn mac_template(v: Seq<char>) -> Seq<char> {
    "$1 return/*csp2*/\""@ + v + "\"/*2csp*/; $2"@
}

/// The virgin pattern of the SQM-id slot.
pub open spec fn sqm_pattern() -> Seq<char> {
    "return.{0,50}\\.GetStringRegKey.*?HKEY_LOCAL_MACHINE.*?MachineId.*?\\|\\|.*?\"\""@
}

/// The probe pattern of the SQM-id slot.
pub open spec fn sqm_probe() -> Seq<char> {
    "return/\\*csp3\\*/.*?/\\*3csp\\*/"@
}

/// The replacement for the SQM-id slot.
pub open spec fn sqm_template(v: Seq<char>) -> Seq<char> {
    "return/*csp3*/\""@ + v + "\"/*3csp*/"@
}

/// The virgin pattern of the device-id slot.
pub open spec fn dev_id_pattern() -> Seq<char> {
    "return.{0,50}vscode/deviceid.*?getDeviceId\\(\\)"@
}

/// The probe pattern of the device-id slot.
pub open spec fn dev_id_probe() -> Seq<char> {
    "return/\\*csp4\\*/.*?/\\*4csp\\*/"@
}

/// The replacement for the device-id slot.
pub open spec fn dev_id_template(v: Seq<char>) -> Seq<char> {
    "return/*csp4*/\""@ + v + "\"/*4csp*/"@
}

/// The capture probe of the machine-id slot: group 1 is the inserted
/// value.
pub open spec fn machine_id_capture() -> Seq<char> {
    "/\\*csp1\\*/\"([^\"]*)\"/\\*1csp\\*/"@
}

/// The capture probe of the MAC-address slot.
pub open spec fn mac_capture() -> Seq<char> {
    "/\\*csp2\\*/\"([^\"]*)\"/\\*2csp\\*/"@
}

/// The capture probe of the SQM-id slot.
pub open spec fn sqm_capture() -> Seq<char> {
    "/\\*csp3\\*/\"([^\"]*)\"/\\*3csp\\*/"@
}

/// The capture probe of the device-id slot.
pub open spec fn dev_id_capture() -> Seq<char> {
    "/\\*csp4\\*/\"([^\"]*)\"/\\*4csp\\*/"@
}

/// The bundle text after patching all four slots in order: machine id,
/// MAC address, SQM id, device id.
pub open spec fn spec_bundle_patched(
    data: Seq<char>,
    machine: Seq<char>,
    mac: Seq<char>,
    sqm: Seq<char>,
    dev: Seq<char>,
) -> Seq<char> {
    let t1 = spec_replace_text(
        machine_id_pattern(),
        machine_id_probe(),
        machine_id_template(machine),
        data,
    );
    let t2 = spec_replace_text(mac_pattern(), mac_probe(), mac_template(mac), t1);
    let t3 = spec_replace_text(sqm_pattern(), sqm_probe(), sqm_template(sqm), t2);
    spec_replace_text(dev_id_pattern(), dev_id_probe(), dev_id_template(dev), t3)
}

/// Whether all eight slot regexes compile.
pub open spec fn slot_patterns_ok() -> bool {
    &&& re_compiles(machine_id_pattern())
    &&& re_compiles(machine_id_probe())
    &&& re_compiles(mac_pattern())
    &&& re_compiles(mac_probe())
    &&& re_compiles(sqm_pattern())
    &&& re_compiles(sqm_probe())
    &&& re_compiles(dev_id_pattern())
    &&& re_compiles(dev_id_probe())
}

fn build_template(prefix: &str, value: &str, suffix: &str) -> (r: String)
    ensures
        r@ == prefix@ + value@ + suffix@,
{
    let mut s = prefix.to_owned();
    s.append(value);
    s.append(suffix);
    proof {
        assert(s@ =~= prefix@ + value@ + suffix@);
    }
    s
}

/// What one `patch` call achieved, slot by slot.
#[derive(Clone, Copy, PartialEq, Eq, Structural, Debug)]
pub struct PatchReport {
    pub machine_id: PatchOutcome,
    pub mac_address: PatchOutcome,
    pub sqm_id: PatchOutcome,
    pub dev_device_id: PatchOutcome,
}

/// Which steps of a `patch` call the environment fails.
#[derive(Clone, Copy, PartialEq, Eq, Structural, Debug)]
pub struct PatchFaults {
    /// Copying the live bundle into a not-yet-existing backup.
    pub backup_copy: bool,
    /// Clearing the read-only bit on the live bundle.
    pub clear_readonly: bool,
    /// Writing the patched text back.
    pub write: bool,
}

impl PatchFaults {
    /// A plan on which every step succeeds.
    pub fn none() -> (r: PatchFaults)
        ensures
            r == (PatchFaults { backup_copy: false, clear_readonly: false, write: false }),
    {
        PatchFaults { backup_copy: false, clear_readonly: false, write: false }
    }
}

/// Whether a `patch` call runs to completion on this engine state and
/// plan.
pub open spec fn patch_ok(live: FileV, backup: FileV, f: PatchFaults) -> bool {
    &&& (backup.exists || (live.exists && !f.backup_copy))
    &&& live.exists
    &&& !f.clear_readonly
    &&& slot_patterns_ok()
    &&& !f.write
}

/// The error a failing `patch` call reports: which step fails first.
pub open spec fn spec_patch_error(live: FileV, backup: FileV, f: PatchFaults) -> PatchError {
    if !(backup.exists || (live.exists && !f.backup_copy)) {
        PatchError::IoError
    } else if !(live.exists && !f.clear_readonly) {
        PatchError::IoError
    } else if !slot_patterns_ok() {
        PatchError::PatternError
    } else {
        PatchError::IoError
    }
}

/// The per-slot report of a complete `patch` call over a starting text.
pub open spec fn spec_patch_report(
    data: Seq<char>,
    machine: Seq<char>,
    mac: Seq<char>,
    sqm: Seq<char>,
    dev: Seq<char>,
) -> PatchReport {
    let t1 = spec_replace_text(
        machine_id_pattern(),
        machine_id_probe(),
        machine_id_template(machine),
        data,
    );
    let t2 = spec_replace_text(mac_pattern(), mac_probe(), mac_template(mac), t1);
    let t3 = spec_replace_text(sqm_pattern(), sqm_probe(), sqm_template(sqm), t2);
    PatchReport {
        machine_id: spec_outcome(
            machine_id_pattern(),
            machine_id_probe(),
            machine_id_template(machine),
            data,
        ),
        mac_address: spec_outcome(mac_pattern(), mac_probe(), mac_template(mac), t1),
        sqm_id: spec_outcome(sqm_pattern(), sqm_probe(), sqm_template(sqm), t2),
        dev_device_id: spec_outcome(dev_id_pattern(), dev_id_probe(), dev_id_template(dev), t3),
    }
}

/// The four slot values read out of the bundle, and the bundle's path.
pub struct MainJsIds {
    pub machine_id: String,
    pub mac_machine_id: String,
    pub dev_device_id: String,
    pub sqm_id: String,
    pub js_path: String,
}

/// The bundle patch engine: the live bundle file, its backup slot, and the
/// in-memory copy of the bundle text.
pub struct Patcher {
    pub js_path: String,
    pub data: String,
    pub live: FileState,
    pub backup: FileState,
}

impl Patcher {
    /// Sets up the engine over a bundle file, loading its text. Fails with
    /// `BundleNotFoundError` exactly when the file does not exist.
    pub fn new(js_path: String, live: FileState, backup: FileState, read_fault: bool) -> (r:
        Result<Patcher, PatchError>)
        ensures
            r is Ok <==> (live@.exists && !read_fault),
            r is Err ==> (r->Err_0 == PatchError::BundleNotFoundError <==> !live@.exists),
            (r is Err && live@.exists) ==> r->Err_0 == PatchError::IoError,
            r is Ok ==> {
                let p = r->Ok_0;
                &&& p.js_path@ == js_path@
                &&& p.data@ == live@.content
                &&& p.live@ == live@
                &&& p.backup@ == backup@
            },
    {
        if !live.exists {
            return Err(PatchError::BundleNotFoundError);
        }
        let data = match crate::fsmodel::read_file(&live, read_fault) {
            Ok(d) => d,
            Err(_) => {
                return Err(PatchError::IoError);
            },
        };
        Ok(Patcher { js_path, data, live, backup })
    }

    /// The path of the bundle file.
    pub fn get_js_path(&self) -> (r: &String)
        ensures
            r@ == self.js_path@,
    {
        &self.js_path
    }

    /// A fresh MAC address outside the blocklist of known-invalid
    /// addresses.
    pub fn generate_mac_address() -> (r: String)
        ensures
            crate::idgen::is_mac_seq(r@),
            !crate::idgen::is_blocked_mac(r@),
    {
        crate::idgen::generate_mac_address()
    }

    /// Patches all four slots with the given values: backs the bundle up
    /// if no backup exists yet, clears the read-only bit, rewrites each
    /// slot in the in-memory text, writes the result back in one write,
    /// and keeps it as the new in-memory copy.
    pub fn patch_with(
        &mut self,
        machine_id: &str,
        mac_addr: &str,
        sqm_id: &str,
        dev_device_id: &str,
        faults: &PatchFaults,
    ) -> (r: Result<PatchReport, PatchError>)
        ensures
            r is Ok <==> patch_ok(old(self).live@, old(self).backup@, *faults),
            r is Err ==> r->Err_0 == spec_patch_error(
                old(self).live@,
                old(self).backup@,
                *faults,
            ),
            r is Ok ==> final(self).data@ == spec_bundle_patched(
                old(self).data@,
                machine_id@,
                mac_addr@,
                sqm_id@,
                dev_device_id@,
            ),
            r is Ok ==> r->Ok_0 == spec_patch_report(
                old(self).data@,
                machine_id@,
                mac_addr@,
                sqm_id@,
                dev_device_id@,
            ),
            r is Ok ==> final(self).live@ == (FileV {
                exists: true,
                readonly: false,
                content: final(self).data@,
            }),
            r is Ok ==> if old(self).backup@.exists {
                final(self).backup@ == old(self).backup@
            } else {
                final(self).backup@ == (FileV {
                    exists: true,
                    readonly: old(self).live@.readonly,
                    content: old(self).live@.content,
                })
            },
            r is Err ==> final(self).data@ == old(self).data@ && final(self).live@.content == old(
                self,
            ).live@.content,
            final(self).js_path@ == old(self).js_path@,
    {
        // back the original file up once, before the first mutation
        if !self.backup.exists {
            if let Err(_) = copy_file(&self.live, &mut self.backup, faults.backup_copy) {
                return Err(PatchError::IoError);
            }
        }
        // clear the read-only bit on the live bundle
        if let Err(_) = set_file_permissions(&mut self.live, false, faults.clear_readonly) {
            return Err(PatchError::IoError);
        }

        let t0 = self.data.clone();
        let rep1 = build_template("=/*csp1*/\"", machine_id, "\"/*1csp*/,");
        let (t1, o1) = match replace_in_data(
            t0.as_str(),
            "=.{0,50}timeout.{0,10}5e3.*?,",
            rep1.as_str(),
            "=/\\*csp1\\*/.*?/\\*1csp\\*/,",
        ) {
            Ok(x) => x,
            Err(e) => {
                return Err(e);
            },
        };
        let rep2 = build_template("$1 return/*csp2*/\"", mac_addr, "\"/*2csp*/; $2");
        let (t2, o2) = match replace_in_data(
            t1.as_str(),
            "(function .{0,50}\\{).{0,300}Unable to retrieve mac address.*?(\\})",
            rep2.as_str(),
            "()return/\\*csp2\\*/.*?/\\*2csp\\*/;()",
        ) {
            Ok(x) => x,
            Err(e) => {
                return Err(e);
            },
        };
        let rep3 = build_template("return/*csp3*/\"", sqm_id, "\"/*3csp*/");
        let (t3, o3) = match replace_in_data(
            t2.as_str(),
            "return.{0,50}\\.GetStringRegKey.*?HKEY_LOCAL_MACHINE.*?MachineId.*?\\|\\|.*?\"\"",
            rep3.as_str(),
            "return/\\*csp3\\*/.*?/\\*3csp\\*/",
        ) {
            Ok(x) => x,
            Err(e) => {
                return Err(e);
            },
        };
        let rep4 = build_template("return/*csp4*/\"", dev_device_id, "\"/*4csp*/");
        let (t4, o4) = match replace_in_data(
            t3.as_str(),
            "return.{0,50}vscode/deviceid.*?getDeviceId\\(\\)",
            rep4.as_str(),
            "return/\\*csp4\\*/.*?/\\*4csp\\*/",
        ) {
            Ok(x) => x,
            Err(e) => {
                return Err(e);
            },
        };

        if let Err(_) = write_file(&mut self.live, t4.as_str(), faults.write) {
            return Err(PatchError::IoError);
        }
        self.data = t4;
        Ok(PatchReport { machine_id: o1, mac_address: o2, sqm_id: o3, dev_device_id: o4 })
    }

    /// Patches all four slots, generating a fresh value for every slot
    /// that is not supplied: a UUID for the machine and device ids, a
    /// non-blocklisted MAC address, and a brace-wrapped upper-case UUID
    /// for the SQM id.
    pub fn patch(
        &mut self,
        machine_id: Option<String>,
        mac_addr: Option<String>,
        sqm_id: Option<String>,
        dev_device_id: Option<String>,
        faults: &PatchFaults,
    ) -> (r: Result<PatchReport, PatchError>)
        ensures
            r is Ok <==> patch_ok(old(self).live@, old(self).backup@, *faults),
            r is Err ==> r->Err_0 == spec_patch_error(
                old(self).live@,
                old(self).backup@,
                *faults,
            ),
            r is Ok ==> exists|m: Seq<char>, mc: Seq<char>, s: Seq<char>, d: Seq<char>|
                {
                    &&& (machine_id is Some ==> m == machine_id->0@)
                    &&& (machine_id is None ==> crate::idgen::is_uuid_seq(m))
                    &&& (mac_addr is Some ==> mc == mac_addr->0@)
                    &&& (mac_addr is None ==> crate::idgen::is_mac_seq(mc)
                        && !crate::idgen::is_blocked_mac(mc))
                    &&& (sqm_id is Some ==> s == sqm_id->0@)
                    &&& (sqm_id is None ==> crate::idgen::is_sqm_id_seq(s))
                    &&& (dev_device_id is Some ==> d == dev_device_id->0@)
                    &&& (dev_device_id is None ==> crate::idgen::is_uuid_seq(d))
                    &&& final(self).data@ == spec_bundle_patched(old(self).data@, m, mc, s, d)
                },
            r is Ok ==> final(self).live@ == (FileV {
                exists: true,
                readonly: false,
                content: final(self).data@,
            }),
            r is Ok ==> if old(self).backup@.exists {
                final(self).backup@ == old(self).backup@
            } else {
                final(self).backup@ == (FileV {
                    exists: true,
                    readonly: old(self).live@.readonly,
                    content: old(self).live@.content,
                })
            },
            r is Err ==> final(self).data@ == old(self).data@,
            final(self).js_path@ == old(self).js_path@,
    {
        let m = match machine_id {
            Some(v) => v,
            None => crate::idgen::generate_uuid(),
        };
        let mc = match mac_addr {
            Some(v) => v,
            None => generate_mac_address(),
        };
        let s = match sqm_id {
            Some(v) => v,
            None => crate::idgen::generate_sqm_id(),
        };
        let d = match dev_device_id {
            Some(v) => v,
            None => crate::idgen::generate_uuid(),
        };
        self.patch_with(m.as_str(), mc.as_str(), s.as_str(), d.as_str(), faults)
    }

    /// The value a capture probe finds in the in-memory text, or the
    /// empty sequence when the probe is absent.
    pub open spec fn spec_captured_or_empty(cap: Seq<char>, data: Seq<char>) -> Seq<char> {
        match re_capture1(cap, data) {
            Some(v) => v,
            None => Seq::empty(),
        }
    }

    fn captured_or_empty(&self, cap: &str) -> (r: Result<String, PatchError>)
        ensures
            r is Ok <==> re_compiles(cap@),
            r is Ok ==> r->Ok_0@ == Self::spec_captured_or_empty(cap@, self.data@),
    {
        let re = match regex_new(cap) {
            Ok(re) => re,
            Err(e) => {
                return Err(e);
            },
        };
        match regex_capture1(&re, self.data.as_str()) {
            Some(v) => Ok(v),
            None => Ok(String::new()),
        }
    }

    /// Extracts the four slot values from the in-memory text by their
    /// capture probes, in the order machine id, MAC address, device id,
    /// SQM id; a slot whose probe is absent yields the empty string.
    pub fn get_current_ids(&self) -> (r: Result<(String, String, String, String), PatchError>)
        ensures
            r is Ok <==> (re_compiles(machine_id_capture()) && re_compiles(mac_capture())
                && re_compiles(sqm_capture()) && re_compiles(dev_id_capture())),
            r is Ok ==> {
                let (m, mc, d, s) = r->Ok_0;
                &&& m@ == Self::spec_captured_or_empty(machine_id_capture(), self.data@)
                &&& mc@ == Self::spec_captured_or_empty(mac_capture(), self.data@)
                &&& d@ == Self::spec_captured_or_empty(dev_id_capture(), self.data@)
                &&& s@ == Self::spec_captured_or_empty(sqm_capture(), self.data@)
            },
    {
        let machine_id = match self.captured_or_empty("/\\*csp1\\*/\"([^\"]*)\"/\\*1csp\\*/") {
            Ok(v) => v,
            Err(e) => {
                return Err(e);
            },
        };
        let mac_machine_id = match self.captured_or_empty("/\\*csp2\\*/\"([^\"]*)\"/\\*2csp\\*/") {
            Ok(v) => v,
            Err(e) => {
                return Err(e);
            },
        };
        let sqm_id = match self.captured_or_empty("/\\*csp3\\*/\"([^\"]*)\"/\\*3csp\\*/") {
            Ok(v) => v,
            Err(e) => {
                return Err(e);
            },
        };
        let dev_device_id = match self.captured_or_empty("/\\*csp4\\*/\"([^\"]*)\"/\\*4csp\\*/") {
            Ok(v) => v,
            Err(e) => {
                return Err(e);
            },
        };
        Ok((machine_id, mac_machine_id, dev_device_id, sqm_id))
    }

    /// The four slot values and the bundle path in one scan.
    pub fn get_mainjs_ids(&self) -> (r: Result<MainJsIds, PatchError>)
        ensures
            r is Ok <==> (re_compiles(machine_id_capture()) && re_compiles(mac_capture())
                && re_compiles(sqm_capture()) && re_compiles(dev_id_capture())),
            r is Ok ==> {
                let ids = r->Ok_0;
                &&& ids.machine_id@ == Self::spec_captured_or_empty(
                    machine_id_capture(),
                    self.data@,
                )
                &&& ids.mac_machine_id@ == Self::spec_captured_or_empty(mac_capture(), self.data@)
                &&& ids.dev_device_id@ == Self::spec_captured_or_empty(
                    dev_id_capture(),
                    self.data@,
                )
                &&& ids.sqm_id@ == Self::spec_captured_or_empty(sqm_capture(), self.data@)
                &&& ids.js_path@ == self.js_path@
            },
    {
        let (machine_id, mac_machine_id, dev_device_id, sqm_id) = match self.get_current_ids() {
            Ok(t) => t,
            Err(e) => {
                return Err(e);
            },
        };
        Ok(
            MainJsIds {
                machine_id,
                mac_machine_id,
                dev_device_id,
                sqm_id,
                js_path: self.js_path.clone(),
            },
        )
    }

    /// Backs the bundle up: removes any previous backup, copies the live
    /// bundle into the backup slot and write-protects the copy. The live
    /// file and the in-memory text are never touched.
    pub fn backup(&mut self, faults: &crate::store::BackupFaults) -> (r: Result<(), PatchError>)
        ensures
            r is Ok <==> (!(old(self).backup@.exists && faults.remove_old) && old(
                self,
            ).live@.exists && !faults.copy && !faults.protect),
            r is Ok ==> final(self).backup@ == (FileV {
                exists: true,
                readonly: true,
                content: old(self).live@.content,
            }),
            r is Err ==> r->Err_0 == PatchError::IoError,
            final(self).live@ == old(self).live@,
            final(self).data@ == old(self).data@,
            final(self).js_path@ == old(self).js_path@,
    {
        if let Err(_) = remove_file_if_exists(&mut self.backup, faults.remove_old) {
            return Err(PatchError::IoError);
        }
        if let Err(_) = copy_file(&self.live, &mut self.backup, faults.copy) {
            return Err(PatchError::IoError);
        }
        if let Err(_) = set_file_permissions(&mut self.backup, true, faults.protect) {
            return Err(PatchError::IoError);
        }
        Ok(())
    }

    /// Restores the bundle from its backup. Fails with
    /// `BackupMissingError` exactly when no backup exists. The in-memory
    /// text keeps the pre-restore content, as the engine reloads only on
    /// construction.
    pub fn restore(&mut self, faults: &crate::store::RestoreFaults) -> (r: Result<
        (),
        PatchError,
    >)
        ensures
            r is Ok <==> (old(self).backup@.exists && !(old(self).live@.exists
                && faults.remove_live) && !faults.copy),
            r is Err ==> (r->Err_0 == PatchError::BackupMissingError <==> !old(
                self,
            ).backup@.exists),
            (r is Err && old(self).backup@.exists) ==> r->Err_0 == PatchError::IoError,
            r is Ok ==> final(self).live@ == (FileV {
                exists: true,
                readonly: old(self).backup@.readonly,
                content: old(self).backup@.content,
            }),
            final(self).backup@ == old(self).backup@,
            final(self).data@ == old(self).data@,
            final(self).js_path@ == old(self).js_path@,
    {
        if !self.backup.exists {
            return Err(PatchError::BackupMissingError);
        }
        if let Err(_) = remove_file_if_exists(&mut self.live, faults.remove_live) {
            return Err(PatchError::IoError);
        }
        if let Err(_) = copy_file(&self.backup, &mut self.live, faults.copy) {
            return Err(PatchError::IoError);
        }
        Ok(())
    }

    /// Copies the backup over the live bundle if a backup exists; without
    /// a backup this does nothing and succeeds.
    pub fn restore_original(&mut self, fault: bool) -> (r: Result<(), PatchError>)
        ensures
            r is Ok <==> (!old(self).backup@.exists || !fault),
            r is Ok ==> if old(self).backup@.exists {
                final(self).live@ == (FileV {
                    exists: true,
                    readonly: old(self).backup@.readonly,
                    content: old(self).backup@.content,
                })
            } else {
                final(self).live@ == old(self).live@
            },
            r is Err ==> final(self).live@ == old(self).live@,
            r is Err ==> r->Err_0 == PatchError::IoError,
            final(self).backup@ == old(self).backup@,
            final(self).data@ == old(self).data@,
    {
        if self.backup.exists {
            if let Err(_) = copy_file(&self.backup, &mut self.live, fault) {
                return Err(PatchError::IoError);
            }
        }
        Ok(())
    }
}

} // verus!
