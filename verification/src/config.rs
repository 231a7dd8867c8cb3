//! The identity configuration: a JSON object held as an ordered list of
//! key/value entries, where each value is the canonical JSON text it was
//! parsed from. Rotation overlays the five identity keys and leaves every
//! other key untouched.

use vstd::prelude::*;

use crate::idgen::{
    generate_machine_id, generate_sqm_id, generate_uuid, is_machine_id_seq, is_sqm_id_seq,
    is_uuid_seq,
};
use crate::jsontext::{
    entries_canonical, entries_distinct, entries_map, entries_valid, find_entry, json_obj,
    json_quote, json_str_of, json_string_value, lemma_canon_map_of_canonical,
    lemma_entries_map_contains, lemma_entries_map_index, parse_object_entries,
    serialize_object_entries, upsert_entry, JsonError,
};
use crate::IdBundle;

verus! {

/// The five keys a rotation replaces.
pub open spec fn is_identity_key(k: Seq<char>) -> bool {
    ||| k == "machineId"@
    ||| k == "telemetry.machineId"@
    ||| k == "telemetry.macMachineId"@
    ||| k == "telemetry.devDeviceId"@
    ||| k == "telemetry.sqmId"@
}

/// A JSON identity configuration: entry order is kept, keys are distinct,
/// and every value text is valid, canonical JSON.
pub struct IdentityConfig {
    pub entries: Vec<(String, String)>,
}

impl IdentityConfig {
    /// Well-formedness: distinct keys; valid, canonical value texts.
    pub open spec fn wf(self) -> bool {
        &&& entries_distinct(self.entries@)
        &&& entries_valid(self.entries@)
        &&& entries_canonical(self.entries@)
    }

    /// The key/value map this configuration denotes.
    pub open spec fn map_view(self) -> Map<Seq<char>, Seq<char>> {
        entries_map(self.entries@)
    }

    /// An empty configuration.
    pub fn new() -> (r: Self)
        ensures
            r.wf(),
            r.map_view() == Map::<Seq<char>, Seq<char>>::empty(),
    {
        IdentityConfig { entries: Vec::new() }
    }

    /// Parses a JSON object text into a configuration.
    pub fn from_text(s: &str) -> (r: Result<Self, JsonError>)
        ensures
            r is Ok <==> json_obj(s@) is Some,
            r is Ok ==> r->Ok_0.wf(),
            r is Ok ==> r->Ok_0.map_view() == json_obj(s@)->0,
    {
        match parse_object_entries(s) {
            Ok(es) => Ok(IdentityConfig { entries: es }),
            Err(e) => Err(e),
        }
    }

    /// Serializes the configuration back to a JSON object text denoting
    /// exactly this map.
    pub fn to_text(&self) -> (r: String)
        requires
            self.wf(),
        ensures
            json_obj(r@) == Some(self.map_view()),
    {
        match serialize_object_entries(&self.entries) {
            Ok(s) => {
                proof {
                    lemma_canon_map_of_canonical(self.entries@);
                }
                s
            },
            Err(_) => {
                proof {
                    assert(false);
                }
                String::new()
            },
        }
    }

    /// Whether the configuration holds the key.
    pub fn contains_key(&self, key: &str) -> (r: bool)
        ensures
            r <==> self.map_view().contains_key(key@),
    {
        proof {
            lemma_entries_map_contains(self.entries@, key@);
        }
        find_entry(&self.entries, key).is_some()
    }

    /// The raw (canonical JSON) value text stored under a key.
    pub fn get_value_text(&self, key: &str) -> (r: Option<String>)
        requires
            self.wf(),
        ensures
            r is Some <==> self.map_view().contains_key(key@),
            r is Some ==> r->0@ == self.map_view()[key@],
    {
        proof {
            lemma_entries_map_contains(self.entries@, key@);
        }
        match find_entry(&self.entries, key) {
            Some(i) => {
                proof {
                    lemma_entries_map_index(self.entries@, i as int);
                }
                Some(self.entries[i].1.clone())
            },
            None => None,
        }
    }

    /// The string value stored under a key, when the stored value text is a
    /// JSON string literal; `None` when the key is absent or the value is
    /// not a string.
    pub fn get_string_key(&self, key: &str) -> (r: Option<String>)
        requires
            self.wf(),
        ensures
            r is Some <==> (self.map_view().contains_key(key@) && json_str_of(
                self.map_view()[key@],
            ) is Some),
            r is Some ==> Some(r->0@) == json_str_of(self.map_view()[key@]),
    {
        match self.get_value_text(key) {
            Some(t) => json_string_value(t.as_str()),
            None => None,
        }
    }

    /// Stores a string value under a key: the key now maps to a JSON string
    /// literal denoting `val`, and every other key keeps its value.
    pub fn set_string_key(&mut self, key: &str, val: &str)
        requires
            old(self).wf(),
        ensures
            final(self).wf(),
            final(self).map_view().dom() =~= old(self).map_view().dom().insert(key@),
            final(self).map_view().contains_key(key@),
            json_str_of(final(self).map_view()[key@]) == Some(val@),
            forall|k: Seq<char>|
                k != key@ && old(self).map_view().contains_key(k) ==> final(self).map_view()[k] == old(self).map_view()[k],
    {
        let quoted = json_quote(val);
        upsert_entry(&mut self.entries, key, quoted.as_str());
    }

    /// Overlays a freshly generated identity bundle: exactly the five
    /// identity keys are replaced, every other key is preserved.
    pub fn apply_update(&mut self, ids: &IdBundle)
        requires
            old(self).wf(),
        ensures
            final(self).wf(),
            final(self).map_view().dom() =~= old(self).map_view().dom().insert("machineId"@)
                .insert("telemetry.machineId"@).insert("telemetry.macMachineId"@).insert(
                "telemetry.devDeviceId"@,
            ).insert("telemetry.sqmId"@),
            forall|k: Seq<char>|
                !is_identity_key(k) && old(self).map_view().contains_key(k) ==> final(self).map_view()[k] == old(self).map_view()[k],
            json_str_of(final(self).map_view()["machineId"@]) == Some(ids.machine_id@),
            json_str_of(final(self).map_view()["telemetry.machineId"@]) == Some(
                ids.telemetry_machine_id@,
            ),
            json_str_of(final(self).map_view()["telemetry.macMachineId"@]) == Some(
                ids.mac_machine_id@,
            ),
            json_str_of(final(self).map_view()["telemetry.devDeviceId"@]) == Some(
                ids.dev_device_id@,
            ),
            json_str_of(final(self).map_view()["telemetry.sqmId"@]) == Some(ids.sqm_id@),
    {
        proof {
            reveal_strlit("machineId");
            reveal_strlit("telemetry.machineId");
            reveal_strlit("telemetry.macMachineId");
            reveal_strlit("telemetry.devDeviceId");
            reveal_strlit("telemetry.sqmId");
            assert("machineId"@.len() == 9);
            assert("telemetry.machineId"@.len() == 19);
            assert("telemetry.macMachineId"@.len() == 22);
            assert("telemetry.devDeviceId"@.len() == 21);
            assert("telemetry.sqmId"@.len() == 15);
        }
        self.set_string_key("machineId", ids.machine_id.as_str());
        self.set_string_key("telemetry.machineId", ids.telemetry_machine_id.as_str());
        self.set_string_key("telemetry.macMachineId", ids.mac_machine_id.as_str());
        self.set_string_key("telemetry.devDeviceId", ids.dev_device_id.as_str());
        self.set_string_key("telemetry.sqmId", ids.sqm_id.as_str());
    }
}

/// A freshly generated identity bundle: hex machine ids, a UUID device id,
/// and a brace-wrapped upper-case SQM id.
pub fn generate_id_bundle() -> (r: IdBundle)
    ensures
        is_machine_id_seq(r.machine_id@),
        is_machine_id_seq(r.telemetry_machine_id@),
        is_machine_id_seq(r.mac_machine_id@),
        is_uuid_seq(r.dev_device_id@),
        is_sqm_id_seq(r.sqm_id@),
{
    IdBundle {
        machine_id: generate_machine_id(),
        telemetry_machine_id: generate_machine_id(),
        mac_machine_id: generate_machine_id(),
        dev_device_id: generate_uuid(),
        sqm_id: generate_sqm_id(),
    }
}

/// Whether a config map carries the five identity keys with values of the
/// right shapes: hex machine ids, a UUID device id, a brace-wrapped
/// upper-case SQM id.
pub open spec fn has_fresh_identity_keys(m: Map<Seq<char>, Seq<char>>) -> bool {
    &&& m.contains_key("machineId"@) && json_str_of(m["machineId"@]) is Some
        && is_machine_id_seq(json_str_of(m["machineId"@])->0)
    &&& m.contains_key("telemetry.machineId"@) && json_str_of(m["telemetry.machineId"@]) is Some
        && is_machine_id_seq(json_str_of(m["telemetry.machineId"@])->0)
    &&& m.contains_key("telemetry.macMachineId"@) && json_str_of(
        m["telemetry.macMachineId"@],
    ) is Some && is_machine_id_seq(json_str_of(m["telemetry.macMachineId"@])->0)
    &&& m.contains_key("telemetry.devDeviceId"@) && json_str_of(
        m["telemetry.devDeviceId"@],
    ) is Some && is_uuid_seq(json_str_of(m["telemetry.devDeviceId"@])->0)
    &&& m.contains_key("telemetry.sqmId"@) && json_str_of(m["telemetry.sqmId"@]) is Some
        && is_sqm_id_seq(json_str_of(m["telemetry.sqmId"@])->0)
}

/// A default configuration holding exactly the five identity keys, each
/// freshly generated.
pub fn generate_default_machine_config() -> (r: IdentityConfig)
    ensures
        r.wf(),
        has_fresh_identity_keys(r.map_view()),
        forall|k: Seq<char>| r.map_view().contains_key(k) ==> is_identity_key(k),
{
    let ids = generate_id_bundle();
    let mut cfg = IdentityConfig::new();
    cfg.apply_update(&ids);
    cfg
}

} // verus!
