//! The JSON text boundary. A JSON object text is modelled as a map from its
//! keys to the canonical (compact) serialization of each value; the names
//! below stand for what serde_json computes and the trusted wrappers state
//! how the calls relate to them.

use vstd::prelude::*;

verus! {

/// The object a JSON text denotes, if the text is a valid JSON object:
/// each key mapped to the canonical compact serialization of its value.
pub uninterp spec fn json_obj(s: Seq<char>) -> Option<Map<Seq<char>, Seq<char>>>;

/// Whether a text is valid JSON (any value, not only an object).
pub uninterp spec fn json_valid(s: Seq<char>) -> bool;

/// The canonical compact serialization of the value a valid JSON text
/// denotes.
pub uninterp spec fn json_canon(s: Seq<char>) -> Seq<char>;

/// The string a JSON string literal denotes; `None` for any other text.
pub uninterp spec fn json_str_of(s: Seq<char>) -> Option<Seq<char>>;

/// A JSON parse or serialization failure.
#[derive(Clone, Copy, PartialEq, Eq, Structural, Debug)]
pub struct JsonError;

/// The key/value map described by an entry list; a repeated key keeps the
/// later value.
pub open spec fn entries_map(es: Seq<(String, String)>) -> Map<Seq<char>, Seq<char>>
    decreases es.len(),
{
    if es.len() == 0 {
        Map::empty()
    } else {
        entries_map(es.drop_last()).insert(es.last().0@, es.last().1@)
    }
}

/// As `entries_map`, with every value text canonicalized.
pub open spec fn entries_canon_map(es: Seq<(String, String)>) -> Map<Seq<char>, Seq<char>>
    decreases es.len(),
{
    if es.len() == 0 {
        Map::empty()
    } else {
        entries_canon_map(es.drop_last()).insert(es.last().0@, json_canon(es.last().1@))
    }
}

/// Every value text in the entry list is valid JSON.
pub open spec fn entries_valid(es: Seq<(String, String)>) -> bool {
    forall|i: int| 0 <= i < es.len() ==> json_valid((#[trigger] es[i]).1@)
}

/// Every value text in the entry list is already canonical.
pub open spec fn entries_canonical(es: Seq<(String, String)>) -> bool {
    forall|i: int| 0 <= i < es.len() ==> json_canon((#[trigger] es[i]).1@) == (es[i]).1@
}

/// The entry keys are pairwise distinct.
pub open spec fn entries_distinct(es: Seq<(String, String)>) -> bool {
    forall|i: int, j: int| 0 <= i < j < es.len() ==> (#[trigger] es[i]).0@ != (#[trigger] es[j]).0@
}

/// On a list of canonical value texts, canonicalizing changes nothing.
pub proof fn lemma_canon_map_of_canonical(es: Seq<(String, String)>)
    requires
        entries_canonical(es),
    ensures
        entries_canon_map(es) == entries_map(es),
    decreases es.len(),
{
    if es.len() > 0 {
        assert(entries_canonical(es.drop_last()));
        lemma_canon_map_of_canonical(es.drop_last());
        assert(es.last() == es[es.len() - 1]);
    }
}

/// The view of an entry list: each pair as its character sequences.
pub open spec fn view_entries(es: Seq<(String, String)>) -> Seq<(Seq<char>, Seq<char>)> {
    es.map_values(|p: (String, String)| (p.0@, p.1@))
}

/// A key is in the entry map exactly when some entry carries it.
pub proof fn lemma_entries_map_contains(es: Seq<(String, String)>, k: Seq<char>)
    ensures
        entries_map(es).contains_key(k) <==> exists|i: int|
            0 <= i < es.len() && (#[trigger] es[i]).0@ == k,
    decreases es.len(),
{
    if es.len() > 0 {
        lemma_entries_map_contains(es.drop_last(), k);
        if es.last().0@ == k {
            assert((es[es.len() - 1]).0@ == k);
        }
        if exists|i: int| 0 <= i < es.len() && (#[trigger] es[i]).0@ == k {
            let i = choose|i: int| 0 <= i < es.len() && (#[trigger] es[i]).0@ == k;
            if i < es.len() - 1 {
                assert((es.drop_last()[i]).0@ == k);
            }
        }
    }
}

/// With distinct keys, the map sends each entry's key to its value.
pub proof fn lemma_entries_map_index(es: Seq<(String, String)>, i: int)
    requires
        entries_distinct(es),
        0 <= i < es.len(),
    ensures
        entries_map(es).contains_key((es[i]).0@),
        entries_map(es)[(es[i]).0@] == (es[i]).1@,
    decreases es.len(),
{
    if i == es.len() - 1 {
    } else {
        assert(entries_distinct(es.drop_last()));
        assert((es.drop_last()[i]).0@ == (es[i]).0@);
        lemma_entries_map_index(es.drop_last(), i);
        assert((es.last()).0@ != (es[i]).0@);
    }
}

/// With distinct keys, replacing the entry that carries a key updates the
/// map at that key alone.
pub proof fn lemma_entries_map_update(es: Seq<(String, String)>, i: int, p: (String, String))
    requires
        entries_distinct(es),
        0 <= i < es.len(),
        (es[i]).0@ == p.0@,
    ensures
        entries_map(es.update(i, p)) =~= entries_map(es).insert(p.0@, p.1@),
    decreases es.len(),
{
    if i == es.len() - 1 {
        assert(es.update(i, p).drop_last() =~= es.drop_last());
        assert(es.update(i, p).last() == p);
    } else {
        assert(es.update(i, p).drop_last() =~= es.drop_last().update(i, p));
        assert(es.update(i, p).last() == es.last());
        assert(entries_distinct(es.drop_last()));
        assert((es.drop_last()[i]).0@ == (es[i]).0@);
        lemma_entries_map_update(es.drop_last(), i, p);
        assert((es.last()).0@ != p.0@);
    }
}

/// Finds the entry carrying a key, if any.
pub fn find_entry(rows: &Vec<(String, String)>, key: &str) -> (r: Option<usize>)
    ensures
        r is Some ==> 0 <= r->0 < rows@.len() && (rows@[r->0 as int]).0@ == key@,
        r is None ==> forall|i: int|
            0 <= i < rows@.len() ==> (#[trigger] rows@[i]).0@ != key@,
{
    let mut i: usize = 0;
    while i < rows.len()
        invariant
            0 <= i <= rows@.len(),
            forall|j: int| 0 <= j < i ==> (#[trigger] rows@[j]).0@ != key@,
        decreases rows@.len() - i,
    {
        if crate::textops::str_eq(rows[i].0.as_str(), key) {
            return Some(i);
        }
        i += 1;
    }
    None
}

/// Inserts or updates the entry carrying a key: afterwards the map sends
/// the key to the value and every other key is unchanged. Distinctness is
/// kept, and validity and canonicity are kept whenever the new value has
/// them.
pub fn upsert_entry(rows: &mut Vec<(String, String)>, key: &str, value: &str)
    requires
        entries_distinct(old(rows)@),
    ensures
        entries_distinct(final(rows)@),
        entries_map(final(rows)@) =~= entries_map(old(rows)@).insert(key@, value@),
        (entries_valid(old(rows)@) && json_valid(value@)) ==> entries_valid(final(rows)@),
        (entries_canonical(old(rows)@) && json_canon(value@) == value@) ==> entries_canonical(
            final(rows)@,
        ),
{
    let pos = find_entry(rows, key);
    proof {
        lemma_entries_map_contains(rows@, key@);
    }
    match pos {
        Some(i) => {
            let keyed = rows[i].0.clone();
            let valued = value.to_owned();
            let ghost old_es = rows@;
            rows.remove(i);
            rows.insert(i, (keyed, valued));
            proof {
                assert(rows@ =~= old_es.update(i as int, rows@[i as int]));
                lemma_entries_map_update(old_es, i as int, rows@[i as int]);
                assert forall|j: int, l: int| 0 <= j < l < rows@.len() implies (
                #[trigger] rows@[j]).0@ != (#[trigger] rows@[l]).0@ by {
                    assert((old_es[j]).0@ == (rows@[j]).0@);
                    assert((old_es[l]).0@ == (rows@[l]).0@);
                }
            }
        },
        None => {
            let keyed = key.to_owned();
            let valued = value.to_owned();
            let ghost old_es = rows@;
            rows.push((keyed, valued));
            proof {
                assert(rows@.drop_last() =~= old_es);
            }
        },
    }
}

/// Relies on serde_json::from_str for a top-level JSON object, and on
/// serde_json::to_string for each of its values: the entry list of the
/// object a JSON text denotes, values in canonical form, keys distinct
/// and in the order serde_json's map iterates them.
#[verifier::external_body]
pub fn parse_object_entries(s: &str) -> (r: Result<Vec<(String, String)>, JsonError>)
    ensures
        r is Ok <==> json_obj(s@) is Some,
        r is Ok ==> entries_map(r->Ok_0@) == json_obj(s@)->0,
        r is Ok ==> entries_distinct(r->Ok_0@),
        r is Ok ==> entries_valid(r->Ok_0@),
        r is Ok ==> entries_canonical(r->Ok_0@),
        r is Ok ==> forall|i: int|
            0 <= i < r->Ok_0@.len() ==> json_obj(s@)->0.contains_key(
                (#[trigger] r->Ok_0@[i]).0@,
            ),
{
    match serde_json::from_str::<serde_json::Map<String, serde_json::Value>>(s) {
        Ok(m) => {
            let mut out: Vec<(String, String)> = Vec::new();
            for (k, v) in m {
                out.push((k, serde_json::to_string(&v).unwrap_or_default()));
            }
            Ok(out)
        },
        Err(_) => Err(JsonError),
    }
}

/// Relies on serde_json::from_str on each value text and on
/// serde_json::to_string_pretty for the assembled object: a JSON object
/// text denoting exactly the map the entries describe.
#[verifier::external_body]
pub fn serialize_object_entries(e: &Vec<(String, String)>) -> (r: Result<String, JsonError>)
    ensures
        r is Ok <==> entries_valid(e@),
        r is Ok ==> json_obj(r->Ok_0@) == Some(entries_canon_map(e@)),
{
    let mut m = serde_json::Map::new();
    for (k, v) in e {
        match serde_json::from_str::<serde_json::Value>(v) {
            Ok(val) => {
                m.insert(k.clone(), val);
            },
            Err(_) => return Err(JsonError),
        }
    }
    Ok(serde_json::to_string_pretty(&serde_json::Value::Object(m)).unwrap_or_default())
}

/// Relies on serde_json::to_string of a string slice: a canonical JSON
/// string literal that parses back to the same string.
#[verifier::external_body]
pub fn json_quote(s: &str) -> (r: String)
    ensures
        json_valid(r@),
        json_canon(r@) == r@,
        json_str_of(r@) == Some(s@),
{
    serde_json::to_string(s).unwrap_or_default()
}

/// Relies on serde_json::from_str and serde_json::Value::as_str: the string
/// a JSON string literal denotes, `None` for any other text.
#[verifier::external_body]
pub fn json_string_value(t: &str) -> (r: Option<String>)
    ensures
        r is Some <==> json_str_of(t@) is Some,
        r is Some ==> r->0@ == json_str_of(t@)->0,
{
    match serde_json::from_str::<serde_json::Value>(t) {
        Ok(v) => v.as_str().map(|x| x.to_string()),
        Err(_) => None,
    }
}

} // verus!
