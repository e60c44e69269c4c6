//! JSON objects whose values are all strings, as the queue carries them.
use vstd::prelude::*;

verus! {

/// A JSON object of string values, as a map from key to value.
pub type FieldMap = Map<Seq<char>, Seq<char>>;

/// Key/value string pairs, in the order a JSON object lists them.
pub type FieldList = Vec<(String, String)>;

/// The view of a list of key/value string pairs.
pub open spec fn pairs_view(v: Seq<(String, String)>) -> Seq<(Seq<char>, Seq<char>)> {
    v.map_values(|p: (String, String)| (p.0@, p.1@))
}

/// No key occurs twice.
pub open spec fn keys_distinct(s: Seq<(Seq<char>, Seq<char>)>) -> bool {
    forall|i: int, j: int| 0 <= i < j < s.len() ==> s[i].0 != s[j].0
}

/// The map that a list of pairs with distinct keys stands for.
pub open spec fn pairs_map(s: Seq<(Seq<char>, Seq<char>)>) -> FieldMap
    decreases s.len(),
{
    if s.len() == 0 {
        Map::empty()
    } else {
        pairs_map(s.drop_last()).insert(s.last().0, s.last().1)
    }
}

/// The bytes that serde_json writes for a JSON object of string values.
pub uninterp spec fn json_object_bytes(fields: FieldMap) -> Seq<u8>;

/// What serde_json reads from bytes as a JSON object of string values, or
/// `None` where the bytes are no such object.
pub uninterp spec fn json_string_object(bytes: Seq<u8>) -> Option<FieldMap>;

/// Relies on serde_json::to_vec on a `BTreeMap<String, String>`, which
/// writes the map as one JSON object and cannot fail for string keys.
#[verifier::external_body]
pub(crate) fn json_write_object(fields: &FieldList) -> (r: Vec<u8>)
    requires
        keys_distinct(pairs_view(fields@)),
    ensures
        r@ == json_object_bytes(pairs_map(pairs_view(fields@))),
{
    let map: std::collections::BTreeMap<String, String> = fields.iter().cloned().collect();
    serde_json::to_vec(&map).unwrap_or_default()
}

/// Relies on serde_json::from_slice into a `BTreeMap<String, String>`: it
/// accepts a JSON object whose values are all strings, keeps one value per
/// key, and reads back exactly the map that serde_json::to_vec wrote.
#[verifier::external_body]
pub(crate) fn json_read_object(bytes: &[u8]) -> (r: Option<FieldList>)
    ensures
        r is None <==> json_string_object(bytes@) is None,
        r matches Some(v) ==> keys_distinct(pairs_view(v@)),
        r matches Some(v) ==> json_string_object(bytes@) == Some(pairs_map(pairs_view(v@))),
        forall|m: FieldMap| #[trigger] json_object_bytes(m) == bytes@ && m.dom().finite() ==> r is Some && pairs_map(pairs_view(r->0@)) == m,
{
    match serde_json::from_slice::<std::collections::BTreeMap<String, String>>(bytes) {
        Ok(map) => Some(map.into_iter().collect()),
        Err(_) => None,
    }
}

/// A list of pairs with distinct keys holds the key at `i` with its value.
pub proof fn lemma_pairs_map_index(s: Seq<(Seq<char>, Seq<char>)>, i: int)
    requires
        keys_distinct(s),
        0 <= i < s.len(),
    ensures
        pairs_map(s).contains_key(s[i].0),
        pairs_map(s)[s[i].0] == s[i].1,
    decreases s.len(),
{
    if i < s.len() - 1 {
        lemma_pairs_map_index(s.drop_last(), i);
    }
}

/// A key is in the map of a list of pairs only where some pair holds it.
pub proof fn lemma_pairs_map_has_key(s: Seq<(Seq<char>, Seq<char>)>, k: Seq<char>)
    requires
        pairs_map(s).contains_key(k),
    ensures
        exists|i: int| 0 <= i < s.len() && s[i].0 == k,
    decreases s.len(),
{
    if s.last().0 != k {
        lemma_pairs_map_has_key(s.drop_last(), k);
        let i = choose|i: int| 0 <= i < s.len() - 1 && s.drop_last()[i].0 == k;
        assert(s[i].0 == k);
    }
}

/// The value under `key` in a list of pairs with distinct keys.
pub fn find_field(fields: &FieldList, key: &String) -> (r: Option<String>)
    requires
        keys_distinct(pairs_view(fields@)),
    ensures
        r is Some <==> pairs_map(pairs_view(fields@)).contains_key(key@),
        r matches Some(v) ==> pairs_map(pairs_view(fields@))[key@] == v@,
{
    let ghost s = pairs_view(fields@);
    let mut i: usize = 0;
    while i < fields.len()
        invariant
            s == pairs_view(fields@),
            keys_distinct(s),
            i <= fields.len(),
            forall|j: int| 0 <= j < i ==> s[j].0 != key@,
        decreases fields.len() - i,
    {
        if fields[i].0 == *key {
            proof {
                lemma_pairs_map_index(s, i as int);
            }
            return Some(fields[i].1.clone());
        }
        i += 1;
    }
    proof {
        if pairs_map(s).contains_key(key@) {
            lemma_pairs_map_has_key(s, key@);
        }
    }
    None
}

} // verus!
