//! The manifest model and value extraction.
//!
//! A manifest maps logical keys to per-environment values. A stored value can
//! be of any JSON kind, but only a string value is meaningful: every other
//! kind, like a missing key or a missing environment sub-key, extracts as the
//! empty string. Extraction is pure and total over the whole model.

use vstd::prelude::*;
use crate::environment::{Environment, spec_env_name};

verus! {

/// One JSON value kind stored under an environment sub-key. Only the text
/// kind carries content that extraction reads; the other kinds are retained
/// so that the collapse of non-string values is an explicit, total match.
pub enum JsonLeaf {
    Text(String),
    Null,
    Boolean(bool),
    Number,
    Array,
    Object,
}

/// One environment sub-key of a manifest entry with its stored value.
pub struct EnvValue {
    pub name: String,
    pub value: JsonLeaf,
}

/// One top-level manifest entry: a logical key with its per-environment
/// values.
pub struct ManifestEntry {
    pub key: String,
    pub values: Vec<EnvValue>,
}

/// The parsed manifest: a mapping from logical keys to per-environment
/// values. Lookup takes the first entry with a matching key, which agrees
/// with map semantics whenever keys are unique.
pub struct Manifest {
    pub entries: Vec<ManifestEntry>,
}

/// The string a leaf extracts as: the text of a string value, and the empty
/// sequence for every other kind.
pub open spec fn spec_leaf_text(leaf: JsonLeaf) -> Seq<char> {
    match leaf {
        JsonLeaf::Text(s) => s@,
        JsonLeaf::Null => Seq::<char>::empty(),
        JsonLeaf::Boolean(_) => Seq::<char>::empty(),
        JsonLeaf::Number => Seq::<char>::empty(),
        JsonLeaf::Array => Seq::<char>::empty(),
        JsonLeaf::Object => Seq::<char>::empty(),
    }
}

/// The first value stored under `name`, if any.
pub open spec fn spec_find_value(values: Seq<EnvValue>, name: Seq<char>) -> Option<JsonLeaf>
    decreases values.len(),
{
    if values.len() == 0 {
        Option::None
    } else if values[0].name@ == name {
        Option::Some(values[0].value)
    } else {
        spec_find_value(values.skip(1), name)
    }
}

/// The per-environment values of the first entry with key `key`, if any.
pub open spec fn spec_find_key(entries: Seq<ManifestEntry>, key: Seq<char>) -> Option<
    Seq<EnvValue>,
>
    decreases entries.len(),
{
    if entries.len() == 0 {
        Option::None
    } else if entries[0].key@ == key {
        Option::Some(entries[0].values@)
    } else {
        spec_find_key(entries.skip(1), key)
    }
}

/// The string `extract` returns: the stored text when `key` is present, its
/// sub-mapping has the sub-key `env`, and the stored value is a string; the
/// empty sequence otherwise.
pub open spec fn spec_extract(m: Manifest, key: Seq<char>, env: Seq<char>) -> Seq<char> {
    match spec_find_key(m.entries@, key) {
        Option::Some(values) => match spec_find_value(values, env) {
            Option::Some(leaf) => spec_leaf_text(leaf),
            Option::None => Seq::<char>::empty(),
        },
        Option::None => Seq::<char>::empty(),
    }
}

/// Finds the first value stored under `name` among `values`.
fn find_value(values: &Vec<EnvValue>, name: &String) -> (r: Option<JsonLeaf>)
    ensures
        r == spec_find_value(values@, name@),
{
    let mut i: usize = 0;
    assert(values@.skip(0) =~= values@);
    while i < values.len()
        invariant
            i <= values@.len(),
            spec_find_value(values@, name@) == spec_find_value(values@.skip(i as int), name@),
        decreases values@.len() - i,
    {
        assert(values@.skip(i as int)[0] == values@[i as int]);
        if values[i].name == *name {
            return Option::Some(clone_leaf(&values[i].value));
        }
        assert(values@.skip(i as int).skip(1) =~= values@.skip(i as int + 1));
        i = i + 1;
    }
    assert(values@.skip(i as int).len() == 0);
    Option::None
}

/// Clones a leaf; the clone carries the same kind and text.
fn clone_leaf(leaf: &JsonLeaf) -> (r: JsonLeaf)
    ensures
        r == *leaf,
{
    match leaf {
        JsonLeaf::Text(s) => JsonLeaf::Text(s.clone()),
        JsonLeaf::Null => JsonLeaf::Null,
        JsonLeaf::Boolean(b) => JsonLeaf::Boolean(*b),
        JsonLeaf::Number => JsonLeaf::Number,
        JsonLeaf::Array => JsonLeaf::Array,
        JsonLeaf::Object => JsonLeaf::Object,
    }
}

/// Extracts the string stored in `m` under `key` for environment `env`.
///
/// Returns the stored text verbatim when the key is present, the
/// environment's name is present in its sub-mapping, and the stored value is
/// a string; returns the empty string in every other case. Never fails.
pub fn extract(m: &Manifest, key: &str, env: Environment) -> (r: String)
    ensures
        r@ == spec_extract(*m, key@, spec_env_name(env)),
{
    let key_owned: String = key.to_owned();
    let env_name: String = env.name();
    let mut i: usize = 0;
    assert(m.entries@.skip(0) =~= m.entries@);
    while i < m.entries.len()
        invariant
            i <= m.entries@.len(),
            key_owned@ == key@,
            env_name@ == spec_env_name(env),
            spec_find_key(m.entries@, key@) == spec_find_key(
                m.entries@.skip(i as int),
                key@,
            ),
        decreases m.entries@.len() - i,
    {
        assert(m.entries@.skip(i as int)[0] == m.entries@[i as int]);
        if m.entries[i].key == key_owned {
            let found = find_value(&m.entries[i].values, &env_name);
            match found {
                Option::Some(leaf) => {
                    return leaf_text(&leaf);
                },
                Option::None => {
                    return String::new();
                },
            }
        }
        assert(m.entries@.skip(i as int).skip(1) =~= m.entries@.skip(i as int + 1));
        i = i + 1;
    }
    assert(m.entries@.skip(i as int).len() == 0);
    String::new()
}

/// The string a leaf extracts as.
fn leaf_text(leaf: &JsonLeaf) -> (r: String)
    ensures
        r@ == spec_leaf_text(*leaf),
{
    match leaf {
        JsonLeaf::Text(s) => s.clone(),
        JsonLeaf::Null => String::new(),
        JsonLeaf::Boolean(_) => String::new(),
        JsonLeaf::Number => String::new(),
        JsonLeaf::Array => String::new(),
        JsonLeaf::Object => String::new(),
    }
}

/// A manifest that has no entry with key `key` extracts the empty string for
/// that key, whatever the environment.
pub proof fn lemma_extract_missing_key(m: Manifest, key: Seq<char>, env: Seq<char>)
    requires
        spec_find_key(m.entries@, key) is None,
    ensures
        spec_extract(m, key, env) == Seq::<char>::empty(),
{
}

/// A stored value of any non-string kind extracts as the empty string, just
/// as an absent one does.
pub proof fn lemma_extract_non_string(m: Manifest, key: Seq<char>, env: Seq<char>)
    requires
        match spec_find_key(m.entries@, key) {
            Option::Some(values) => match spec_find_value(values, env) {
                Option::Some(leaf) => !(leaf is Text),
                Option::None => true,
            },
            Option::None => true,
        },
    ensures
        spec_extract(m, key, env) == Seq::<char>::empty(),
{
}

} // verus!
