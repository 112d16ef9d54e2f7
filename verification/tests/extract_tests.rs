use env_file_generator::environment::Environment;
use env_file_generator::manifest::{extract, EnvValue, JsonLeaf, Manifest, ManifestEntry};

fn manifest_with(key: &str, env_name: &str, value: JsonLeaf) -> Manifest {
    Manifest {
        entries: vec![ManifestEntry {
            key: key.to_string(),
            values: vec![EnvValue {
                name: env_name.to_string(),
                value,
            }],
        }],
    }
}

#[test]
fn extract_returns_stored_string_verbatim() {
    let m = manifest_with("k", "development", JsonLeaf::Text("X".to_string()));
    assert_eq!(extract(&m, "k", Environment::Development), "X");
}

#[test]
fn extract_missing_key_is_empty() {
    let m = manifest_with("other", "development", JsonLeaf::Text("X".to_string()));
    assert_eq!(extract(&m, "k", Environment::Development), "");
    assert_eq!(extract(&m, "k", Environment::Local), "");
    assert_eq!(extract(&m, "k", Environment::Staging), "");
    assert_eq!(extract(&m, "k", Environment::Production), "");
}

#[test]
fn extract_from_empty_manifest_is_empty() {
    let m = Manifest { entries: vec![] };
    assert_eq!(extract(&m, "k", Environment::Development), "");
}

#[test]
fn extract_missing_environment_sub_key_is_empty() {
    let m = manifest_with("k", "staging", JsonLeaf::Text("X".to_string()));
    assert_eq!(extract(&m, "k", Environment::Development), "");
    assert_eq!(extract(&m, "k", Environment::Staging), "X");
}

#[test]
fn extract_number_value_is_empty() {
    let m = manifest_with("k", "development", JsonLeaf::Number);
    assert_eq!(extract(&m, "k", Environment::Development), "");
}

#[test]
fn extract_collapses_every_non_string_kind() {
    for leaf in [
        JsonLeaf::Null,
        JsonLeaf::Boolean(true),
        JsonLeaf::Boolean(false),
        JsonLeaf::Number,
        JsonLeaf::Array,
        JsonLeaf::Object,
    ] {
        let m = manifest_with("k", "development", leaf);
        assert_eq!(extract(&m, "k", Environment::Development), "");
    }
}

#[test]
fn extract_empty_string_value_stays_empty() {
    let m = manifest_with("k", "development", JsonLeaf::Text(String::new()));
    assert_eq!(extract(&m, "k", Environment::Development), "");
}

#[test]
fn extract_takes_first_matching_key() {
    let m = Manifest {
        entries: vec![
            ManifestEntry {
                key: "k".to_string(),
                values: vec![EnvValue {
                    name: "development".to_string(),
                    value: JsonLeaf::Text("first".to_string()),
                }],
            },
            ManifestEntry {
                key: "k".to_string(),
                values: vec![EnvValue {
                    name: "development".to_string(),
                    value: JsonLeaf::Text("second".to_string()),
                }],
            },
        ],
    };
    assert_eq!(extract(&m, "k", Environment::Development), "first");
}
