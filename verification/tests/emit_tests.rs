use env_file_generator::emit::{bool_to_str, usize_to_string, CanisterIds, ManagementIds};
use env_file_generator::environment::Environment;
use env_file_generator::generate::{generate_content, get_management_canister_id_by_environment};
use env_file_generator::manifest::{EnvValue, JsonLeaf, Manifest, ManifestEntry};
use env_file_generator::settings::generate_enviroment_settings;

fn group_controller_manifest() -> Manifest {
    Manifest {
        entries: vec![ManifestEntry {
            key: "group_controller".to_string(),
            values: vec![EnvValue {
                name: "development".to_string(),
                value: JsonLeaf::Text("canister-abc".to_string()),
            }],
        }],
    }
}

fn expected_banner() -> String {
    let mut s = String::new();
    s.push_str("\n/*\nThis file is automatically generated based on the environment set\n\n");
    s.push_str("File can be generated with the following commands:\n");
    s.push_str("    LOCAL: \"ENV=local cargo test --test generate\"\n");
    s.push_str("    DEVELOPMENT: \"ENV=development cargo test --test generate\"\n");
    s.push_str("    STAGING: \"ENV=staging cargo test --test generate\"\n");
    s.push_str("    PRODUCTION: \"ENV=production cargo test --test generate\"\n\n");
    s.push_str("    Note: If the local canister ids are not known yet, \n");
    s.push_str("    the \"dfx canister create --all --no-wallet\" command should be ran\n");
    s.push_str("    to generate the local canister ids (.dfx/local/canister_ids.json)\n*/");
    s
}

fn expected_development_output() -> String {
    let mut s = expected_banner();
    s.push_str("\n\n// These canisters are environment independent\n");
    s.push_str("pub const CYCLES_MANAGEMENT_CANISTER_ID: &str = \"\";\r");
    s.push_str("pub const DEVELOPMENT_MANAGEMENT_CANISTER_ID: &str = \"\";\r");
    s.push_str("pub const STAGING_MANAGEMENT_CANISTER_ID: &str = \"\";\r");
    s.push_str("pub const PRODUCTION_MANAGEMENT_CANISTER_ID: &str = \"\";\r");
    s.push_str("\n\n// These canisters are environment dependent\n");
    s.push_str("pub const GROUP_MANAGEMENT_CANISTER_ID: &str = \"\";\r");
    s.push_str("pub const MANAGEMENT_CANISTER_ID: &str = \"\";\r");
    s.push_str("pub const REPORT_CANISTER_ID: &str = \"\";\r");
    s.push_str("pub const STORAGE_MANAGEMENT_CANISTER_ID: &str = \"\";\r");
    s.push_str("pub const USER_CANISTER_ID: &str = \"\";\r");
    s.push_str("\n\n// These canisters are only used for the local deployment\n");
    s.push_str("pub const GROUP_CANISTER_ID: &str = \"canister-abc\";\r");
    s.push_str("pub const STORAGE_CANISTER_ID: &str = \"\";\r");
    s.push_str("\n\n// Settings to be specified per environment\n");
    s.push_str("pub const ENVIRONMENT: &str = \"development\";\r");
    s.push_str("pub const MAX_GROUP_CANISTERS: usize = 10;\r");
    s.push_str("pub const MAX_GROUP_CANISTERS_ENABLED: bool = true;\r");
    s.push_str("pub const MAX_STORAGE_CANISTERS: usize = 1;\r");
    s.push_str("pub const MAX_STORAGE_CANISTERS_ENABLED: bool = true;\r");
    s.push_str("pub const MAX_REGISTERED_USERS: usize = 500;\r");
    s.push_str("pub const MAX_REGISTERED_USERS_ENABLED: bool = true;\r");
    s
}

#[test]
fn decimal_rendering_is_exact() {
    assert_eq!(usize_to_string(0), "0");
    assert_eq!(usize_to_string(7), "7");
    assert_eq!(usize_to_string(10), "10");
    assert_eq!(usize_to_string(500), "500");
    assert_eq!(usize_to_string(12345), "12345");
    assert_eq!(usize_to_string(usize::MAX), usize::MAX.to_string());
}

#[test]
fn boolean_rendering_is_exact() {
    assert_eq!(bool_to_str(true), "true");
    assert_eq!(bool_to_str(false), "false");
}

#[test]
fn end_to_end_development_output() {
    let m = group_controller_manifest();
    let out = generate_content(&m, &m, Environment::Development);
    assert!(out.starts_with(&expected_banner()));
    assert_eq!(out, expected_development_output());
    assert_eq!(out.matches("pub const GROUP_CANISTER_ID").count(), 1);
    assert!(out.contains("pub const GROUP_CANISTER_ID: &str = \"canister-abc\";\r"));
}

#[test]
fn generation_is_idempotent() {
    let m = group_controller_manifest();
    let first = generate_content(&m, &m, Environment::Development);
    let second = generate_content(&m, &m, Environment::Development);
    assert_eq!(first.as_bytes(), second.as_bytes());

    let local_first = generate_content(&m, &m, Environment::Local);
    let local_second = generate_content(&m, &m, Environment::Local);
    assert_eq!(local_first.as_bytes(), local_second.as_bytes());
}

#[test]
fn to_content_renders_every_field_verbatim() {
    let ids = CanisterIds {
        cycles_management_controller: "cy".to_string(),
        group_controller: "gr".to_string(),
        group_management_controller: "gm".to_string(),
        management_controller: "ma".to_string(),
        report_controller: "re".to_string(),
        storage_controller: "st".to_string(),
        storage_management_controller: "sm".to_string(),
        user_controller: "us".to_string(),
    };
    let management = ManagementIds {
        development: "m-dev".to_string(),
        staging: "m-stg".to_string(),
        production: "m-prd".to_string(),
    };
    let settings = generate_enviroment_settings(Environment::Staging);
    let out = ids.to_content(&management, &settings);
    assert!(out.contains("pub const CYCLES_MANAGEMENT_CANISTER_ID: &str = \"cy\";\r"));
    assert!(out.contains("pub const DEVELOPMENT_MANAGEMENT_CANISTER_ID: &str = \"m-dev\";\r"));
    assert!(out.contains("pub const STAGING_MANAGEMENT_CANISTER_ID: &str = \"m-stg\";\r"));
    assert!(out.contains("pub const PRODUCTION_MANAGEMENT_CANISTER_ID: &str = \"m-prd\";\r"));
    assert!(out.contains("pub const GROUP_MANAGEMENT_CANISTER_ID: &str = \"gm\";\r"));
    assert!(out.contains("pub const MANAGEMENT_CANISTER_ID: &str = \"ma\";\r"));
    assert!(out.contains("pub const REPORT_CANISTER_ID: &str = \"re\";\r"));
    assert!(out.contains("pub const STORAGE_MANAGEMENT_CANISTER_ID: &str = \"sm\";\r"));
    assert!(out.contains("pub const USER_CANISTER_ID: &str = \"us\";\r"));
    assert!(out.contains("pub const GROUP_CANISTER_ID: &str = \"gr\";\r"));
    assert!(out.contains("pub const STORAGE_CANISTER_ID: &str = \"st\";\r"));
    assert!(out.contains("pub const ENVIRONMENT: &str = \"staging\";\r"));
    assert!(out.contains("pub const MAX_GROUP_CANISTERS: usize = 3;\r"));
    assert!(out.contains("pub const MAX_REGISTERED_USERS: usize = 0;\r"));
}

#[test]
fn management_id_lookup_uses_the_environment_name() {
    let m = Manifest {
        entries: vec![ManifestEntry {
            key: "management_controller".to_string(),
            values: vec![
                EnvValue {
                    name: "development".to_string(),
                    value: JsonLeaf::Text("mgmt-dev".to_string()),
                },
                EnvValue {
                    name: "production".to_string(),
                    value: JsonLeaf::Text("mgmt-prd".to_string()),
                },
            ],
        }],
    };
    assert_eq!(
        get_management_canister_id_by_environment(&m, Environment::Development),
        "mgmt-dev"
    );
    assert_eq!(
        get_management_canister_id_by_environment(&m, Environment::Production),
        "mgmt-prd"
    );
    assert_eq!(
        get_management_canister_id_by_environment(&m, Environment::Staging),
        ""
    );
}
