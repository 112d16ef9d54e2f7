//! End-to-end generation: from manifests and an environment to the rendered
//! constants file.
//!
//! The canister identifiers are extracted from the active-environment
//! manifest; the three management identifiers are extracted from the
//! canonical manifest; the settings row is selected by the environment; and
//! the whole output is pinned down by one specification function, which makes
//! repeated generation byte-identical.

use vstd::prelude::*;
use crate::environment::{Environment, spec_env_name};
use crate::manifest::{Manifest, extract, spec_extract};
use crate::settings::{generate_enviroment_settings, spec_settings};
use crate::emit::{CanisterIds, ManagementIds, spec_content};

verus! {

/// The relative path of the manifest file for `env`: the local-override path
/// for `Local`, the canonical path for every other environment.
pub open spec fn spec_manifest_relative_path(env: Environment) -> Seq<char> {
    if env == Environment::Local {
        ".dfx/local/canister_ids.json"@
    } else {
        "canister_ids.json"@
    }
}

/// Selects the relative path of the manifest file to load for `env`.
pub fn manifest_relative_path(env: Environment) -> (r: String)
    ensures
        r@ == spec_manifest_relative_path(env),
{
    if let Environment::Local = env {
        ".dfx/local/canister_ids.json".to_owned()
    } else {
        "canister_ids.json".to_owned()
    }
}

/// Extracts the management-controller identifier stored in `m` for the given
/// environment.
pub fn get_management_canister_id_by_environment(m: &Manifest, environment: Environment) -> (r:
    String)
    ensures
        r@ == spec_extract(*m, "management_controller"@, spec_env_name(environment)),
{
    extract(m, "management_controller", environment)
}

/// Extracts all canister identifiers stored in `m` for environment `env`.
pub fn canister_ids_from_manifest(m: &Manifest, env: Environment) -> (r: CanisterIds)
    ensures
        r.cycles_management_controller@ == spec_extract(
            *m,
            "cycles_management_controller"@,
            spec_env_name(env),
        ),
        r.group_controller@ == spec_extract(*m, "group_controller"@, spec_env_name(env)),
        r.group_management_controller@ == spec_extract(
            *m,
            "group_management_controller"@,
            spec_env_name(env),
        ),
        r.management_controller@ == spec_extract(*m, "management_controller"@, spec_env_name(env)),
        r.report_controller@ == spec_extract(*m, "report_controller"@, spec_env_name(env)),
        r.storage_controller@ == spec_extract(*m, "storage_controller"@, spec_env_name(env)),
        r.storage_management_controller@ == spec_extract(
            *m,
            "storage_management_controller"@,
            spec_env_name(env),
        ),
        r.user_controller@ == spec_extract(*m, "user_controller"@, spec_env_name(env)),
{
    CanisterIds {
        cycles_management_controller: extract(m, "cycles_management_controller", env),
        group_controller: extract(m, "group_controller", env),
        group_management_controller: extract(m, "group_management_controller", env),
        management_controller: extract(m, "management_controller", env),
        report_controller: extract(m, "report_controller", env),
        storage_controller: extract(m, "storage_controller", env),
        storage_management_controller: extract(m, "storage_management_controller", env),
        user_controller: extract(m, "user_controller", env),
    }
}

/// Extracts the management-controller identifiers of the three non-local
/// environments from the canonical manifest.
pub fn management_ids_from_manifest(canonical: &Manifest) -> (r: ManagementIds)
    ensures
        r.development@ == spec_extract(
            *canonical,
            "management_controller"@,
            spec_env_name(Environment::Development),
        ),
        r.staging@ == spec_extract(
            *canonical,
            "management_controller"@,
            spec_env_name(Environment::Staging),
        ),
        r.production@ == spec_extract(
            *canonical,
            "management_controller"@,
            spec_env_name(Environment::Production),
        ),
{
    ManagementIds {
        development: get_management_canister_id_by_environment(canonical, Environment::Development),
        staging: get_management_canister_id_by_environment(canonical, Environment::Staging),
        production: get_management_canister_id_by_environment(canonical, Environment::Production),
    }
}

/// The whole generated output as a function of the two manifests and the
/// environment alone.
pub open spec fn spec_generated(m: Manifest, canonical: Manifest, env: Environment) -> Seq<char> {
    spec_content(
        spec_extract(m, "cycles_management_controller"@, spec_env_name(env)),
        spec_extract(canonical, "management_controller"@, spec_env_name(Environment::Development)),
        spec_extract(canonical, "management_controller"@, spec_env_name(Environment::Staging)),
        spec_extract(canonical, "management_controller"@, spec_env_name(Environment::Production)),
        spec_extract(m, "group_management_controller"@, spec_env_name(env)),
        spec_extract(m, "management_controller"@, spec_env_name(env)),
        spec_extract(m, "report_controller"@, spec_env_name(env)),
        spec_extract(m, "storage_management_controller"@, spec_env_name(env)),
        spec_extract(m, "user_controller"@, spec_env_name(env)),
        spec_extract(m, "group_controller"@, spec_env_name(env)),
        spec_extract(m, "storage_controller"@, spec_env_name(env)),
        spec_settings(env),
    )
}

/// Generates the constants file content from the active-environment manifest
/// `m`, the canonical manifest, and the environment. The result is exactly
/// `spec_generated` of the inputs.
pub fn generate_content(m: &Manifest, canonical: &Manifest, env: Environment) -> (r: String)
    ensures
        r@ == spec_generated(*m, *canonical, env),
{
    let ids = canister_ids_from_manifest(m, env);
    let management = management_ids_from_manifest(canonical);
    let settings = generate_enviroment_settings(env);
    ids.to_content(&management, &settings)
}

/// Generation is deterministic: on unchanged manifests and an unchanged
/// environment, two runs produce byte-identical output.
pub proof fn lemma_generation_deterministic(
    m1: Manifest,
    canonical1: Manifest,
    env1: Environment,
    m2: Manifest,
    canonical2: Manifest,
    env2: Environment,
)
    requires
        m1 == m2,
        canonical1 == canonical2,
        env1 == env2,
    ensures
        spec_generated(m1, canonical1, env1) == spec_generated(m2, canonical2, env2),
{
}

} // verus!
