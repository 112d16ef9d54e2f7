//! The per-environment feature-flag settings.
//!
//! Settings are a pure, total function of the environment, backed by a fixed
//! table. The manifest is never involved, and no environment can fall outside
//! the table.

use vstd::prelude::*;
use crate::environment::Environment;

verus! {

/// The fixed record of numeric and boolean feature flags selected by an
/// environment.
#[derive(Clone, Copy, PartialEq, Eq, Structural, Debug)]
pub struct Settings {
    pub environment: Environment,
    pub max_registered_users: usize,
    pub max_registered_users_enabled: bool,
    pub max_group_canisters: usize,
    pub max_group_canisters_enabled: bool,
    pub max_storage_canisters: usize,
    pub max_storage_canisters_enabled: bool,
}

/// The table row an environment selects.
pub open spec fn spec_settings(env: Environment) -> Settings {
    match env {
        Environment::Development => Settings {
            environment: Environment::Development,
            max_registered_users: 500,
            max_registered_users_enabled: true,
            max_group_canisters: 10,
            max_group_canisters_enabled: true,
            max_storage_canisters: 1,
            max_storage_canisters_enabled: true,
        },
        Environment::Staging => Settings {
            environment: Environment::Staging,
            max_registered_users: 0,
            max_registered_users_enabled: true,
            max_group_canisters: 3,
            max_group_canisters_enabled: true,
            max_storage_canisters: 1,
            max_storage_canisters_enabled: true,
        },
        Environment::Production => Settings {
            environment: Environment::Production,
            max_registered_users: 0,
            max_registered_users_enabled: true,
            max_group_canisters: 0,
            max_group_canisters_enabled: false,
            max_storage_canisters: 0,
            max_storage_canisters_enabled: false,
        },
        Environment::Local => Settings {
            environment: Environment::Local,
            max_registered_users: 0,
            max_registered_users_enabled: false,
            max_group_canisters: 0,
            max_group_canisters_enabled: false,
            max_storage_canisters: 0,
            max_storage_canisters_enabled: false,
        },
    }
}

/// Returns the settings record for `env`: exactly the table row that `env`
/// selects. Total over the closed environment set; never fails.
pub fn generate_enviroment_settings(env: Environment) -> (r: Settings)
    ensures
        r == spec_settings(env),
{
    match env {
        Environment::Development => Settings {
            environment: Environment::Development,
            max_registered_users: 500,
            max_registered_users_enabled: true,
            max_group_canisters: 10,
            max_group_canisters_enabled: true,
            max_storage_canisters: 1,
            max_storage_canisters_enabled: true,
        },
        Environment::Staging => Settings {
            environment: Environment::Staging,
            max_registered_users: 0,
            max_registered_users_enabled: true,
            max_group_canisters: 3,
            max_group_canisters_enabled: true,
            max_storage_canisters: 1,
            max_storage_canisters_enabled: true,
        },
        Environment::Production => Settings {
            environment: Environment::Production,
            max_registered_users: 0,
            max_registered_users_enabled: true,
            max_group_canisters: 0,
            max_group_canisters_enabled: false,
            max_storage_canisters: 0,
            max_storage_canisters_enabled: false,
        },
        Environment::Local => Settings {
            environment: Environment::Local,
            max_registered_users: 0,
            max_registered_users_enabled: false,
            max_group_canisters: 0,
            max_group_canisters_enabled: false,
            max_storage_canisters: 0,
            max_storage_canisters_enabled: false,
        },
    }
}

/// Every environment selects a row of the fixed table: the settings carry the
/// selecting environment itself, and the flag combination is one of the four
/// rows.
pub proof fn lemma_settings_in_table(env: Environment)
    ensures
        spec_settings(env).environment == env,
        spec_settings(env) == spec_settings(Environment::Development) || spec_settings(env)
            == spec_settings(Environment::Staging) || spec_settings(env) == spec_settings(
            Environment::Production,
        ) || spec_settings(env) == spec_settings(Environment::Local),
{
}

} // verus!
