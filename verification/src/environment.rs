//! Resolution of the deployment environment.
//!
//! The environment is a closed set of four tiers. A raw selector string is
//! validated against the three non-local tiers; anything else, including a
//! missing selector, resolves to `Local`. This single policy governs both
//! manifest-path selection and settings selection.

use vstd::prelude::*;

verus! {

/// The deployment tier. `Local` is the universal default and fallback.
#[derive(Clone, Copy, PartialEq, Eq, Structural, Debug)]
pub enum Environment {
    Local,
    Development,
    Staging,
    Production,
}

/// The canonical name of an environment, as it appears as a sub-key in the
/// manifest and in the emitted `ENVIRONMENT` constant.
pub open spec fn spec_env_name(env: Environment) -> Seq<char> {
    match env {
        Environment::Local => "local"@,
        Environment::Development => "development"@,
        Environment::Staging => "staging"@,
        Environment::Production => "production"@,
    }
}

/// The environment a raw selector resolves to: the matching non-local tier,
/// or `Local` for an absent or unrecognized selector.
pub open spec fn spec_resolve(raw: Option<Seq<char>>) -> Environment {
    match raw {
        Option::None => Environment::Local,
        Option::Some(s) => if s == "development"@ {
            Environment::Development
        } else if s == "staging"@ {
            Environment::Staging
        } else if s == "production"@ {
            Environment::Production
        } else {
            Environment::Local
        },
    }
}

impl Environment {
    /// The environment's canonical name.
    pub fn name(&self) -> (r: String)
        ensures
            r@ == spec_env_name(*self),
    {
        match self {
            Environment::Local => "local".to_owned(),
            Environment::Development => "development".to_owned(),
            Environment::Staging => "staging".to_owned(),
            Environment::Production => "production".to_owned(),
        }
    }
}

/// Resolves a raw selector (the value of the selecting variable, or `None`
/// when it is absent) to an `Environment`, coercing anything outside the
/// closed set to `Local`.
pub fn resolve_environment(raw: Option<&str>) -> (r: Environment)
    ensures
        r == spec_resolve(match raw {
            Option::Some(s) => Option::Some(s@),
            Option::None => Option::<Seq<char>>::None,
        }),
{
    match raw {
        Option::None => Environment::Local,
        Option::Some(s) => {
            let s_owned: String = s.to_owned();
            if s_owned == "development".to_owned() {
                Environment::Development
            } else if s_owned == "staging".to_owned() {
                Environment::Staging
            } else if s_owned == "production".to_owned() {
                Environment::Production
            } else {
                Environment::Local
            }
        },
    }
}

} // verus!
