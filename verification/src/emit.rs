//! Deterministic rendering of the generated constants file.
//!
//! The output is a fixed, ordered sequence of constant declarations grouped
//! by provenance. Every line is pinned down exactly by a specification
//! function of the rendered values, so two renderings of the same inputs are
//! byte-identical.

use vstd::prelude::*;
use vstd::string::StringExecFns;
use crate::environment::spec_env_name;
use crate::settings::Settings;

verus! {

/// The canister identifiers extracted from the manifest for the active
/// environment.
pub struct CanisterIds {
    pub cycles_management_controller: String,
    pub group_controller: String,
    pub group_management_controller: String,
    pub management_controller: String,
    pub report_controller: String,
    pub storage_controller: String,
    pub storage_management_controller: String,
    pub user_controller: String,
}

/// The management canister identifiers of the three non-local environments,
/// extracted from the canonical manifest.
pub struct ManagementIds {
    pub development: String,
    pub staging: String,
    pub production: String,
}

/// The decimal digit character for `d` in 0..10.
pub open spec fn spec_digit(d: nat) -> char {
    if d == 0 {
        '0'
    } else if d == 1 {
        '1'
    } else if d == 2 {
        '2'
    } else if d == 3 {
        '3'
    } else if d == 4 {
        '4'
    } else if d == 5 {
        '5'
    } else if d == 6 {
        '6'
    } else if d == 7 {
        '7'
    } else if d == 8 {
        '8'
    } else {
        '9'
    }
}

/// The decimal representation of `n`, most significant digit first, with no
/// leading zero except for `n == 0` itself.
pub open spec fn spec_dec(n: nat) -> Seq<char>
    decreases n,
{
    if n < 10 {
        seq![spec_digit(n)]
    } else {
        spec_dec(n / 10) + seq![spec_digit(n % 10)]
    }
}

/// The rendering of a boolean literal.
pub open spec fn spec_bool(b: bool) -> Seq<char> {
    if b {
        "true"@
    } else {
        "false"@
    }
}

/// One string-constant declaration line.
pub open spec fn spec_str_line(name: Seq<char>, value: Seq<char>) -> Seq<char> {
    "pub const "@ + name + ": &str = \""@ + value + "\";\r"@
}

/// One numeric-constant declaration line.
pub open spec fn spec_usize_line(name: Seq<char>, value: nat) -> Seq<char> {
    "pub const "@ + name + ": usize = "@ + spec_dec(value) + ";\r"@
}

/// One boolean-constant declaration line.
pub open spec fn spec_bool_line(name: Seq<char>, value: bool) -> Seq<char> {
    "pub const "@ + name + ": bool = "@ + spec_bool(value) + ";\r"@
}

/// The single digit `d` as a string slice.
fn digit_str(d: usize) -> (r: &'static str)
    requires
        d < 10,
    ensures
        r@ == seq![spec_digit(d as nat)],
{
    match d {
        0 => {
            proof {
                reveal_strlit("0");
                assert("0"@ =~= seq![spec_digit(0)]);
            }
            "0"
        },
        1 => {
            proof {
                reveal_strlit("1");
                assert("1"@ =~= seq![spec_digit(1)]);
            }
            "1"
        },
        2 => {
            proof {
                reveal_strlit("2");
                assert("2"@ =~= seq![spec_digit(2)]);
            }
            "2"
        },
        3 => {
            proof {
                reveal_strlit("3");
                assert("3"@ =~= seq![spec_digit(3)]);
            }
            "3"
        },
        4 => {
            proof {
                reveal_strlit("4");
                assert("4"@ =~= seq![spec_digit(4)]);
            }
            "4"
        },
        5 => {
            proof {
                reveal_strlit("5");
                assert("5"@ =~= seq![spec_digit(5)]);
            }
            "5"
        },
        6 => {
            proof {
                reveal_strlit("6");
                assert("6"@ =~= seq![spec_digit(6)]);
            }
            "6"
        },
        7 => {
            proof {
                reveal_strlit("7");
                assert("7"@ =~= seq![spec_digit(7)]);
            }
            "7"
        },
        8 => {
            proof {
                reveal_strlit("8");
                assert("8"@ =~= seq![spec_digit(8)]);
            }
            "8"
        },
        _ => {
            proof {
                reveal_strlit("9");
                assert("9"@ =~= seq![spec_digit(9)]);
            }
            "9"
        },
    }
}

/// Renders `n` in decimal, most significant digit first.
pub fn usize_to_string(n: usize) -> (s: String)
    ensures
        s@ == spec_dec(n as nat),
    decreases n,
{
    if n < 10 {
        digit_str(n).to_owned()
    } else {
        let mut s = usize_to_string(n / 10);
        s.append(digit_str(n % 10));
        s
    }
}

/// Renders a boolean literal.
pub fn bool_to_str(b: bool) -> (r: &'static str)
    ensures
        r@ == spec_bool(b),
{
    if b {
        "true"
    } else {
        "false"
    }
}

/// Renders one string-constant declaration line.
fn const_str_line(name: &str, value: &str) -> (r: String)
    ensures
        r@ == spec_str_line(name@, value@),
{
    let mut s: String = "pub const ".to_owned();
    s.append(name);
    s.append(": &str = \"");
    s.append(value);
    s.append("\";\r");
    s
}

/// Renders one numeric-constant declaration line.
fn const_usize_line(name: &str, value: usize) -> (r: String)
    ensures
        r@ == spec_usize_line(name@, value as nat),
{
    let mut s: String = "pub const ".to_owned();
    s.append(name);
    s.append(": usize = ");
    let digits = usize_to_string(value);
    s.append(digits.as_str());
    s.append(";\r");
    s
}

/// Renders one boolean-constant declaration line.
fn const_bool_line(name: &str, value: bool) -> (r: String)
    ensures
        r@ == spec_bool_line(name@, value),
{
    let mut s: String = "pub const ".to_owned();
    s.append(name);
    s.append(": bool = ");
    s.append(bool_to_str(value));
    s.append(";\r");
    s
}

/// The fixed banner block that opens the rendered output. It documents, for
/// readers of the emitted file, which environment selectors regenerate it.
pub open spec fn spec_banner() -> Seq<char> {
    "\n/*\nThis file is automatically generated based on the environment set\n\nFile can be generated with the following commands:\n    LOCAL: \"ENV=local cargo test --test generate\"\n    DEVELOPMENT: \"ENV=development cargo test --test generate\"\n    STAGING: \"ENV=staging cargo test --test generate\"\n    PRODUCTION: \"ENV=production cargo test --test generate\"\n\n    Note: If the local canister ids are not known yet, \n    the \"dfx canister create --all --no-wallet\" command should be ran\n    to generate the local canister ids (.dfx/local/canister_ids.json)\n*/"@
}

/// The whole rendered output for the given identifier values and settings:
/// the banner block, then four groups of declarations, each under its
/// comment header, in a fixed order.
pub open spec fn spec_content(
    cycles: Seq<char>,
    mgmt_development: Seq<char>,
    mgmt_staging: Seq<char>,
    mgmt_production: Seq<char>,
    group_management: Seq<char>,
    management: Seq<char>,
    report: Seq<char>,
    storage_management: Seq<char>,
    user: Seq<char>,
    group: Seq<char>,
    storage: Seq<char>,
    s: Settings,
) -> Seq<char> {
    spec_banner() + "\n\n// These canisters are environment independent\n"@ + spec_str_line(
        "CYCLES_MANAGEMENT_CANISTER_ID"@,
        cycles,
    ) + spec_str_line("DEVELOPMENT_MANAGEMENT_CANISTER_ID"@, mgmt_development) + spec_str_line(
        "STAGING_MANAGEMENT_CANISTER_ID"@,
        mgmt_staging,
    ) + spec_str_line("PRODUCTION_MANAGEMENT_CANISTER_ID"@, mgmt_production)
        + "\n\n// These canisters are environment dependent\n"@ + spec_str_line(
        "GROUP_MANAGEMENT_CANISTER_ID"@,
        group_management,
    ) + spec_str_line("MANAGEMENT_CANISTER_ID"@, management) + spec_str_line(
        "REPORT_CANISTER_ID"@,
        report,
    ) + spec_str_line("STORAGE_MANAGEMENT_CANISTER_ID"@, storage_management) + spec_str_line(
        "USER_CANISTER_ID"@,
        user,
    ) + "\n\n// These canisters are only used for the local deployment\n"@ + spec_str_line(
        "GROUP_CANISTER_ID"@,
        group,
    ) + spec_str_line("STORAGE_CANISTER_ID"@, storage)
        + "\n\n// Settings to be specified per environment\n"@ + spec_str_line(
        "ENVIRONMENT"@,
        spec_env_name(s.environment),
    ) + spec_usize_line("MAX_GROUP_CANISTERS"@, s.max_group_canisters as nat) + spec_bool_line(
        "MAX_GROUP_CANISTERS_ENABLED"@,
        s.max_group_canisters_enabled,
    ) + spec_usize_line("MAX_STORAGE_CANISTERS"@, s.max_storage_canisters as nat) + spec_bool_line(
        "MAX_STORAGE_CANISTERS_ENABLED"@,
        s.max_storage_canisters_enabled,
    ) + spec_usize_line("MAX_REGISTERED_USERS"@, s.max_registered_users as nat) + spec_bool_line(
        "MAX_REGISTERED_USERS_ENABLED"@,
        s.max_registered_users_enabled,
    )
}

impl CanisterIds {
    /// Renders the constants file for these canister identifiers, the given
    /// management identifiers, and the given settings. The result is exactly
    /// `spec_content` of the inputs, so the rendering is deterministic.
    pub fn to_content(&self, management: &ManagementIds, settings: &Settings) -> (r: String)
        ensures
            r@ == spec_content(
                self.cycles_management_controller@,
                management.development@,
                management.staging@,
                management.production@,
                self.group_management_controller@,
                self.management_controller@,
                self.report_controller@,
                self.storage_management_controller@,
                self.user_controller@,
                self.group_controller@,
                self.storage_controller@,
                *settings,
            ),
    {
        let env_name = settings.environment.name();
        let mut out: String =
            "\n/*\nThis file is automatically generated based on the environment set\n\nFile can be generated with the following commands:\n    LOCAL: \"ENV=local cargo test --test generate\"\n    DEVELOPMENT: \"ENV=development cargo test --test generate\"\n    STAGING: \"ENV=staging cargo test --test generate\"\n    PRODUCTION: \"ENV=production cargo test --test generate\"\n\n    Note: If the local canister ids are not known yet, \n    the \"dfx canister create --all --no-wallet\" command should be ran\n    to generate the local canister ids (.dfx/local/canister_ids.json)\n*/".to_owned();
        out.append("\n\n// These canisters are environment independent\n");
        out.append(
            const_str_line(
                "CYCLES_MANAGEMENT_CANISTER_ID",
                self.cycles_management_controller.as_str(),
            ).as_str(),
        );
        out.append(
            const_str_line(
                "DEVELOPMENT_MANAGEMENT_CANISTER_ID",
                management.development.as_str(),
            ).as_str(),
        );
        out.append(
            const_str_line("STAGING_MANAGEMENT_CANISTER_ID", management.staging.as_str()).as_str(),
        );
        out.append(
            const_str_line(
                "PRODUCTION_MANAGEMENT_CANISTER_ID",
                management.production.as_str(),
            ).as_str(),
        );
        out.append("\n\n// These canisters are environment dependent\n");
        out.append(
            const_str_line(
                "GROUP_MANAGEMENT_CANISTER_ID",
                self.group_management_controller.as_str(),
            ).as_str(),
        );
        out.append(
            const_str_line("MANAGEMENT_CANISTER_ID", self.management_controller.as_str()).as_str(),
        );
        out.append(const_str_line("REPORT_CANISTER_ID", self.report_controller.as_str()).as_str());
        out.append(
            const_str_line(
                "STORAGE_MANAGEMENT_CANISTER_ID",
                self.storage_management_controller.as_str(),
            ).as_str(),
        );
        out.append(const_str_line("USER_CANISTER_ID", self.user_controller.as_str()).as_str());
        out.append("\n\n// These canisters are only used for the local deployment\n");
        out.append(const_str_line("GROUP_CANISTER_ID", self.group_controller.as_str()).as_str());
        out.append(
            const_str_line("STORAGE_CANISTER_ID", self.storage_controller.as_str()).as_str(),
        );
        out.append("\n\n// Settings to be specified per environment\n");
        out.append(const_str_line("ENVIRONMENT", env_name.as_str()).as_str());
        out.append(const_usize_line("MAX_GROUP_CANISTERS", settings.max_group_canisters).as_str());
        out.append(
            const_bool_line(
                "MAX_GROUP_CANISTERS_ENABLED",
                settings.max_group_canisters_enabled,
            ).as_str(),
        );
        out.append(
            const_usize_line("MAX_STORAGE_CANISTERS", settings.max_storage_canisters).as_str(),
        );
        out.append(
            const_bool_line(
                "MAX_STORAGE_CANISTERS_ENABLED",
                settings.max_storage_canisters_enabled,
            ).as_str(),
        );
        out.append(
            const_usize_line("MAX_REGISTERED_USERS", settings.max_registered_users).as_str(),
        );
        out.append(
            const_bool_line(
                "MAX_REGISTERED_USERS_ENABLED",
                settings.max_registered_users_enabled,
            ).as_str(),
        );
        out
    }
}

} // verus!
