//! Start-up of the configuration: default extension items, the TUN switch,
//! and what the validation of the written configuration reports.

use vstd::prelude::*;
use crate::profiles::{IProfiles, index_of_uid, items_of};
use crate::verge::IVerge;

verus! {

/// Which generated configuration file is meant.
#[derive(Debug, Clone, Copy, PartialEq, Eq, Structural)]
pub enum ConfigType {
    /// The one the core runs with.
    Run,
    /// The one used to check a configuration.
    Check,
}

/// The file name of a generated configuration.
pub fn generated_file_name(typ: ConfigType) -> (r: &'static str)
    ensures
        r@ == match typ {
            ConfigType::Run => "clash-verge.yaml"@,
            ConfigType::Check => "clash-verge-check.yaml"@,
        },
{
    match typ {
        ConfigType::Run => "clash-verge.yaml",
        ConfigType::Check => "clash-verge-check.yaml",
    }
}

/// Which of the default `Merge` and `Script` items are missing and are to
/// be added.
pub fn missing_default_items(profiles: &IProfiles) -> (r: (bool, bool))
    ensures
        r.0 == (index_of_uid(items_of(*profiles), Some("Merge"@)) == -1),
        r.1 == (index_of_uid(items_of(*profiles), Some("Script"@)) == -1),
{
    (profiles.get_item("Merge").is_err(), profiles.get_item("Script").is_err())
}

/// Without administrator rights and without the system service TUN mode
/// cannot work: it is switched off. Returns whether it was.
pub fn disable_tun_if_unsupported(verge: &mut IVerge, is_admin: bool, service_available: bool) -> (r:
    bool)
    ensures
        r == (!is_admin && !service_available),
        r ==> final(verge).enable_tun_mode == Some(false),
        *final(verge) == (IVerge { enable_tun_mode: final(verge).enable_tun_mode, ..*old(verge) }),
        !r ==> *final(verge) == *old(verge),
{
    if !is_admin && !service_available {
        verge.enable_tun_mode = Some(false);
        true
    } else {
        false
    }
}

/// How generating and checking the runtime configuration went.
pub enum ValidationOutcome {
    /// The file was written and the core accepts it.
    Valid,
    /// The file was written and the core rejects it, with this message.
    Invalid(String),
    /// The check itself failed.
    CheckFailed,
    /// The file could not be written.
    GenerateFailed,
}

/// What start-up reports after the check: `None` when the configuration is
/// valid; otherwise the notice kind and message, under which the core falls
/// back to its minimal default configuration.
pub fn validation_notice(outcome: ValidationOutcome) -> (r: Option<(&'static str, String)>)
    ensures
        match outcome {
            ValidationOutcome::Valid => r is None,
            ValidationOutcome::Invalid(m) => r matches Some((k, s)) && k@
                == "config_validate::boot_error"@ && s == m,
            ValidationOutcome::CheckFailed => r matches Some((k, s)) && k@
                == "config_validate::process_terminated"@ && s@.len() == 0,
            ValidationOutcome::GenerateFailed => r matches Some((k, s)) && k@
                == "config_validate::error"@ && s@.len() == 0,
        },
{
    match outcome {
        ValidationOutcome::Valid => None,
        ValidationOutcome::Invalid(m) => Some(("config_validate::boot_error", m)),
        ValidationOutcome::CheckFailed => Some(("config_validate::process_terminated", String::new())),
        ValidationOutcome::GenerateFailed => Some(("config_validate::error", String::new())),
    }
}

} // verus!
