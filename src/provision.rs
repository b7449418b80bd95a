//! Configuring a device and registering it: one identity for both.
use vstd::prelude::*;

use crate::chirpstack::{resolves_to, LoraDevice, Substitutions};
use crate::serial::{app_key_command, at_app_key, at_dev_eui, dev_eui_command};
use crate::user_config::Config;

verus! {

/// The description a device gets when none is given.
pub open spec fn default_description() -> Seq<char> {
    "a test device"@
}

/// `description`, or the default one where it is empty.
pub open spec fn description_or_default(description: Seq<char>) -> Seq<char> {
    if description.len() == 0 {
        default_description()
    } else {
        description
    }
}

/// The resolved device, and the two command lines that write its identity
/// to the device, DevEUI first. Registration then uses this same device.
#[derive(Clone, Debug, PartialEq, Eq)]
pub struct ProvisionPlan {
    pub device: LoraDevice,
    pub substitutions: Substitutions,
    pub dev_eui_line: String,
    pub app_key_line: String,
}

/// Resolves the identity once, from the values given, and frames the
/// commands that write it to the device.
pub fn plan_provisioning(
    cfg: &Config,
    app_key: &str,
    dev_eui: &str,
    description: &str,
    name: &str,
) -> (p: ProvisionPlan)
    ensures
        resolves_to(
            *cfg,
            app_key@,
            dev_eui@,
            description_or_default(description@),
            name@,
            p.device,
            p.substitutions,
        ),
        p.dev_eui_line@ == dev_eui_command(p.device.dev_eui@),
        p.app_key_line@ == app_key_command(p.device.app_key@),
{
    let fallback = "a test device".to_owned();
    let description = if description.is_empty() {
        fallback.as_str()
    } else {
        description
    };
    let (device, substitutions) = LoraDevice::resolve(cfg, app_key, dev_eui, description, name);
    let dev_eui_line = at_dev_eui(device.dev_eui.as_str());
    let app_key_line = at_app_key(device.app_key.as_str());
    ProvisionPlan { device, substitutions, dev_eui_line, app_key_line }
}

} // verus!
