//! Choosing the command line for an AT command given by the operator.
use vstd::prelude::*;

use crate::serial::{
    app_key_command, at_app_key, at_dev_eui, at_join, at_send_msg, at_send_raw, at_version,
    dev_eui_command, hex_of_bytes, join_command, send_command, version_command,
};
use crate::utils::gen_hex::{all_hex, all_upper_hex, is_hex, is_hex_id, resolve_hex_str};
use vstd::utf8::encode_utf8;

verus! {

/// An AT command as the operator gives it.
#[derive(Clone, Debug, PartialEq, Eq)]
pub enum AtCommands {
    /// Ask for the firmware version.
    Version,
    /// Set a property of the device.
    SetProperty { command: SetCommands },
    /// Join the local LoRa network.
    Join,
    /// Send a message; hex-encoded unless `raw`.
    Send { msg: String, chn: u8, raw: bool },
}

/// A property of the device to set; an invalid or empty value is replaced
/// by a generated one.
#[derive(Clone, Debug, PartialEq, Eq)]
pub enum SetCommands {
    /// The 64-bit DevEUI.
    DevEui { dev_eui: String },
    /// The 128-bit AppKey.
    AppKey { app_key: String },
}

/// What the operator should be told before the command goes out.
#[derive(Clone, Debug, PartialEq, Eq)]
pub enum AtNotice {
    /// The DevEUI given was invalid; this one was generated in its place.
    GeneratedDevEui(String),
    /// The AppKey given was invalid; this one was generated in its place.
    GeneratedAppKey(String),
    /// A raw payload holds characters that are not hexadecimal digits.
    PayloadNotHex,
}

/// The line to write to the device for one AT command, and a notice, if any.
#[derive(Clone, Debug, PartialEq, Eq)]
pub struct AtPlan {
    pub line: String,
    pub notice: Option<AtNotice>,
}

/// `plan` is the right plan for `command`. Where a value is generated, it is
/// the one that both the notice and the line carry.
pub open spec fn is_plan_for(command: AtCommands, plan: AtPlan) -> bool {
    match command {
        AtCommands::Version => plan.line@ == version_command() && plan.notice is None,
        AtCommands::Join => plan.line@ == join_command() && plan.notice is None,
        AtCommands::SetProperty { command: SetCommands::DevEui { dev_eui } } => if is_hex_id(
            dev_eui@,
            64,
        ) {
            plan.line@ == dev_eui_command(dev_eui@) && plan.notice is None
        } else {
            plan.notice matches Some(AtNotice::GeneratedDevEui(g)) && g@.len() == 16
                && all_upper_hex(g@) && plan.line@ == dev_eui_command(g@)
        },
        AtCommands::SetProperty { command: SetCommands::AppKey { app_key } } => if is_hex_id(
            app_key@,
            128,
        ) {
            plan.line@ == app_key_command(app_key@) && plan.notice is None
        } else {
            plan.notice matches Some(AtNotice::GeneratedAppKey(g)) && g@.len() == 32
                && all_upper_hex(g@) && plan.line@ == app_key_command(g@)
        },
        AtCommands::Send { msg, chn, raw } => if raw {
            &&& plan.line@ == send_command(chn, msg@)
            &&& (plan.notice is None <==> all_hex(msg@))
            &&& (plan.notice is Some ==> plan.notice == Some(AtNotice::PayloadNotHex))
        } else {
            plan.line@ == send_command(chn, hex_of_bytes(encode_utf8(msg@))) && plan.notice is None
        },
    }
}

/// The command line for `command`. A DevEUI or AppKey that is not valid is
/// replaced by a generated one, which the notice carries.
pub fn plan_at_command(command: &AtCommands) -> (p: AtPlan)
    ensures
        is_plan_for(*command, p),
{
    match command {
        AtCommands::Version => AtPlan { line: at_version(), notice: None },
        AtCommands::Join => AtPlan { line: at_join(), notice: None },
        AtCommands::SetProperty { command } => match command {
            SetCommands::DevEui { dev_eui } => {
                let (v, generated) = resolve_hex_str(dev_eui.as_str(), 64);
                let line = at_dev_eui(v.as_str());
                if generated {
                    AtPlan { line, notice: Some(AtNotice::GeneratedDevEui(v)) }
                } else {
                    AtPlan { line, notice: None }
                }
            },
            SetCommands::AppKey { app_key } => {
                let (v, generated) = resolve_hex_str(app_key.as_str(), 128);
                let line = at_app_key(v.as_str());
                if generated {
                    AtPlan { line, notice: Some(AtNotice::GeneratedAppKey(v)) }
                } else {
                    AtPlan { line, notice: None }
                }
            },
        },
        AtCommands::Send { msg, chn, raw } => {
            if *raw {
                let line = at_send_raw(*chn, msg.as_str());
                if is_hex(msg.as_str()) {
                    AtPlan { line, notice: None }
                } else {
                    AtPlan { line, notice: Some(AtNotice::PayloadNotHex) }
                }
            } else {
                AtPlan { line: at_send_msg(*chn, msg.as_str()), notice: None }
            }
        },
    }
}

} // verus!
