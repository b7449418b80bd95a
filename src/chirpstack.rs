//! Registering a device with the remote device-management service: the
//! device record, the requests, and the two-phase registration.
use vstd::prelude::*;

use crate::text::{decimal, push_decimal};
use crate::user_config::Config;
use crate::utils::gen_hex::{all_upper_hex, get_rand_hex_str, is_hex_id, resolve_hex_str};
use vstd::string::StringExecFns;

verus! {

/// A call to the remote service as the operator gives it.
#[derive(Clone, Debug, PartialEq, Eq)]
pub enum ApiCommands {
    /// Register a device; an empty or invalid value is generated.
    Post { name: String, description: String, dev_eui: String, app_key: String },
    /// List the devices of the application.
    Get { limit: u32, offset: u32 },
}

/// A LoRa device as the remote service records it.
#[derive(Clone, Debug, PartialEq, Eq)]
pub struct LoraDevice {
    pub dev_eui: String,
    pub app_key: String,
    pub application_id: String,
    pub description: String,
    pub device_profile_id: String,
    pub is_disabled: bool,
    pub skip_fcnt_check: bool,
    pub name: String,
    pub reference_altitude: i32,
}

/// Which of the given values were replaced by generated ones.
#[derive(Clone, Debug, PartialEq, Eq)]
pub struct Substitutions {
    pub dev_eui: bool,
    pub app_key: bool,
    pub name: bool,
}

/// `device` is what the given values resolve to: a valid value is kept, an
/// invalid one is replaced by a generated one of the right length, and an
/// empty name by six generated digits. `subst` tells which were replaced.
pub open spec fn resolves_to(
    cfg: Config,
    app_key: Seq<char>,
    dev_eui: Seq<char>,
    description: Seq<char>,
    name: Seq<char>,
    device: LoraDevice,
    subst: Substitutions,
) -> bool {
    &&& subst.dev_eui == !is_hex_id(dev_eui, 64)
    &&& !subst.dev_eui ==> device.dev_eui@ == dev_eui
    &&& subst.dev_eui ==> device.dev_eui@.len() == 16 && all_upper_hex(device.dev_eui@)
    &&& subst.app_key == !is_hex_id(app_key, 128)
    &&& !subst.app_key ==> device.app_key@ == app_key
    &&& subst.app_key ==> device.app_key@.len() == 32 && all_upper_hex(device.app_key@)
    &&& subst.name == (name.len() == 0)
    &&& !subst.name ==> device.name@ == name
    &&& subst.name ==> device.name@.len() == 6 && all_upper_hex(device.name@)
    &&& device.description@ == description
    &&& device.application_id@ == cfg.application_id@
    &&& device.device_profile_id@ == cfg.device_profile_id@
    &&& !device.is_disabled
    &&& !device.skip_fcnt_check
    &&& device.reference_altitude == 0
}

impl LoraDevice {
    /// The device for the given values, and which of them were replaced.
    pub fn resolve(cfg: &Config, app_key: &str, dev_eui: &str, description: &str, name: &str) -> (r:
        (LoraDevice, Substitutions))
        ensures
            resolves_to(*cfg, app_key@, dev_eui@, description@, name@, r.0, r.1),
    {
        let (dev_eui, dev_eui_generated) = resolve_hex_str(dev_eui, 64);
        let (app_key, app_key_generated) = resolve_hex_str(app_key, 128);
        let name_generated = name.is_empty();
        let name = if name_generated {
            get_rand_hex_str(24)
        } else {
            name.to_owned()
        };
        let device = LoraDevice {
            dev_eui,
            app_key,
            application_id: cfg.application_id.clone(),
            description: description.to_owned(),
            device_profile_id: cfg.device_profile_id.clone(),
            is_disabled: false,
            skip_fcnt_check: false,
            name,
            reference_altitude: 0,
        };
        let subst = Substitutions {
            dev_eui: dev_eui_generated,
            app_key: app_key_generated,
            name: name_generated,
        };
        (device, subst)
    }

    /// The device for the given values: a DevEUI or AppKey that is not valid,
    /// and an empty name, are replaced by generated ones.
    pub fn new(cfg: &Config, app_key: &str, dev_eui: &str, description: &str, name: &str) -> (r:
        LoraDevice)
        ensures
            exists|s: Substitutions| resolves_to(*cfg, app_key@, dev_eui@, description@, name@, r, s),
    {
        let (device, _) = LoraDevice::resolve(cfg, app_key, dev_eui, description, name);
        device
    }

    /// The same record with an empty AppKey: the key is never sent with the
    /// device itself.
    pub fn without_key(&self) -> (r: LoraDevice)
        ensures
            same_record_without_key(r, *self),
    {
        LoraDevice {
            dev_eui: self.dev_eui.clone(),
            app_key: String::new(),
            application_id: self.application_id.clone(),
            description: self.description.clone(),
            device_profile_id: self.device_profile_id.clone(),
            is_disabled: self.is_disabled,
            skip_fcnt_check: self.skip_fcnt_check,
            name: self.name.clone(),
            reference_altitude: self.reference_altitude,
        }
    }
}

/// `d` is `device` with its AppKey left empty.
pub open spec fn same_record_without_key(d: LoraDevice, device: LoraDevice) -> bool {
    &&& d.dev_eui@ == device.dev_eui@
    &&& d.app_key@.len() == 0
    &&& d.application_id@ == device.application_id@
    &&& d.description@ == device.description@
    &&& d.device_profile_id@ == device.device_profile_id@
    &&& d.is_disabled == device.is_disabled
    &&& d.skip_fcnt_check == device.skip_fcnt_check
    &&& d.name@ == device.name@
    &&& d.reference_altitude == device.reference_altitude
}

/// The HTTP method of a request.
#[derive(Clone, Debug, PartialEq, Eq)]
pub enum HttpMethod {
    Get,
    Post,
}

/// What a request carries in its JSON body.
#[derive(Clone, Debug, PartialEq, Eq)]
pub enum RequestBody {
    /// No body.
    Empty,
    /// `{ "device": <record> }`.
    Device(LoraDevice),
    /// `{ "deviceKeys": { "nwkKey": <key>, "devEUI": <eui> } }`.
    DeviceKeys { nwk_key: String, dev_eui: String },
}

/// One call to the remote service.
#[derive(Clone, Debug, PartialEq, Eq)]
pub struct RemoteRequest {
    pub method: HttpMethod,
    pub url: String,
    /// The value of the `Authorization` header.
    pub authorization: String,
    /// The query parameters, in order.
    pub query: Vec<(String, String)>,
    pub body: RequestBody,
}

/// The value of the `Authorization` header for `token`.
pub open spec fn bearer(token: Seq<char>) -> Seq<char> {
    "Bearer "@ + token
}

/// `req` goes to `path` under the service's URL, with the token, and its
/// first query parameter names the configured application.
pub open spec fn addressed(cfg: Config, path: Seq<char>, req: RemoteRequest) -> bool {
    &&& req.url@ == cfg.url@ + path
    &&& req.authorization@ == bearer(cfg.token@)
    &&& req.query@.len() >= 1
    &&& req.query@[0].0@ == "applicationID"@
    &&& req.query@[0].1@ == cfg.application_id@
}

/// `req` asks for a page of the application's devices.
pub open spec fn is_list_request(cfg: Config, limit: u32, offset: u32, req: RemoteRequest) -> bool {
    &&& req.method is Get
    &&& addressed(cfg, "/devices"@, req)
    &&& req.query@.len() == 3
    &&& req.query@[1].0@ == "limit"@
    &&& req.query@[1].1@ == decimal(limit as nat)
    &&& req.query@[2].0@ == "offset"@
    &&& req.query@[2].1@ == decimal(offset as nat)
    &&& req.body is Empty
}

/// `req` creates `device` without its key.
pub open spec fn is_create_request(cfg: Config, device: LoraDevice, req: RemoteRequest) -> bool {
    &&& req.method is Post
    &&& addressed(cfg, "/devices"@, req)
    &&& req.query@.len() == 1
    &&& req.body matches RequestBody::Device(d) && same_record_without_key(d, device)
}

/// `req` gives the device's AppKey to the device's key resource.
pub open spec fn is_key_request(cfg: Config, device: LoraDevice, req: RemoteRequest) -> bool {
    &&& req.method is Post
    &&& addressed(cfg, "/devices/"@ + device.dev_eui@ + "/keys"@, req)
    &&& req.query@.len() == 1
    &&& req.body matches RequestBody::DeviceKeys { nwk_key, dev_eui } && nwk_key@
        == device.app_key@ && dev_eui@ == device.dev_eui@
}

fn authorization(cfg: &Config) -> (r: String)
    ensures
        r@ == bearer(cfg.token@),
{
    let mut r = "Bearer ".to_owned();
    r.append(cfg.token.as_str());
    r
}

fn application_scope(cfg: &Config) -> (q: Vec<(String, String)>)
    ensures
        q@.len() == 1,
        q@[0].0@ == "applicationID"@,
        q@[0].1@ == cfg.application_id@,
{
    let mut q: Vec<(String, String)> = Vec::new();
    q.push(("applicationID".to_owned(), cfg.application_id.clone()));
    q
}

fn decimal_string(n: u32) -> (r: String)
    ensures
        r@ == decimal(n as nat),
{
    let mut r = String::new();
    push_decimal(&mut r, n);
    assert(r@ =~= decimal(n as nat));
    r
}

/// The request for `limit` devices of the application, after the first `offset`.
pub fn get_device(cfg: &Config, limit: u32, offset: u32) -> (req: RemoteRequest)
    ensures
        is_list_request(*cfg, limit, offset, req),
{
    let mut url = cfg.url.clone();
    url.append("/devices");
    let mut query = application_scope(cfg);
    query.push(("limit".to_owned(), decimal_string(limit)));
    query.push(("offset".to_owned(), decimal_string(offset)));
    RemoteRequest {
        method: HttpMethod::Get,
        url,
        authorization: authorization(cfg),
        query,
        body: RequestBody::Empty,
    }
}

/// The request that creates `device`. Its AppKey is left out: the service
/// takes the key in a call of its own.
pub fn post_device(cfg: &Config, device: &LoraDevice) -> (req: RemoteRequest)
    ensures
        is_create_request(*cfg, *device, req),
{
    let mut url = cfg.url.clone();
    url.append("/devices");
    RemoteRequest {
        method: HttpMethod::Post,
        url,
        authorization: authorization(cfg),
        query: application_scope(cfg),
        body: RequestBody::Device(device.without_key()),
    }
}

/// The request that gives `device` its AppKey, at the device's key resource.
pub fn post_appkey(cfg: &Config, device: &LoraDevice) -> (req: RemoteRequest)
    ensures
        is_key_request(*cfg, *device, req),
{
    let mut url = cfg.url.clone();
    url.append("/devices/");
    url.append(device.dev_eui.as_str());
    url.append("/keys");
    assert(url@ =~= cfg.url@ + ("/devices/"@ + device.dev_eui@ + "/keys"@));
    RemoteRequest {
        method: HttpMethod::Post,
        url,
        authorization: authorization(cfg),
        query: application_scope(cfg),
        body: RequestBody::DeviceKeys {
            nwk_key: device.app_key.clone(),
            dev_eui: device.dev_eui.clone(),
        },
    }
}

/// The phase of a remote call.
#[derive(Clone, Debug, PartialEq, Eq)]
pub enum RemotePhase {
    /// Creating the device record.
    Create,
    /// Giving the device its key.
    Key,
    /// Listing devices.
    List,
}

/// What came back from one remote call.
#[derive(Clone, Debug, PartialEq, Eq)]
pub enum RemoteEvent {
    /// The service answered with this HTTP status and body.
    Response { status: u16, body: String },
    /// The service could not be reached, or the answer could not be read.
    Unreachable(String),
}

/// A remote call that failed, and the phase it failed in. A device created
/// before the failure is not removed: `device_created` says so.
#[derive(Clone, Debug, PartialEq, Eq)]
pub struct RemoteFailure {
    pub phase: RemotePhase,
    /// The HTTP status, where the service answered.
    pub status: Option<u16>,
    /// The body of the answer, or what went wrong on the way.
    pub message: String,
    pub device_created: bool,
}

/// Where a registration stands.
#[derive(Clone, Debug, PartialEq, Eq)]
pub enum RegistrationState {
    /// The device record has been sent.
    CreatingDevice,
    /// The device exists; its key has been sent.
    SettingKey { create_response: String },
    /// Both phases succeeded.
    Registered { create_response: String, key_response: String },
    /// A phase failed; nothing more is sent.
    Failed(RemoteFailure),
}

/// An HTTP status of success: `2xx`.
pub open spec fn is_success(status: u16) -> bool {
    200 <= status <= 299
}

/// The outcome of a call in `phase`: the body of a successful answer, or the failure.
pub open spec fn outcome_of(phase: RemotePhase, device_created: bool, event: RemoteEvent) -> Result<
    String,
    RemoteFailure,
> {
    match event {
        RemoteEvent::Response { status, body } => if is_success(status) {
            Ok(body)
        } else {
            Err(RemoteFailure { phase, status: Some(status), message: body, device_created })
        },
        RemoteEvent::Unreachable(m) => Err(
            RemoteFailure { phase, status: None, message: m, device_created },
        ),
    }
}

/// Where a registration goes from `state` when `event` comes back.
pub open spec fn registration_step(state: RegistrationState, event: RemoteEvent) -> RegistrationState {
    match state {
        RegistrationState::CreatingDevice => match outcome_of(RemotePhase::Create, false, event) {
            Ok(body) => RegistrationState::SettingKey { create_response: body },
            Err(f) => RegistrationState::Failed(f),
        },
        RegistrationState::SettingKey { create_response } => match outcome_of(
            RemotePhase::Key,
            true,
            event,
        ) {
            Ok(body) => RegistrationState::Registered { create_response, key_response: body },
            Err(f) => RegistrationState::Failed(f),
        },
        _ => state,
    }
}

fn outcome(phase: RemotePhase, device_created: bool, event: RemoteEvent) -> (r: Result<
    String,
    RemoteFailure,
>)
    ensures
        r == outcome_of(phase, device_created, event),
{
    match event {
        RemoteEvent::Response { status, body } => {
            if 200 <= status && status <= 299 {
                Ok(body)
            } else {
                Err(RemoteFailure { phase, status: Some(status), message: body, device_created })
            }
        },
        RemoteEvent::Unreachable(m) => Err(
            RemoteFailure { phase, status: None, message: m, device_created },
        ),
    }
}

/// Starts registering `device`: the device record goes first, without its key.
pub fn begin_registration(cfg: &Config, device: &LoraDevice) -> (r: (RegistrationState, RemoteRequest))
    ensures
        r.0 is CreatingDevice,
        is_create_request(*cfg, *device, r.1),
{
    (RegistrationState::CreatingDevice, post_device(cfg, device))
}

/// One step of registering `device`: the next state once `event` has come
/// back, and the request to send next, if any. The key is sent only once
/// the device has been created; a failure ends the registration.
pub fn handle_post_device(
    cfg: &Config,
    device: &LoraDevice,
    state: RegistrationState,
    event: RemoteEvent,
) -> (r: (RegistrationState, Option<RemoteRequest>))
    ensures
        r.0 == registration_step(state, event),
        r.1 is Some <==> r.0 is SettingKey && state is CreatingDevice,
        r.1 matches Some(req) ==> is_key_request(*cfg, *device, req),
{
    match state {
        RegistrationState::CreatingDevice => match outcome(RemotePhase::Create, false, event) {
            Ok(body) => (
                RegistrationState::SettingKey { create_response: body },
                Some(post_appkey(cfg, device)),
            ),
            Err(f) => (RegistrationState::Failed(f), None),
        },
        RegistrationState::SettingKey { create_response } => match outcome(
            RemotePhase::Key,
            true,
            event,
        ) {
            Ok(body) => (RegistrationState::Registered { create_response, key_response: body }, None),
            Err(f) => (RegistrationState::Failed(f), None),
        },
        _ => (state, None),
    }
}

/// The answer to a request for the device list: its body, or the failure.
pub fn read_device_list(event: RemoteEvent) -> (r: Result<String, RemoteFailure>)
    ensures
        r == outcome_of(RemotePhase::List, false, event),
{
    outcome(RemotePhase::List, false, event)
}

/// What a call to the remote service comes to.
#[derive(Clone, Debug, PartialEq, Eq)]
pub enum ApiPlan {
    /// Register this device.
    Register(LoraDevice, Substitutions),
    /// Send this request for the device list.
    List(RemoteRequest),
}

/// What to do for `command`: the device to register, resolved from the
/// values given, or the request for the list.
pub fn handle_chirpstack_api(cfg: &Config, command: &ApiCommands) -> (r: ApiPlan)
    ensures
        match *command {
            ApiCommands::Post { name, description, dev_eui, app_key } => r matches ApiPlan::Register(
                d,
                s,
            ) && resolves_to(*cfg, app_key@, dev_eui@, description@, name@, d, s),
            ApiCommands::Get { limit, offset } => r matches ApiPlan::List(req) && is_list_request(
                *cfg,
                limit,
                offset,
                req,
            ),
        },
{
    match command {
        ApiCommands::Post { name, description, dev_eui, app_key } => {
            let (device, subst) = LoraDevice::resolve(
                cfg,
                app_key.as_str(),
                dev_eui.as_str(),
                description.as_str(),
                name.as_str(),
            );
            ApiPlan::Register(device, subst)
        },
        ApiCommands::Get { limit, offset } => ApiPlan::List(get_device(cfg, *limit, *offset)),
    }
}

} // verus!
