//! Where the remote device-management service is and how to reach it.
use vstd::prelude::*;

verus! {

/// The settings of the remote service: its address, a bearer token, and
/// where new devices go.
#[derive(Clone, Debug, PartialEq, Eq)]
pub struct Config {
    /// The base URL of the service's API.
    pub url: String,
    /// The bearer token sent with every call.
    pub token: String,
    /// The application that devices are registered in.
    pub application_id: String,
    /// The device profile that new devices get.
    pub device_profile_id: String,
}

impl Default for Config {
    /// A service on this machine, application 2, with no token.
    fn default() -> (r: Config)
        ensures
            r.url@ == "http://localhost:8080"@,
            r.token@ == ""@,
            r.application_id@ == "2"@,
            r.device_profile_id@ == "70298761-1bf9-4a6c-bda1-69a0eb04aaaf"@,
    {
        Config {
            url: "http://localhost:8080".to_owned(),
            token: "".to_owned(),
            application_id: "2".to_owned(),
            device_profile_id: "70298761-1bf9-4a6c-bda1-69a0eb04aaaf".to_owned(),
        }
    }
}

} // verus!
