//! Provisioning of LoRa end-devices: identifiers, the AT command protocol
//! over a serial link, and registration with a device-management service.
pub mod chirpstack;
pub mod provision;
pub mod serial;
pub mod text;
pub mod user_config;
pub mod utils;
