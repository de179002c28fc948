//! An older shape of the persisted per-device configuration.
//!
//! Before the shape in [`crate::config`], a device's license was kept as a
//! seat serial with separate identification and hardware fields, and a fresh
//! file started with one prefilled `default-device` record instead of an
//! empty device list.  The shape is retained so records written that way can
//! still be represented and carried over.

use vstd::prelude::*;

verus! {

/// A paired acceptor device, as the older shape remembers it.
#[derive(Debug)]
pub struct Client {
    pub address: String,
    pub hwid: String,
}

/// A named [`Client`] record.
#[derive(Debug)]
pub struct ClientEntry {
    pub name: String,
    pub client: Client,
}

/// Network bind settings and the station's identity, older shape.
#[derive(Debug)]
pub struct Server {
    pub address: String,
    pub port: String,
    pub hwid: String,
    pub password: String,
    pub configpath: String,
}

/// The older license fields: a seat serial bound to an identification and a
/// hardware id.
#[derive(Debug)]
pub struct License {
    pub authorized: bool,
    pub seat_serial: String,
    pub identification: String,
    pub hwid: String,
}

/// Everything one device's record holds, older shape.
#[derive(Debug)]
pub struct InnerConfig {
    pub client: Vec<ClientEntry>,
    pub server: Server,
    pub license: License,
}

/// One device's record, older shape.
#[derive(Debug)]
pub struct DeviceConfig {
    pub config: InnerConfig,
}

/// A device record under its device name.
#[derive(Debug)]
pub struct DeviceEntry {
    pub name: String,
    pub device: DeviceConfig,
}

/// The whole older configuration: a version tag and the device records.
#[derive(Debug)]
pub struct AppConfig {
    pub version: String,
    pub devices: Vec<DeviceEntry>,
}

impl AppConfig {
    /// The configuration a fresh file started with under the older shape:
    /// one `default-device` record with prefilled bind settings and an
    /// unauthorized license.
    pub fn default() -> (c: AppConfig)
        ensures
            c.version@ == "1.0"@,
            c.devices@.len() == 1,
            c.devices@[0].name@ == "default-device"@,
            c.devices@[0].device.config.client@ == Seq::<ClientEntry>::empty(),
            c.devices@[0].device.config.server.address@ == "127.0.0.1"@,
            c.devices@[0].device.config.server.port@ == "8080"@,
            c.devices@[0].device.config.server.hwid@ == "default-hwid"@,
            c.devices@[0].device.config.server.password@ == "default-password"@,
            c.devices@[0].device.config.server.configpath@ == "C:\\ProgramData\\CPS\\config"@,
            !c.devices@[0].device.config.license.authorized,
            c.devices@[0].device.config.license.seat_serial@ == "default-seat-serial"@,
            c.devices@[0].device.config.license.identification@ == "default-identification"@,
            c.devices@[0].device.config.license.hwid@ == "default-hwid"@,
    {
        let mut devices: Vec<DeviceEntry> = Vec::new();

        let default_device_config = DeviceConfig {
            config: InnerConfig {
                client: Vec::new(),
                server: Server {
                    address: String::from_str("127.0.0.1"),
                    port: String::from_str("8080"),
                    hwid: String::from_str("default-hwid"),
                    password: String::from_str("default-password"),
                    configpath: String::from_str("C:\\ProgramData\\CPS\\config"),
                },
                license: License {
                    authorized: false,
                    seat_serial: String::from_str("default-seat-serial"),
                    identification: String::from_str("default-identification"),
                    hwid: String::from_str("default-hwid"),
                },
            },
        };

        devices.push(DeviceEntry { name: String::from_str("default-device"), device: default_device_config });

        AppConfig { version: String::from_str("1.0"), devices }
    }
}

} // verus!
