//! Persisted per-device configuration records.
//!
//! One record per device identity holds the network bind settings, the
//! license fields and the user-interface texts.  The devices live in a
//! vector of named entries whose names are kept unique — the
//! well-formedness invariant [`AppConfig::wf`] — so a device name denotes at
//! most one record.  Reading and writing the file itself is the embedding
//! program's concern; this module owns the records and the rules for
//! looking them up and changing them.

use vstd::prelude::*;
use vstd::string::StringExecFns;

use crate::text::{append_json_escaped, json_escape, str_eq};

verus! {

/// A paired acceptor device, as remembered in the configuration.
#[derive(Debug)]
pub struct Client {
    pub address: String,
    pub hwid: String,
}

/// A named [`Client`] record.
#[derive(Debug)]
pub struct ClientEntry {
    pub name: String,
    pub client: Client,
}

/// Network bind settings and the station's own identity.
#[derive(Debug)]
pub struct Server {
    pub address: String,
    pub port: String,
    pub hwid: String,
    pub password: String,
    pub configpath: String,
}

/// The license fields of one device.  Created unauthorized and empty on
/// first run; written only after a successful authorization.
#[derive(Debug, Clone)]
pub struct License {
    pub authorized: bool,
    pub serial_number: String,
    pub email_address: String,
}

/// Texts and placement the presentation layer shows.
#[derive(Debug, Clone)]
pub struct UserInterface {
    pub cafe_name: String,
    pub station_id: String,
    pub insert_coin_text: String,
    pub autoshutdown_text: String,
    pub smwindow_position: String,
    pub background_img: String,
    pub countdown_timer: u8,
}

/// Everything one device's record holds.
#[derive(Debug)]
pub struct InnerConfig {
    pub client: Vec<ClientEntry>,
    pub server: Server,
    pub license: License,
    pub ui: UserInterface,
}

/// One device's record.
#[derive(Debug)]
pub struct DeviceConfig {
    pub config: InnerConfig,
}

/// A device record under its device name.
#[derive(Debug)]
pub struct DeviceEntry {
    pub name: String,
    pub device: DeviceConfig,
}

/// The whole configuration: a version tag and one entry per device.
#[derive(Debug)]
pub struct AppConfig {
    pub version: String,
    pub devices: Vec<DeviceEntry>,
}

/// Failure of a configuration lookup or update.
#[derive(Clone, Copy, Debug, PartialEq, Eq, Structural)]
pub enum ConfigError {
    /// No record exists under the given device name.
    DeviceNotFound,
}

/// The bind settings a fresh record starts with: the local default address
/// and port, everything else empty.
pub open spec fn is_default_server(s: Server) -> bool {
    &&& s.address@ == "127.0.0.1"@
    &&& s.port@ == "3000"@
    &&& s.hwid@ == Seq::<char>::empty()
    &&& s.password@ == Seq::<char>::empty()
    &&& s.configpath@ == Seq::<char>::empty()
}

/// The license a fresh record starts with: unauthorized, with empty fields.
pub open spec fn is_default_license(l: License) -> bool {
    &&& !l.authorized
    &&& l.serial_number@ == Seq::<char>::empty()
    &&& l.email_address@ == Seq::<char>::empty()
}

/// The interface texts a fresh record starts with.
pub open spec fn is_default_ui(u: UserInterface) -> bool {
    &&& u.cafe_name@ == "MPG Cafe"@
    &&& u.station_id@ == "station-01"@
    &&& u.insert_coin_text@ == "Insert Coin"@
    &&& u.autoshutdown_text@ == "Auto Shutdown in"@
    &&& u.smwindow_position@ == "top-right"@
    &&& u.background_img@ == "none"@
    &&& u.countdown_timer == 100
}

/// A fresh device record: no clients, default bind settings, an empty
/// license and the default interface texts.
pub open spec fn is_default_device(d: DeviceConfig) -> bool {
    &&& d.config.client@ == Seq::<ClientEntry>::empty()
    &&& is_default_server(d.config.server)
    &&& is_default_license(d.config.license)
    &&& is_default_ui(d.config.ui)
}

/// The license as the JSON object text the presentation layer receives:
/// the authorized flag and the two identity fields, under fixed keys.
pub open spec fn spec_license_json(l: License) -> Seq<char> {
    "{\"authorized\":"@ + (if l.authorized {
        "true"@
    } else {
        "false"@
    }) + ",\"serialNumber\":\""@ + json_escape(l.serial_number@) + "\",\"emailAddress\":\""@
        + json_escape(l.email_address@) + "\"}"@
}

impl License {
    /// Renders the license as one JSON object for the presentation layer.
    pub fn to_json(&self) -> (r: String)
        ensures
            r@ == spec_license_json(*self),
    {
        let mut out = String::from_str("{\"authorized\":");
        if self.authorized {
            out.append("true");
        } else {
            out.append("false");
        }
        out.append(",\"serialNumber\":\"");
        append_json_escaped(&mut out, self.serial_number.as_str());
        out.append("\",\"emailAddress\":\"");
        append_json_escaped(&mut out, self.email_address.as_str());
        out.append("\"}");
        proof {
            assert(out@ =~= spec_license_json(*self));
        }
        out
    }
}

impl Default for Server {
    fn default() -> (s: Server)
        ensures
            is_default_server(s),
    {
        Server {
            address: String::from_str("127.0.0.1"),
            port: String::from_str("3000"),
            hwid: String::new(),
            password: String::new(),
            configpath: String::new(),
        }
    }
}

impl Default for License {
    fn default() -> (l: License)
        ensures
            is_default_license(l),
    {
        License { authorized: false, serial_number: String::new(), email_address: String::new() }
    }
}

impl Default for UserInterface {
    fn default() -> (u: UserInterface)
        ensures
            is_default_ui(u),
    {
        UserInterface {
            cafe_name: String::from_str("MPG Cafe"),
            station_id: String::from_str("station-01"),
            insert_coin_text: String::from_str("Insert Coin"),
            autoshutdown_text: String::from_str("Auto Shutdown in"),
            smwindow_position: String::from_str("top-right"),
            background_img: String::from_str("none"),
            countdown_timer: 100,
        }
    }
}

impl Default for InnerConfig {
    fn default() -> (c: InnerConfig)
        ensures
            is_default_device(DeviceConfig { config: c }),
    {
        InnerConfig {
            client: Vec::new(),
            server: Server::default(),
            license: License::default(),
            ui: UserInterface::default(),
        }
    }
}

impl Default for DeviceConfig {
    fn default() -> (d: DeviceConfig)
        ensures
            is_default_device(d),
    {
        DeviceConfig { config: InnerConfig::default() }
    }
}

impl Default for AppConfig {
    /// An empty configuration carrying the current version tag.
    fn default() -> (c: AppConfig)
        ensures
            c.version@ == "1.0"@,
            c.devices@ == Seq::<DeviceEntry>::empty(),
            c.wf(),
    {
        let c = AppConfig { version: String::from_str("1.0"), devices: Vec::new() };
        proof {
            assert(c.devices@ =~= Seq::<DeviceEntry>::empty());
        }
        c
    }
}

impl AppConfig {
    /// Well-formedness: no two device entries share a name, so a lookup by
    /// name denotes at most one record.  Constructors establish it and every
    /// method preserves it.
    pub open spec fn wf(self) -> bool {
        forall|i: int, j: int|
            #![trigger self.devices@[i], self.devices@[j]]
            0 <= i < j < self.devices@.len() ==> self.devices@[i].name@ != self.devices@[j].name@
    }

    /// Whether a record exists under this device name.
    pub open spec fn spec_has_device(self, name: Seq<char>) -> bool {
        exists|i: int| 0 <= i < self.devices@.len() && (#[trigger] self.devices@[i]).name@ == name
    }

    /// The index of the record under this device name.
    pub open spec fn spec_device_index(self, name: Seq<char>) -> int {
        choose|i: int| 0 <= i < self.devices@.len() && (#[trigger] self.devices@[i]).name@ == name
    }

    /// The record under this device name.
    pub open spec fn spec_device(self, name: Seq<char>) -> DeviceConfig {
        self.devices@[self.spec_device_index(name)].device
    }
}

/// In a well-formed configuration, an entry carrying a name is the one and
/// only entry the lookup functions denote under that name.
proof fn lemma_device_index(c: AppConfig, name: Seq<char>, i: int)
    requires
        c.wf(),
        0 <= i < c.devices@.len(),
        c.devices@[i].name@ == name,
    ensures
        c.spec_has_device(name),
        c.spec_device_index(name) == i,
{
    assert(c.spec_has_device(name));
    let k = c.spec_device_index(name);
    if k < i {
        assert(c.devices@[k].name@ != c.devices@[i].name@);
    } else if k > i {
        assert(c.devices@[i].name@ != c.devices@[k].name@);
    }
}

impl AppConfig {
    /// The index of the entry named `device_name`, if any.
    fn find_device(&self, device_name: &str) -> (found: Option<usize>)
        requires
            self.wf(),
        ensures
            match found {
                Some(i) => {
                    &&& i < self.devices@.len()
                    &&& self.devices@[i as int].name@ == device_name@
                    &&& self.spec_has_device(device_name@)
                    &&& self.spec_device_index(device_name@) == i as int
                },
                None => !self.spec_has_device(device_name@),
            },
    {
        let mut i: usize = 0;
        while i < self.devices.len()
            invariant
                self.wf(),
                i <= self.devices@.len(),
                forall|j: int|
                    0 <= j < i ==> (#[trigger] self.devices@[j]).name@ != device_name@,
            decreases self.devices@.len() - i,
        {
            if str_eq(self.devices[i].name.as_str(), device_name) {
                proof {
                    lemma_device_index(*self, device_name@, i as int);
                }
                return Some(i);
            }
            i = i + 1;
        }
        None
    }

    /// Puts a fresh default record under `device_name`: a record already
    /// there is replaced, any other record is untouched, and a missing one
    /// is appended.  Returns `self` again so calls can be chained.
    pub fn add_device(&mut self, device_name: String) -> (r: &mut Self)
        requires
            old(self).wf(),
        ensures
            *final(self) == *final(r),
            r.wf(),
            r.version == old(self).version,
            r.spec_has_device(device_name@),
            is_default_device(r.spec_device(device_name@)),
            r.devices@[r.spec_device_index(device_name@)].name == device_name,
            old(self).spec_has_device(device_name@) ==> {
                &&& r.devices@.len() == old(self).devices@.len()
                &&& r.spec_device_index(device_name@) == old(self).spec_device_index(
                    device_name@,
                )
                &&& forall|i: int|
                    0 <= i < r.devices@.len() && i != r.spec_device_index(device_name@)
                        ==> r.devices@[i] == old(self).devices@[i]
            },
            !old(self).spec_has_device(device_name@) ==> {
                &&& r.devices@.len() == old(self).devices@.len() + 1
                &&& r.spec_device_index(device_name@) == old(self).devices@.len()
                &&& forall|i: int|
                    0 <= i < old(self).devices@.len() ==> r.devices@[i] == old(
                        self,
                    ).devices@[i]
            },
    {
        let entry = DeviceEntry { name: device_name, device: DeviceConfig::default() };
        match self.find_device(entry.name.as_str()) {
            Some(i) => {
                let ghost name = entry.name@;
                self.devices[i] = entry;
                proof {
                    lemma_device_index(*self, name, i as int);
                }
            },
            None => {
                let ghost name = entry.name@;
                let ghost n = self.devices@.len();
                self.devices.push(entry);
                proof {
                    lemma_device_index(*self, name, n as int);
                }
            },
        }
        self
    }

    /// The bind address of the record under `device_name`; an error exactly
    /// when no such record exists.
    pub fn get_ip_address(&self, device_name: &str) -> (r: Result<String, ConfigError>)
        requires
            self.wf(),
        ensures
            match r {
                Ok(address) => {
                    &&& self.spec_has_device(device_name@)
                    &&& address@ == self.spec_device(device_name@).config.server.address@
                },
                Err(e) => {
                    &&& e == ConfigError::DeviceNotFound
                    &&& !self.spec_has_device(device_name@)
                },
            },
    {
        match self.find_device(device_name) {
            Some(i) => Ok(self.devices[i].device.config.server.address.clone()),
            None => Err(ConfigError::DeviceNotFound),
        }
    }

    /// The bind port of the record under `device_name`; an error exactly
    /// when no such record exists.
    pub fn get_port(&self, device_name: &str) -> (r: Result<String, ConfigError>)
        requires
            self.wf(),
        ensures
            match r {
                Ok(port) => {
                    &&& self.spec_has_device(device_name@)
                    &&& port@ == self.spec_device(device_name@).config.server.port@
                },
                Err(e) => {
                    &&& e == ConfigError::DeviceNotFound
                    &&& !self.spec_has_device(device_name@)
                },
            },
    {
        match self.find_device(device_name) {
            Some(i) => Ok(self.devices[i].device.config.server.port.clone()),
            None => Err(ConfigError::DeviceNotFound),
        }
    }

    /// The license fields of the record under `device_name`; an error
    /// exactly when no such record exists.
    pub fn get_license(&self, device_name: &str) -> (r: Result<License, ConfigError>)
        requires
            self.wf(),
        ensures
            match r {
                Ok(license) => {
                    &&& self.spec_has_device(device_name@)
                    &&& license.authorized == self.spec_device(
                        device_name@,
                    ).config.license.authorized
                    &&& license.serial_number@ == self.spec_device(
                        device_name@,
                    ).config.license.serial_number@
                    &&& license.email_address@ == self.spec_device(
                        device_name@,
                    ).config.license.email_address@
                },
                Err(e) => {
                    &&& e == ConfigError::DeviceNotFound
                    &&& !self.spec_has_device(device_name@)
                },
            },
    {
        match self.find_device(device_name) {
            Some(i) => {
                let stored = &self.devices[i].device.config.license;
                Ok(
                    License {
                        authorized: stored.authorized,
                        serial_number: stored.serial_number.clone(),
                        email_address: stored.email_address.clone(),
                    },
                )
            },
            None => Err(ConfigError::DeviceNotFound),
        }
    }

    /// Writes the license fields of the record under `device_name`; an
    /// error, and no change at all, exactly when no such record exists.
    /// Nothing else of the record — name, clients, bind settings, interface
    /// — moves.
    pub fn set_license(&mut self, device_name: &str, license: License) -> (r: Result<
        (),
        ConfigError,
    >)
        requires
            old(self).wf(),
        ensures
            final(self).wf(),
            match r {
                Ok(_) => {
                    &&& old(self).spec_has_device(device_name@)
                    &&& final(self).version == old(self).version
                    &&& final(self).devices@.len() == old(self).devices@.len()
                    &&& final(self).spec_device_index(device_name@) == old(
                        self,
                    ).spec_device_index(device_name@)
                    &&& final(self).spec_device(device_name@).config.license == license
                    &&& final(self).spec_device(device_name@).config.server == old(
                        self,
                    ).spec_device(device_name@).config.server
                    &&& final(self).spec_device(device_name@).config.ui == old(
                        self,
                    ).spec_device(device_name@).config.ui
                    &&& final(self).spec_device(device_name@).config.client == old(
                        self,
                    ).spec_device(device_name@).config.client
                    &&& forall|i: int|
                        0 <= i < final(self).devices@.len() && i != old(self).spec_device_index(
                            device_name@,
                        ) ==> final(self).devices@[i] == old(self).devices@[i]
                    &&& final(self).devices@[old(self).spec_device_index(device_name@)].name
                        == old(self).devices@[old(self).spec_device_index(device_name@)].name
                },
                Err(e) => {
                    &&& e == ConfigError::DeviceNotFound
                    &&& !old(self).spec_has_device(device_name@)
                    &&& *final(self) == *old(self)
                },
            },
    {
        match self.find_device(device_name) {
            Some(i) => {
                let ghost name = device_name@;
                self.devices[i].device.config.license = license;
                proof {
                    lemma_device_index(*self, name, i as int);
                }
                Ok(())
            },
            None => Err(ConfigError::DeviceNotFound),
        }
    }

    /// The interface settings of the record under `device_name`; an error
    /// exactly when no such record exists.
    pub fn get_ui_config(&self, device_name: &str) -> (r: Result<UserInterface, ConfigError>)
        requires
            self.wf(),
        ensures
            match r {
                Ok(ui) => {
                    &&& self.spec_has_device(device_name@)
                    &&& ui.cafe_name@ == self.spec_device(device_name@).config.ui.cafe_name@
                    &&& ui.station_id@ == self.spec_device(device_name@).config.ui.station_id@
                    &&& ui.insert_coin_text@ == self.spec_device(
                        device_name@,
                    ).config.ui.insert_coin_text@
                    &&& ui.autoshutdown_text@ == self.spec_device(
                        device_name@,
                    ).config.ui.autoshutdown_text@
                    &&& ui.smwindow_position@ == self.spec_device(
                        device_name@,
                    ).config.ui.smwindow_position@
                    &&& ui.background_img@ == self.spec_device(
                        device_name@,
                    ).config.ui.background_img@
                    &&& ui.countdown_timer == self.spec_device(
                        device_name@,
                    ).config.ui.countdown_timer
                },
                Err(e) => {
                    &&& e == ConfigError::DeviceNotFound
                    &&& !self.spec_has_device(device_name@)
                },
            },
    {
        match self.find_device(device_name) {
            Some(i) => {
                let stored = &self.devices[i].device.config.ui;
                Ok(
                    UserInterface {
                        cafe_name: stored.cafe_name.clone(),
                        station_id: stored.station_id.clone(),
                        insert_coin_text: stored.insert_coin_text.clone(),
                        autoshutdown_text: stored.autoshutdown_text.clone(),
                        smwindow_position: stored.smwindow_position.clone(),
                        background_img: stored.background_img.clone(),
                        countdown_timer: stored.countdown_timer,
                    },
                )
            },
            None => Err(ConfigError::DeviceNotFound),
        }
    }

    /// Writes the interface settings of the record under `device_name`; an
    /// error, and no change at all, exactly when no such record exists.
    /// Nothing else of the record moves.
    pub fn set_ui_config(&mut self, device_name: &str, ui_config: UserInterface) -> (r: Result<
        (),
        ConfigError,
    >)
        requires
            old(self).wf(),
        ensures
            final(self).wf(),
            match r {
                Ok(_) => {
                    &&& old(self).spec_has_device(device_name@)
                    &&& final(self).version == old(self).version
                    &&& final(self).devices@.len() == old(self).devices@.len()
                    &&& final(self).spec_device_index(device_name@) == old(
                        self,
                    ).spec_device_index(device_name@)
                    &&& final(self).spec_device(device_name@).config.ui == ui_config
                    &&& final(self).spec_device(device_name@).config.server == old(
                        self,
                    ).spec_device(device_name@).config.server
                    &&& final(self).spec_device(device_name@).config.license == old(
                        self,
                    ).spec_device(device_name@).config.license
                    &&& final(self).spec_device(device_name@).config.client == old(
                        self,
                    ).spec_device(device_name@).config.client
                    &&& forall|i: int|
                        0 <= i < final(self).devices@.len() && i != old(self).spec_device_index(
                            device_name@,
                        ) ==> final(self).devices@[i] == old(self).devices@[i]
                    &&& final(self).devices@[old(self).spec_device_index(device_name@)].name
                        == old(self).devices@[old(self).spec_device_index(device_name@)].name
                },
                Err(e) => {
                    &&& e == ConfigError::DeviceNotFound
                    &&& !old(self).spec_has_device(device_name@)
                    &&& *final(self) == *old(self)
                },
            },
    {
        match self.find_device(device_name) {
            Some(i) => {
                let ghost name = device_name@;
                self.devices[i].device.config.ui = ui_config;
                proof {
                    lemma_device_index(*self, name, i as int);
                }
                Ok(())
            },
            None => Err(ConfigError::DeviceNotFound),
        }
    }
}

} // verus!
