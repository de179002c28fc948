//! Stable per-machine identity.
//!
//! The controller keys its configuration records and its license binding by
//! one opaque identifier per machine, derived once from hardware facts and
//! immutable for the process lifetime.  Deriving it is the outside crate's
//! work; this module only fixes which components flow in and what shape
//! comes out.

use vstd::prelude::*;

use machineid_rs::{Encryption, HWIDComponent, IdBuilder};

verus! {

/// The stable identifier of this machine, used as the configuration lookup
/// key and as the device id the license is bound to.
#[derive(Debug)]
pub struct UniqueId {
    pub id: String,
}

/// Failure to derive the machine's identity.
#[derive(Clone, Copy, Debug, PartialEq, Eq, Structural)]
pub enum IdentityError {
    /// Some hardware fact could not be read on this machine.
    Unavailable,
}

/// Relies on `machineid_rs::IdBuilder`: `build` joins the added components'
/// strings and returns the HMAC-SHA-256 of that text under `key`, hex
/// encoded — on success always 64 characters.  The components read hardware
/// facts, so the value is machine-dependent and nothing more is stated of
/// it.
#[verifier::external_body]
fn hardware_fingerprint(key: &str) -> (r: Result<String, IdentityError>)
    ensures
        r matches Ok(id) ==> id@.len() == 64,
{
    let mut builder = IdBuilder::new(Encryption::SHA256);
    builder
        .add_component(HWIDComponent::SystemID)
        .add_component(HWIDComponent::MachineName)
        .add_component(HWIDComponent::Username);
    match builder.build(key) {
        Ok(id) => Ok(id),
        Err(_) => Err(IdentityError::Unavailable),
    }
}

impl UniqueId {
    /// This machine's identity: a 64-character hex digest over its system
    /// id, machine name and user name.
    pub fn default() -> (r: Result<UniqueId, IdentityError>)
        ensures
            r matches Ok(u) ==> u.id@.len() == 64,
    {
        match hardware_fingerprint("kiosk-station-key") {
            Ok(id) => Ok(UniqueId { id }),
            Err(e) => Err(e),
        }
    }
}

} // verus!
