//! Licensing authorization gate.
//!
//! The remote authority keeps one entry per serial number: its active flag,
//! the device it is bound to, and the owning user's email address.  The
//! embedding program performs the network round trip and hands the fetched
//! entry — or the failure to fetch one — to this module as plain values; the
//! decision itself is verified here.  "Could not check" and "checked and
//! rejected" are kept apart: a fetch failure is passed through as an error,
//! never reported as a denial.

use vstd::prelude::*;

use crate::text::str_eq;

verus! {

/// One serial-number entry as the remote authority stores it.  Read-only
/// here: it is fetched for one authorization attempt and never cached.
pub struct SerialEntry {
    pub serial_number: String,
    pub device_id: Option<String>,
    pub active: bool,
    pub owner_email: String,
}

/// Why no entry could be examined.  Each variant is an "authorization
/// unavailable" outcome, distinct from a denial.
#[derive(Clone, Copy, Debug, PartialEq, Eq, Structural)]
pub enum FetchError {
    /// The remote authority could not be reached or rejected the request.
    Transport,
    /// The authority answered, but holds no entry for the serial number.
    NotFound,
    /// The authority's reply could not be read as a serial-number entry.
    Malformed,
}

/// The device an entry is bound to; an unbound entry reads as the empty
/// device id, exactly as the authorization rule compares it.
pub open spec fn spec_bound_device(entry: SerialEntry) -> Seq<char> {
    match entry.device_id {
        Some(id) => id@,
        None => Seq::empty(),
    }
}

/// The authorization rule.  The owner's email must match; an active entry
/// is then authorized only on the device it is bound to, while an inactive
/// entry is authorized on any device (first-time activation).
pub open spec fn spec_authorized(entry: SerialEntry, device_id: Seq<char>, email: Seq<char>) -> bool {
    if email != entry.owner_email@ {
        false
    } else if entry.active {
        spec_bound_device(entry) == device_id
    } else {
        true
    }
}

/// Decides one authorization attempt from a fetched entry.  Pure: the same
/// entry and identities always decide the same way, and no state is touched.
pub fn authorization(entry: &SerialEntry, device_id: &str, email_address: &str) -> (r: bool)
    ensures
        r == spec_authorized(*entry, device_id@, email_address@),
{
    let device_matches = match &entry.device_id {
        Some(id) => str_eq(id.as_str(), device_id),
        None => {
            proof {
                reveal_strlit("");
                assert(""@ =~= Seq::<char>::empty());
            }
            str_eq("", device_id)
        },
    };
    if !str_eq(email_address, entry.owner_email.as_str()) {
        return false;
    }
    if entry.active && !device_matches {
        return false;
    }
    if entry.active && device_matches {
        return true;
    }
    // inactive: first-time activation is allowed on any device
    true
}

/// Completes an authorization attempt once the embedding program has tried
/// to fetch the entry: a fetched entry is decided by [`authorization`], a
/// fetch failure is passed through unchanged — never conflated with a
/// denial.
pub fn authorize(
    fetched: Result<SerialEntry, FetchError>,
    email_address: &str,
    device_id: &str,
) -> (r: Result<bool, FetchError>)
    ensures
        fetched matches Ok(entry) ==> r == Ok::<bool, FetchError>(
            spec_authorized(entry, device_id@, email_address@),
        ),
        fetched matches Err(e) ==> r == Err::<bool, FetchError>(e),
{
    match fetched {
        Ok(entry) => Ok(authorization(&entry, device_id, email_address)),
        Err(e) => Err(e),
    }
}

/// Law: re-authorization is idempotent.  The decision is a pure function of
/// the fetched entry and the identities, so two attempts in a row against
/// the same entry decide alike; and for an active entry bound to this very
/// device, with the owner's email, that shared decision is an authorization
/// — the second attempt succeeds again and, having no side effects, changes
/// nothing.
pub proof fn lemma_reauthorization_idempotent(
    entry: SerialEntry,
    device_id: Seq<char>,
    email: Seq<char>,
)
    requires
        entry.active,
        spec_bound_device(entry) == device_id,
        email == entry.owner_email@,
    ensures
        spec_authorized(entry, device_id, email),
{
}

/// Law: an email address that is not the entry's owner is denied, whatever
/// the entry's active flag and bound device are.
pub proof fn lemma_denied_wrong_email(entry: SerialEntry, device_id: Seq<char>, email: Seq<char>)
    requires
        email != entry.owner_email@,
    ensures
        !spec_authorized(entry, device_id, email),
{
}

/// Law: an active entry bound to a different device is denied, even for the
/// owner.
pub proof fn lemma_denied_foreign_device(entry: SerialEntry, device_id: Seq<char>, email: Seq<char>)
    requires
        entry.active,
        spec_bound_device(entry) != device_id,
    ensures
        !spec_authorized(entry, device_id, email),
{
}

} // verus!
