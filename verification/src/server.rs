//! Local ingestion endpoint: request validation and response building.
//!
//! The embedding program owns the actual network listener; each inbound
//! request is handed to these functions as plain values.  `register` checks
//! the pairing handshake, `add_time` accepts a credit report and produces the
//! message for the countdown engine.  Failures are reported in-band in the
//! response payload, never as a transport error.

use vstd::prelude::*;

use crate::text::str_eq;

verus! {

/// Pairing request sent by the acceptor device.
pub struct RegisterRequest {
    pub pair_id: String,
    pub address: String,
    pub hwid: String,
}

/// In-band reply to a pairing request.
pub struct RegisterResponse {
    pub status: bool,
    pub server_hwid: String,
    pub server_address: String,
    pub text: String,
}

/// Credit report sent by the acceptor device.
pub struct AddTimeRequest {
    pub credits: u8,
}

/// In-band reply to a credit report.
pub struct AddTimeResponse {
    pub status: bool,
    pub text: String,
}

/// One credit delivery on its way to the countdown engine.  Created by
/// `add_time`, consumed exactly once by the engine; never persisted.
pub struct CreditMessage {
    pub amount: u8,
}

/// The fixed pairing value a device must present.  A deployment constant,
/// not user data.
pub open spec fn expected_pair_id() -> Seq<char> {
    "pair-id-123"@
}

/// The fixed hardware identity reported back on a successful pairing.
pub open spec fn server_hwid_text() -> Seq<char> {
    "server-hwid-123"@
}

/// The fixed address reported back on a successful pairing.
pub open spec fn server_address_text() -> Seq<char> {
    "127.0.0.1:3000"@
}

/// Decides a pairing request.  Exactly the requests carrying the expected
/// `pair_id` succeed and receive the fixed server identity; every other
/// request is answered with `status == false` and empty identity fields.
/// The `address` and `hwid` fields are accepted but not validated.
pub fn register(req: &RegisterRequest) -> (resp: RegisterResponse)
    ensures
        resp.status == (req.pair_id@ == expected_pair_id()),
        resp.status ==> resp.server_hwid@ == server_hwid_text(),
        resp.status ==> resp.server_address@ == server_address_text(),
        resp.status ==> resp.text@ == "Registration successful"@,
        !resp.status ==> resp.server_hwid@ == Seq::<char>::empty(),
        !resp.status ==> resp.server_address@ == Seq::<char>::empty(),
        !resp.status ==> resp.text@ == "Invalid pair_id"@,
{
    if !str_eq(req.pair_id.as_str(), "pair-id-123") {
        return RegisterResponse {
            status: false,
            server_hwid: String::new(),
            server_address: String::new(),
            text: String::from_str("Invalid pair_id"),
        };
    }
    RegisterResponse {
        status: true,
        server_hwid: String::from_str("server-hwid-123"),
        server_address: String::from_str("127.0.0.1:3000"),
        text: String::from_str("Registration successful"),
    }
}

/// Accepts a credit report.  A well-formed request always succeeds; the
/// returned `CreditMessage` carries the reported amount to the countdown
/// engine.  Whether the message is actually delivered is the caller's
/// concern: the acceptor is never asked to retry, so the response does not
/// depend on delivery.
pub fn add_time(req: &AddTimeRequest) -> (out: (AddTimeResponse, CreditMessage))
    ensures
        out.0.status,
        out.0.text@ == "Time added successfully"@,
        out.1.amount == req.credits,
{
    let response = AddTimeResponse {
        status: true,
        text: String::from_str("Time added successfully"),
    };
    (response, CreditMessage { amount: req.credits })
}

/// Gate in front of the local settings screen: only the fixed maintenance
/// password opens it.
pub fn validate_password(password: &str) -> (ok: bool)
    ensures
        ok == (password@ == "123"@),
{
    str_eq(password, "123")
}

} // verus!
