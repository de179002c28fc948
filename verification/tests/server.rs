use kiosk_session::server::{add_time, register, validate_password, AddTimeRequest, RegisterRequest};
use kiosk_session::text::str_eq;

#[test]
fn register_with_the_expected_pair_id_returns_the_fixed_identity() {
    let req = RegisterRequest {
        pair_id: "pair-id-123".to_string(),
        address: "10.0.0.7".to_string(),
        hwid: "acceptor-55".to_string(),
    };
    let resp = register(&req);
    assert!(resp.status);
    assert_eq!(resp.server_hwid, "server-hwid-123");
    assert_eq!(resp.server_address, "127.0.0.1:3000");
    assert_eq!(resp.text, "Registration successful");
}

#[test]
fn register_with_a_wrong_pair_id_fails_in_band_with_empty_identity() {
    let req = RegisterRequest {
        pair_id: "pair-id-999".to_string(),
        address: "10.0.0.7".to_string(),
        hwid: "acceptor-55".to_string(),
    };
    let resp = register(&req);
    assert!(!resp.status);
    assert_eq!(resp.server_hwid, "");
    assert_eq!(resp.server_address, "");
    assert_eq!(resp.text, "Invalid pair_id");
}

#[test]
fn register_ignores_address_and_hwid_contents() {
    let req = RegisterRequest {
        pair_id: "pair-id-123".to_string(),
        address: "".to_string(),
        hwid: "anything at all".to_string(),
    };
    assert!(register(&req).status);
}

#[test]
fn add_time_always_succeeds_and_forwards_the_amount() {
    let (resp, message) = add_time(&AddTimeRequest { credits: 7 });
    assert!(resp.status);
    assert_eq!(resp.text, "Time added successfully");
    assert_eq!(message.amount, 7);
}

#[test]
fn validate_password_accepts_only_the_fixed_password() {
    assert!(validate_password("123"));
    assert!(!validate_password("1234"));
    assert!(!validate_password(""));
}

#[test]
fn str_eq_compares_by_characters() {
    assert!(str_eq("", ""));
    assert!(str_eq("abc", "abc"));
    assert!(!str_eq("abc", "abd"));
    assert!(!str_eq("abc", "abcd"));
    assert!(str_eq("naïve ✓", "naïve ✓"));
    assert!(!str_eq("naïve", "naive"));
}
