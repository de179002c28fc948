use kiosk_session::config::{AppConfig, License, UserInterface};

#[test]
fn test_add_device() {
    let mut app_config = AppConfig::default();
    app_config.add_device("device1".to_string());
    assert_eq!(app_config.devices.len(), 1);
    app_config.add_device("device2".to_string());
    assert_eq!(app_config.devices.len(), 2);
}

#[test]
fn test_length_is_one_when_adding_the_same_device() {
    let mut app_config = AppConfig::default();
    app_config.add_device("device1".to_string());
    assert_eq!(app_config.devices.len(), 1);
    app_config.add_device("device1".to_string());
    assert_eq!(app_config.devices.len(), 1);
}

#[test]
fn test_get_ip_address_when_device_exists() {
    let mut app_config = AppConfig::default();
    app_config.add_device("device1".to_string());
    let ip_address = app_config.get_ip_address("device1").unwrap();
    assert_eq!(ip_address, "127.0.0.1");
}

#[test]
fn test_get_ip_address_when_device_does_not_exist() {
    let app_config = AppConfig::default();
    let ip_address = app_config.get_ip_address("device1");
    assert!(ip_address.is_err());
}

#[test]
fn test_get_port_when_device_exists() {
    let mut app_config = AppConfig::default();
    app_config.add_device("device1".to_string());
    let port = app_config.get_port("device1").unwrap();
    assert_eq!(port, "3000");
}

#[test]
fn test_get_port_when_device_does_not_exist() {
    let app_config = AppConfig::default();
    let port = app_config.get_port("device1");
    assert!(port.is_err());
}

#[test]
fn test_set_and_get_user_config() {
    let mut app_config = AppConfig::default();
    app_config.add_device("device1".to_string());
    let ui_config = UserInterface {
        cafe_name: "Test Cafe".to_string(),
        station_id: "station-01".to_string(),
        insert_coin_text: "Insert Coin".to_string(),
        autoshutdown_text: "Auto Shutdown in".to_string(),
        smwindow_position: "top-right".to_string(),
        background_img: "none".to_string(),
        countdown_timer: 100,
    };
    app_config.set_ui_config("device1", ui_config.clone()).unwrap();

    let retrieved_ui_config = app_config.get_ui_config("device1").unwrap();
    assert_eq!(retrieved_ui_config.cafe_name, ui_config.cafe_name);
}

#[test]
fn fresh_device_record_has_empty_unauthorized_license() {
    let mut app_config = AppConfig::default();
    app_config.add_device("device1".to_string());
    let license = app_config.get_license("device1").unwrap();
    assert!(!license.authorized);
    assert_eq!(license.serial_number, "");
    assert_eq!(license.email_address, "");
}

#[test]
fn get_license_fails_when_device_does_not_exist() {
    let app_config = AppConfig::default();
    assert!(app_config.get_license("device1").is_err());
}

#[test]
fn set_license_then_get_returns_the_stored_fields() {
    let mut app_config = AppConfig::default();
    app_config.add_device("device1".to_string());
    let license = License {
        authorized: true,
        serial_number: "SERIAL-123".to_string(),
        email_address: "owner@example.com".to_string(),
    };
    app_config.set_license("device1", license).unwrap();
    let stored = app_config.get_license("device1").unwrap();
    assert!(stored.authorized);
    assert_eq!(stored.serial_number, "SERIAL-123");
    assert_eq!(stored.email_address, "owner@example.com");
}

#[test]
fn set_license_fails_when_device_does_not_exist() {
    let mut app_config = AppConfig::default();
    let license = License {
        authorized: true,
        serial_number: "SERIAL-123".to_string(),
        email_address: "owner@example.com".to_string(),
    };
    assert!(app_config.set_license("device1", license).is_err());
}

#[test]
fn set_ui_config_fails_when_device_does_not_exist() {
    let mut app_config = AppConfig::default();
    let ui = UserInterface {
        cafe_name: "Test Cafe".to_string(),
        station_id: "station-01".to_string(),
        insert_coin_text: "Insert Coin".to_string(),
        autoshutdown_text: "Auto Shutdown in".to_string(),
        smwindow_position: "top-right".to_string(),
        background_img: "none".to_string(),
        countdown_timer: 100,
    };
    assert!(app_config.set_ui_config("device1", ui).is_err());
}

#[test]
fn adding_an_existing_device_resets_its_record_to_defaults() {
    let mut app_config = AppConfig::default();
    app_config.add_device("device1".to_string());
    let license = License {
        authorized: true,
        serial_number: "SERIAL-123".to_string(),
        email_address: "owner@example.com".to_string(),
    };
    app_config.set_license("device1", license).unwrap();
    app_config.add_device("device1".to_string());
    let stored = app_config.get_license("device1").unwrap();
    assert!(!stored.authorized);
    assert_eq!(stored.serial_number, "");
}

#[test]
fn older_schema_default_holds_one_prefilled_device() {
    let c = kiosk_session::config_legacy::AppConfig::default();
    assert_eq!(c.version, "1.0");
    assert_eq!(c.devices.len(), 1);
    assert_eq!(c.devices[0].name, "default-device");
    assert_eq!(c.devices[0].device.config.server.address, "127.0.0.1");
    assert_eq!(c.devices[0].device.config.server.port, "8080");
    assert!(!c.devices[0].device.config.license.authorized);
    assert_eq!(c.devices[0].device.config.license.seat_serial, "default-seat-serial");
}

#[test]
fn license_to_json_renders_the_fixed_object() {
    let license = License {
        authorized: true,
        serial_number: "SERIAL-123".to_string(),
        email_address: "owner@example.com".to_string(),
    };
    assert_eq!(
        license.to_json(),
        "{\"authorized\":true,\"serialNumber\":\"SERIAL-123\",\"emailAddress\":\"owner@example.com\"}"
    );
}

#[test]
fn license_to_json_escapes_quotes_backslashes_and_controls() {
    let license = License {
        authorized: false,
        serial_number: "a\"b\\c".to_string(),
        email_address: "line\u{1}\u{1f}end".to_string(),
    };
    assert_eq!(
        license.to_json(),
        "{\"authorized\":false,\"serialNumber\":\"a\\\"b\\\\c\",\"emailAddress\":\"line\\u0001\\u001fend\"}"
    );
}
