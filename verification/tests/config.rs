use serial_bridge::config::{Config, Verbosity};

fn config(address: &str, port: &str, debug: u8) -> Config {
    Config {
        address: address.to_string(),
        port: port.to_string(),
        serial_dev: "/dev/ttyACM0".to_string(),
        baud: 460800,
        debug,
    }
}

#[test]
fn endpoint_joins_address_and_port() {
    assert_eq!(config("0.0.0.0", "2024", 0).endpoint(), "0.0.0.0:2024");
    assert_eq!(config("127.0.0.1", "8080", 0).endpoint(), "127.0.0.1:8080");
}

#[test]
fn endpoint_keeps_empty_parts() {
    assert_eq!(config("", "", 0).endpoint(), ":");
    assert_eq!(config("localhost", "", 0).endpoint(), "localhost:");
}

#[test]
fn debug_levels_map_to_verbosity() {
    assert_eq!(Verbosity::of(0), Verbosity::Off);
    assert_eq!(Verbosity::of(1), Verbosity::Low);
    assert_eq!(Verbosity::of(2), Verbosity::On);
    assert_eq!(Verbosity::of(3), Verbosity::Full);
    assert_eq!(Verbosity::of(255), Verbosity::Full);
    assert_eq!(config("a", "1", 2).verbosity(), Verbosity::On);
}

#[test]
fn verbosity_labels() {
    assert_eq!(Verbosity::Off.label(), "Debug mode is off");
    assert_eq!(Verbosity::Low.label(), "Debug mode is kind of on");
    assert_eq!(Verbosity::On.label(), "Debug mode is on");
    assert_eq!(Verbosity::Full.label(), "Debug mode is ON");
}

#[test]
fn verbosity_thresholds() {
    assert!(!Verbosity::Off.announces_sessions());
    assert!(Verbosity::Low.announces_sessions());
    assert!(Verbosity::On.announces_sessions());
    assert!(Verbosity::Full.announces_sessions());
    assert!(!Verbosity::Off.reports_transfers());
    assert!(!Verbosity::Low.reports_transfers());
    assert!(Verbosity::On.reports_transfers());
    assert!(Verbosity::Full.reports_transfers());
}
