//! Tests of the settings snapshot defaults and the generated client
//! identifier.

use vaux_runner::settings::{
    generated_client_id, ClientSetting, TransportDescriptor, DEFAULT_WILL_DELAY_SECONDS,
    DEFAULT_WILL_EXPIRY_SECONDS,
};
use vaux_runner::packet::QosLevel;

#[test]
fn snapshot_defaults() {
    let s = ClientSetting::new();
    assert_eq!(s.clean_start, None);
    assert_eq!(s.host, "localhost");
    assert_eq!(s.port, 1883);
    assert!(!s.with_tls);
    assert_eq!(s.ca_file, "");
    assert_eq!(s.client_cert, "");
    assert_eq!(s.session_expiry, DEFAULT_WILL_EXPIRY_SECONDS);
    assert!(s.auto_ack);
    assert!(s.auto_packet_id);
    assert!(s.with_ping_resp);
    assert!(!s.with_credentials);
    assert_eq!(s.username, "");
    assert_eq!(s.password, "");
    assert!(!s.with_will);
    assert_eq!(s.will_topic, "");
    assert_eq!(s.will_payload, "");
    assert_eq!(s.will_qos, QosLevel::AtMostOnce);
    assert!(!s.will_retain);
    assert_eq!(s.will_delay, DEFAULT_WILL_DELAY_SECONDS);
    assert_eq!(s.will_expiry, DEFAULT_WILL_EXPIRY_SECONDS);
}

#[test]
fn default_seconds() {
    assert_eq!(DEFAULT_WILL_DELAY_SECONDS, 60);
    assert_eq!(DEFAULT_WILL_EXPIRY_SECONDS, 300);
}

#[test]
fn generated_id_has_prefix_and_uuid_tail() {
    let id = generated_client_id();
    assert_eq!(id.len(), 43);
    assert!(id.starts_with("client-"));
    let tail = &id[7..];
    assert_eq!(tail.len(), 36);
    assert_eq!(tail.as_bytes()[8], b'-');
    assert_eq!(tail.as_bytes()[13], b'-');
    assert_eq!(tail.as_bytes()[18], b'-');
    assert_eq!(tail.as_bytes()[23], b'-');
    assert!(tail
        .chars()
        .all(|c| c == '-' || c.is_ascii_hexdigit()));
}

#[test]
fn generated_ids_differ() {
    // Random identifiers: two draws virtually never collide, and the
    // default snapshot embeds a fresh one each time.
    let a = ClientSetting::new();
    let b = ClientSetting::new();
    assert_ne!(a.client_id, b.client_id);
}

#[test]
fn transport_from_settings_carries_credentials_only_when_enabled() {
    let mut s = ClientSetting::new();
    s.host = "broker.example".to_string();
    s.port = 8883;
    s.with_tls = true;
    s.username = "alice".to_string();
    s.password = "pw".to_string();

    let t = TransportDescriptor::from_settings(&s);
    assert_eq!(t.host, "broker.example");
    assert_eq!(t.port, 8883);
    assert!(t.with_tls);
    assert!(!t.with_credentials);
    assert_eq!(t.username, "");
    assert_eq!(t.password, "");

    s.with_credentials = true;
    let t = TransportDescriptor::from_settings(&s);
    assert!(t.with_credentials);
    assert_eq!(t.username, "alice");
    assert_eq!(t.password, "pw");
}
