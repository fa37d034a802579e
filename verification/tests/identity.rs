use device_agent::identity::{strip_newlines, DeviceIdentity, IdentityError};
use device_agent::session::{
    ConnectParams, DeliveryGuarantee, LastWill, Subscription, EVENT_BUFFER, KEEP_ALIVE_SECS,
    PROTOCOL_LEVEL, RETRY_INTERVAL_MS,
};

#[test]
fn identity_file_with_newline_resolves_to_name() {
    let identity = DeviceIdentity::resolve("device-7\n").unwrap();
    assert_eq!(identity.client_id(), "device-7");
    assert_eq!(identity.command_topic(), "device-7/commands");
}

#[test]
fn identity_without_newline_is_kept() {
    let identity = DeviceIdentity::resolve("rpi4").unwrap();
    assert_eq!(identity.client_id(), "rpi4");
}

#[test]
fn identity_loses_every_trailing_newline() {
    let identity = DeviceIdentity::resolve("node\n\n\n").unwrap();
    assert_eq!(identity.client_id(), "node");
}

#[test]
fn identity_keeps_inner_newline() {
    let identity = DeviceIdentity::resolve("a\nb\n").unwrap();
    assert_eq!(identity.client_id(), "a\nb");
}

#[test]
fn identity_keeps_non_ascii_name() {
    let identity = DeviceIdentity::resolve("gerät-é\n").unwrap();
    assert_eq!(identity.client_id(), "gerät-é");
    assert_eq!(identity.command_topic(), "gerät-é/commands");
}

#[test]
fn empty_identity_is_rejected() {
    assert_eq!(DeviceIdentity::resolve("").unwrap_err(), IdentityError::Empty);
    assert_eq!(DeviceIdentity::resolve("\n").unwrap_err(), IdentityError::Empty);
    assert_eq!(DeviceIdentity::resolve("\n\n").unwrap_err(), IdentityError::Empty);
}

#[test]
fn identity_ending_in_blank_is_rejected() {
    for contents in ["host \n", "host\t", "host\r\n", "host\u{b}", "host\u{c}\n", " "] {
        assert_eq!(
            DeviceIdentity::resolve(contents).unwrap_err(),
            IdentityError::TrailingWhitespace,
            "{:?}",
            contents
        );
    }
}

#[test]
fn identity_ending_in_wide_character_is_accepted() {
    let identity = DeviceIdentity::resolve("host\u{a0}").unwrap();
    assert_eq!(identity.client_id(), "host\u{a0}");
    let identity = DeviceIdentity::resolve("host\u{2028}\n").unwrap();
    assert_eq!(identity.client_id(), "host\u{2028}");
}

#[test]
fn strip_newlines_takes_only_line_feeds_at_the_end() {
    assert_eq!(strip_newlines("abc\n"), "abc");
    assert_eq!(strip_newlines("abc"), "abc");
    assert_eq!(strip_newlines("abc\n\n"), "abc");
    assert_eq!(strip_newlines("\nabc"), "\nabc");
    assert_eq!(strip_newlines("abc\r\n"), "abc\r");
    assert_eq!(strip_newlines("abc \n"), "abc ");
    assert_eq!(strip_newlines(""), "");
    assert_eq!(strip_newlines("\n\n"), "");
    assert_eq!(strip_newlines("日本\n"), "日本");
}

#[test]
fn connect_params_carry_the_fixed_settings() {
    let identity = DeviceIdentity::resolve("device-7\n").unwrap();
    let params = ConnectParams::for_identity(&identity);
    assert_eq!(params.server_uri, "tcp://rpi2.local:1883");
    assert_eq!(params.client_id, "device-7");
    assert_eq!(params.keep_alive_secs, 30);
    assert_eq!(params.protocol_level, 4);
    assert!(!params.clean_session);
    assert_eq!(params.event_buffer, 25);
    assert_eq!(params.will.topic, "test");
    assert_eq!(params.will.payload, "Async subscriber lost connection");
    assert_eq!(params.will.guarantee, DeliveryGuarantee::AtLeastOnce);
}

#[test]
fn session_constants_have_their_values() {
    assert_eq!(KEEP_ALIVE_SECS, 30);
    assert_eq!(PROTOCOL_LEVEL, 4);
    assert_eq!(RETRY_INTERVAL_MS, 1000);
    assert_eq!(EVENT_BUFFER, 25);
}

#[test]
fn last_will_is_the_same_for_all() {
    let will = LastWill::standard();
    assert_eq!(will.topic, "test");
    assert_eq!(will.payload, "Async subscriber lost connection");
    assert_eq!(will.guarantee.level(), 1);
}

#[test]
fn subscription_is_the_command_topic_at_least_once() {
    let identity = DeviceIdentity::resolve("device-7\n").unwrap();
    let subscription = Subscription::for_identity(&identity);
    assert_eq!(subscription.topic, "device-7/commands");
    assert_eq!(subscription.guarantee, DeliveryGuarantee::AtLeastOnce);
    assert_eq!(subscription.guarantee.level(), 1);
}

#[test]
fn delivery_guarantees_have_their_levels() {
    assert_eq!(DeliveryGuarantee::AtMostOnce.level(), 0);
    assert_eq!(DeliveryGuarantee::AtLeastOnce.level(), 1);
    assert_eq!(DeliveryGuarantee::ExactlyOnce.level(), 2);
}
