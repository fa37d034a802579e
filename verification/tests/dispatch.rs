use device_agent::command::{join_streams, report, CommandName};
use device_agent::dispatch::{dispatch, is_command_topic, InboundEvent};
use device_agent::progress::{
    connecting_line, lost_connection_line, received_line, received_payload_line,
    reconnect_error_line, subscribing_line, waiting_line,
};
use device_agent::text::{bytes_end_with, bytes_equal, text_of};

#[test]
fn command_words_are_dispatched_on_command_topic() {
    assert_eq!(dispatch("device-7/commands", b"shutdown"), Some(CommandName::Shutdown));
    assert_eq!(dispatch("device-7/commands", b"reboot"), Some(CommandName::Reboot));
}

#[test]
fn capitalised_shutdown_is_not_a_command() {
    assert_eq!(dispatch("device-7/commands", b"Shutdown"), None);
    assert_eq!(CommandName::from_text("Shutdown"), None);
    assert_eq!(CommandName::from_payload(b"Shutdown"), None);
}

#[test]
fn unknown_payloads_are_dropped() {
    let payloads: [&[u8]; 12] = [
        b"",
        b"halt",
        b"SHUTDOWN",
        b"Reboot",
        b"shutdown ",
        b" shutdown",
        b"shutdown\n",
        b"reboot\0",
        b"shutdownreboot",
        b"shutdow",
        b"reboo",
        &[0xff, 0xfe],
    ];
    for payload in payloads {
        assert_eq!(dispatch("device-7/commands", payload), None, "{:?}", payload);
    }
}

#[test]
fn payload_with_malformed_bytes_is_dropped() {
    let mut payload = b"reboot".to_vec();
    payload.push(0x80);
    assert_eq!(dispatch("device-7/commands", &payload), None);
    assert_eq!(dispatch("device-7/commands", &[0xc3]), None);
}

#[test]
fn other_topics_are_dropped_whatever_the_payload() {
    for topic in [
        "",
        "device-7/status",
        "device-7/commands/",
        "device-7/command",
        "commands",
        "device-7/Commands",
        "device-7/commands ",
        "/commandß",
    ] {
        assert_eq!(dispatch(topic, b"shutdown"), None, "{:?}", topic);
        assert_eq!(dispatch(topic, b"reboot"), None, "{:?}", topic);
        assert!(!is_command_topic(topic), "{:?}", topic);
    }
}

#[test]
fn command_topic_is_told_by_its_suffix() {
    assert!(is_command_topic("device-7/commands"));
    assert!(is_command_topic("/commands"));
    assert!(is_command_topic("a/b/commands"));
    assert!(is_command_topic("gerät/commands"));
    assert!(is_command_topic("日本/commands"));
    assert!(!is_command_topic("/command"));
    assert!(!is_command_topic("ommands"));
}

#[test]
fn message_on_any_devices_command_topic_is_dispatched() {
    assert_eq!(dispatch("other-device/commands", b"reboot"), Some(CommandName::Reboot));
}

#[test]
fn inbound_message_names_its_command() {
    let event = InboundEvent::Message {
        topic: String::from("device-7/commands"),
        payload: b"reboot".to_vec(),
    };
    assert_eq!(event.command(), Some(CommandName::Reboot));
    let event = InboundEvent::Message {
        topic: String::from("device-7/news"),
        payload: b"reboot".to_vec(),
    };
    assert_eq!(event.command(), None);
    assert_eq!(InboundEvent::Disconnected.command(), None);
}

#[test]
fn command_words_round_trip() {
    for command in [CommandName::Shutdown, CommandName::Reboot] {
        assert_eq!(CommandName::from_text(command.word()), Some(command));
        assert_eq!(CommandName::from_payload(command.word().as_bytes()), Some(command));
    }
    assert_eq!(CommandName::Shutdown.word(), "shutdown");
    assert_eq!(CommandName::Reboot.word(), "reboot");
    assert_eq!(CommandName::from_text("restart"), None);
}

#[test]
fn shutdown_halts_and_powers_off_now() {
    let command = CommandName::Shutdown;
    assert_eq!(command.program(), "sudo");
    assert_eq!(command.arguments(), vec!["/usr/sbin/shutdown", "-hP", "now"]);
    assert_eq!(command.announcement(), "shutting down");
    assert_eq!(command.launch_failure(), "failed to shutdown");
}

#[test]
fn reboot_restarts_now() {
    let command = CommandName::Reboot;
    assert_eq!(command.program(), "sudo");
    assert_eq!(command.arguments(), vec!["/usr/sbin/reboot"]);
    assert_eq!(command.announcement(), "rebooting");
    assert_eq!(command.launch_failure(), "failed to reboot");
}

#[test]
fn report_is_output_then_errors() {
    assert_eq!(report(b"going down\n", b"warning: busy\n"), "going down\nwarning: busy\n");
    assert_eq!(report(b"", b""), "");
    assert_eq!(report(b"", b"sudo: not allowed"), "sudo: not allowed");
    assert_eq!(join_streams("a", "b"), "ab");
}

#[test]
fn report_replaces_malformed_bytes() {
    assert_eq!(report(&[0x6f, 0x6b, 0xff], &[0xc3, 0x28]), "ok\u{fffd}\u{fffd}(");
    assert_eq!(report("é".as_bytes(), "日本".as_bytes()), "é日本");
}

#[test]
fn progress_lines_read_as_expected() {
    assert_eq!(connecting_line(), "Connecting to the MQTT server...");
    assert_eq!(subscribing_line("device-7/commands"), "Subscribing to topic: device-7/commands");
    assert_eq!(waiting_line(), "Waiting for messages...");
    assert_eq!(received_line("reboot"), "received: reboot");
    assert_eq!(received_payload_line(b"reboot"), "received: reboot");
    assert_eq!(received_payload_line(&[0x68, 0x69, 0xff]), "received: hi\u{fffd}");
    assert_eq!(lost_connection_line(), "Lost connection. Attempting reconnect.");
    assert_eq!(reconnect_error_line("timed out"), "Error reconnecting: timed out");
}

#[test]
fn bytes_end_with_compares_the_tail() {
    assert!(bytes_end_with(b"abc", b"bc"));
    assert!(bytes_end_with(b"abc", b"abc"));
    assert!(bytes_end_with(b"abc", b""));
    assert!(bytes_end_with(b"", b""));
    assert!(!bytes_end_with(b"abc", b"ab"));
    assert!(!bytes_end_with(b"bc", b"abc"));
    assert!(!bytes_end_with(b"", b"a"));
}

#[test]
fn bytes_equal_compares_all_bytes() {
    assert!(bytes_equal(b"abc", b"abc"));
    assert!(bytes_equal(b"", b""));
    assert!(!bytes_equal(b"abc", b"abd"));
    assert!(!bytes_equal(b"abc", b"ab"));
    assert!(!bytes_equal(b"ab", b"abc"));
}

#[test]
fn text_of_decodes_and_replaces() {
    assert_eq!(text_of(b"reboot"), "reboot");
    assert_eq!(text_of(b""), "");
    assert_eq!(text_of("gerät 日本".as_bytes()), "gerät 日本");
    assert_eq!(text_of(&[0xff]), "\u{fffd}");
    assert_eq!(text_of(&[0x61, 0x80, 0x62]), "a\u{fffd}b");
}
