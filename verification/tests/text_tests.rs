use ril_websocket::text::{
    push_decimal, latin1_to_string, on_ril_message_script, onmessage_script,
    ril_socket_address, push_byte_list, RIL_SOCKET_NAME,
};

fn decimal_string(n: u64) -> String {
    let mut s = String::new();
    push_decimal(&mut s, n);
    s
}

#[test]
fn decimal_of_small_and_large_numbers() {
    assert_eq!(decimal_string(0), "0");
    assert_eq!(decimal_string(7), "7");
    assert_eq!(decimal_string(10), "10");
    assert_eq!(decimal_string(255), "255");
    assert_eq!(decimal_string(u64::MAX), "18446744073709551615");
}

#[test]
fn decimal_matches_display_for_many_values() {
    for n in 0u64..2000 {
        assert_eq!(decimal_string(n), n.to_string());
    }
}

#[test]
fn byte_list_matches_debug_of_a_slice() {
    let cases: Vec<Vec<u8>> = vec![vec![], vec![0], vec![1, 2, 3], vec![255, 0, 17, 128]];
    for data in cases {
        let mut s = String::new();
        push_byte_list(&mut s, &data);
        assert_eq!(s, format!("{:?}", data.as_slice()));
    }
}

#[test]
fn onmessage_script_wraps_raw_json_as_event_data() {
    assert_eq!(
        onmessage_script(r#"{"rilMessageType":"dial"}"#),
        r#"onmessage({"data": {"rilMessageType":"dial"}});"#
    );
    assert_eq!(onmessage_script(""), r#"onmessage({"data": });"#);
}

#[test]
fn on_ril_message_script_lists_client_and_bytes() {
    assert_eq!(
        on_ril_message_script(1, &[0, 12, 255]),
        "onRILMessage(1, new Uint8Array([0, 12, 255]));"
    );
    assert_eq!(on_ril_message_script(0, &[]), "onRILMessage(0, new Uint8Array([]));");
}

#[test]
fn socket_addresses_follow_daemon_names() {
    assert_eq!(RIL_SOCKET_NAME, "/tmp/rilproxy");
    assert_eq!(ril_socket_address(0), "/tmp/rilproxy");
    assert_eq!(ril_socket_address(1), "/tmp/rilproxy2");
    assert_eq!(ril_socket_address(2), "/tmp/rilproxy3");
    assert_eq!(ril_socket_address(255), "/tmp/rilproxy256");
}

#[test]
fn socket_addresses_are_distinct() {
    let all: Vec<String> = (0u8..=255).map(ril_socket_address).collect();
    for i in 0..all.len() {
        for j in (i + 1)..all.len() {
            assert_ne!(all[i], all[j]);
        }
    }
}

#[test]
fn latin1_keeps_every_byte_value() {
    assert_eq!(latin1_to_string(b"all.js"), "all.js");
    assert_eq!(latin1_to_string(&[0x63, 0x61, 0x66, 0xe9]), "caf\u{e9}");
    assert_eq!(latin1_to_string(&[]), "");
}

#[test]
fn push_decimal_appends() {
    let mut s = String::from("id=");
    push_decimal(&mut s, 42);
    assert_eq!(s, "id=42");
}
